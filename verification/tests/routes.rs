use echo_core::routes::admin_only_routes;
use echo_core::routes::path_matches_template;
use echo_core::routes::AccessClass;
use echo_core::routes::HttpMethod;

#[test]
fn health_get_is_public() {
    let table = admin_only_routes();
    assert_eq!(table.classify("/health", HttpMethod::Get), AccessClass::Public);
}

#[test]
fn health_post_is_authenticated() {
    let table = admin_only_routes();
    assert_eq!(table.classify("/health", HttpMethod::Post), AccessClass::Authenticated);
}

#[test]
fn sessions_post_is_logged_out_only() {
    let table = admin_only_routes();
    assert_eq!(table.classify("/sessions", HttpMethod::Post), AccessClass::LoggedOutOnly);
}

#[test]
fn sessions_get_is_authenticated() {
    let table = admin_only_routes();
    assert_eq!(table.classify("/sessions", HttpMethod::Get), AccessClass::Authenticated);
}

#[test]
fn user_creation_is_admin_only() {
    let table = admin_only_routes();
    assert_eq!(table.classify("/users", HttpMethod::Post), AccessClass::AdminOnly);
}

#[test]
fn song_mutation_is_admin_only() {
    let table = admin_only_routes();
    assert_eq!(table.classify("/songs", HttpMethod::Post), AccessClass::AdminOnly);
    assert_eq!(table.classify("/songs/abc-123", HttpMethod::Put), AccessClass::AdminOnly);
    assert_eq!(table.classify("/songs/abc-123", HttpMethod::Delete), AccessClass::AdminOnly);
}

#[test]
fn album_mutation_is_admin_only() {
    let table = admin_only_routes();
    assert_eq!(table.classify("/albums", HttpMethod::Post), AccessClass::AdminOnly);
    assert_eq!(table.classify("/albums/42", HttpMethod::Put), AccessClass::AdminOnly);
    assert_eq!(table.classify("/albums/42", HttpMethod::Delete), AccessClass::AdminOnly);
}

#[test]
fn reads_default_to_authenticated() {
    let table = admin_only_routes();
    assert_eq!(table.classify("/songs", HttpMethod::Get), AccessClass::Authenticated);
    assert_eq!(table.classify("/songs/abc", HttpMethod::Get), AccessClass::Authenticated);
    assert_eq!(table.classify("/playlists", HttpMethod::Post), AccessClass::Authenticated);
    assert_eq!(table.classify("/users/u1/playlists", HttpMethod::Get), AccessClass::Authenticated);
}

#[test]
fn matching_is_anchored() {
    let table = admin_only_routes();
    assert_eq!(table.classify("/songs/abc/extra", HttpMethod::Put), AccessClass::Authenticated);
    assert_eq!(table.classify("/api/songs", HttpMethod::Post), AccessClass::Authenticated);
    assert_eq!(table.classify("/songsx", HttpMethod::Post), AccessClass::Authenticated);
}

#[test]
fn matching_is_case_sensitive() {
    let table = admin_only_routes();
    assert_eq!(table.classify("/Songs", HttpMethod::Post), AccessClass::Authenticated);
}

#[test]
fn wildcard_needs_nonempty_segment() {
    let table = admin_only_routes();
    assert_eq!(table.classify("/songs/", HttpMethod::Delete), AccessClass::Authenticated);
}

#[test]
fn template_literal_segments() {
    assert!(path_matches_template("/songs", "/songs"));
    assert!(!path_matches_template("/songs", "/albums"));
    assert!(!path_matches_template("/songs", "/songs/1"));
}

#[test]
fn template_wildcard_segments() {
    assert!(path_matches_template("/songs/{song_id}", "/songs/1"));
    assert!(path_matches_template("/songs/{song_id}", "/songs/a-long-uuid"));
    assert!(!path_matches_template("/songs/{song_id}", "/songs/"));
    assert!(!path_matches_template("/songs/{song_id}", "/songs/1/2"));
    assert!(path_matches_template("/users/{id}/playlists", "/users/u1/playlists"));
    assert!(!path_matches_template("/users/{id}/playlists", "/users/u1/favorites"));
}

#[test]
fn admin_table_contents() {
    let table = admin_only_routes();
    let templates: Vec<(&str, HttpMethod)> = table
        .admin_rules
        .iter()
        .map(|r| (r.template.as_str(), r.method))
        .collect();
    assert_eq!(
        templates,
        vec![
            ("/users", HttpMethod::Post),
            ("/songs", HttpMethod::Post),
            ("/songs/{song_id}", HttpMethod::Put),
            ("/songs/{song_id}", HttpMethod::Delete),
            ("/albums", HttpMethod::Post),
            ("/albums/{album_id}", HttpMethod::Put),
            ("/albums/{album_id}", HttpMethod::Delete),
        ]
    );
}
