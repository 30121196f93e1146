//! Plain data records of the catalog: albums, favorites, genres,
//! playlists, songs and users, together with the storage and file-transfer
//! configuration types. The surrounding server converts these to and from
//! its wire and storage representations; the library holds them as plain
//! values.

use crate::pagination::Pagination;
use vstd::prelude::*;

verus! {

/// A storage-connection failure, reported to the caller as an internal
/// error.
#[derive(Clone, Copy, Debug)]
pub struct DbError;

/// A new album to insert.
#[derive(Clone, Debug)]
pub struct NewAlbum {
    pub id: String,
    pub name: String,
    pub artist_id: String,
    pub release_year: Option<i32>,
    pub cover_url: Option<String>,
}

/// An album update payload.
#[derive(Clone, Debug)]
pub struct UpdateAlbum {
    pub name: String,
    pub release_year: Option<i32>,
    pub cover_url: Option<String>,
}

/// Query parameters of the album listing.
#[derive(Clone, Debug)]
pub struct AlbumQuery {
    pub q: Option<String>,
    pub pagination: Pagination,
}

/// A favorite: a song marked by a user.
#[derive(Clone, Debug)]
pub struct NewFavorite {
    pub user_id: String,
    pub song_id: String,
}

/// A genre row.
#[derive(Clone, Debug)]
pub struct Genre {
    pub id: i32,
    pub name: String,
}

/// A new genre to insert.
#[derive(Clone, Debug)]
pub struct NewGenre {
    pub name: String,
}

/// A genre update payload.
#[derive(Clone, Debug)]
pub struct UpdateGenre {
    pub name: Option<String>,
}

/// A new playlist to insert.
#[derive(Clone, Debug)]
pub struct NewPlaylist {
    pub id: String,
    pub user_id: String,
    pub name: String,
    pub description: Option<String>,
    pub is_public: Option<bool>,
}

/// A playlist update payload.
#[derive(Clone, Debug)]
pub struct UpdatePlaylist {
    pub name: Option<String>,
    pub description: Option<String>,
    pub is_public: Option<bool>,
}

/// A request to add a song to a playlist at a position.
#[derive(Clone, Debug)]
pub struct AddSongRequest {
    pub song_id: String,
    pub position: i32,
}

/// A playlist membership row to insert.
#[derive(Clone, Debug)]
pub struct NewPlaylistSong {
    pub playlist_id: String,
    pub song_id: String,
    pub position: i32,
}

/// Query parameters of the song listing.
#[derive(Clone, Debug)]
pub struct SongQuery {
    pub limit: Option<i64>,
    pub offset: Option<i64>,
    pub name: Option<String>,
    pub genre: Option<String>,
    pub artist: Option<String>,
    pub sort: Option<String>,
    pub random: Option<bool>,
}

/// A new song to insert.
#[derive(Clone, Debug)]
pub struct NewSong {
    pub id: String,
    pub title: String,
    pub artist_id: String,
    pub album_id: Option<String>,
    pub genre_id: Option<i32>,
    pub duration_seconds: i32,
    pub object_url: String,
}

/// A song update payload.
#[derive(Clone, Debug)]
pub struct UpdateSong {
    pub title: Option<String>,
    pub artist_id: Option<String>,
    pub album_id: Option<String>,
    pub genre_id: Option<i32>,
    pub duration_seconds: Option<i32>,
}

/// A user row. The admin flag gates the admin-only routes; it is read
/// fresh on every request that needs it.
#[derive(Clone, Debug)]
pub struct User {
    pub id: String,
    pub username: String,
    pub password_hash: String,
    pub avatar_url: Option<String>,
    pub created_at: Option<i64>,
    pub updated_at: Option<i64>,
    pub is_admin: bool,
}

/// A user update payload.
#[derive(Clone, Debug)]
pub struct UpdateUser {
    pub username: Option<String>,
    pub avatar_url: Option<String>,
}

/// A request to create a user (admin-only).
#[derive(Clone, Debug)]
pub struct CreateUser {
    pub username: String,
    pub password: String,
    pub avatar_url: Option<String>,
    pub is_admin: Option<bool>,
}

/// A user row to insert.
#[derive(Clone, Debug)]
pub struct NewUser {
    pub id: String,
    pub username: String,
    pub password_hash: String,
    pub avatar_url: Option<String>,
    pub is_admin: bool,
}

/// Connection settings of the file-transfer host, loaded from the
/// environment by the surrounding server.
#[derive(Clone, Debug)]
pub struct SftpConfig {
    pub host: String,
    pub port: u16,
    pub username: String,
    pub private_key: String,
    pub passphrase: Option<String>,
}

} // verus!
