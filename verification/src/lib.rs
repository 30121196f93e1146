//! Authorization core of a music-catalog REST backend.
//!
//! The library models the request-intercepting gate that every inbound
//! request passes before handler dispatch: route classification, bearer
//! token verification, session resolution, the ownership guard and the
//! admin gate. The surrounding HTTP server, persistence layer and file
//! transfer utilities live outside the library and consume it through
//! plain values.

pub mod auth;
pub mod interceptor;
pub mod models;
pub mod pagination;
pub mod routes;
pub mod session;
pub mod strutil;
pub mod token;

pub use pagination::validate_pagination;
