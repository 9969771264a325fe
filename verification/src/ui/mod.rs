//! The web dashboard: the rows it shows, how it groups and lists them,
//! and who is acting.

pub mod auth;
pub mod routes;
pub mod templates;
