//! Verified core of a small file-storage server: an in-memory file cache with
//! least-recently-used eviction, file identifiers, request authorisation, the
//! decisions of the upload, download and delete endpoints (as state machines
//! the server drives), the info report, the settings, and the periodic
//! clean-ups of storage.
pub mod store;
pub mod cache;
pub mod ids;
pub mod auth;
pub mod digest;
pub mod replies;
pub mod text;
pub mod db;
pub mod upload;
pub mod fetch;
pub mod removal;
pub mod info;
pub mod config;
pub mod sweep;
