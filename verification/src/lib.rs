pub mod config;
pub mod deezer_api;
pub mod lastfm_auth;
pub mod listenbrainz;
pub mod media_center;
pub mod models;
pub mod presence;
pub mod scrobblers;
pub mod source;
pub mod text;
