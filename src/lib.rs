//! A typed client for the remote control API of a torrent client: the
//! session state, the request builders and the response model, with their
//! encodings and decisions stated in contracts and proved.

pub mod client;
pub mod common;
pub mod error;
pub mod text;
pub mod torrent;
pub mod upload;
