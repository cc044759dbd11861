//! Bootstrap for a locally running game client's companion service: reads the
//! local credential descriptor, resolves region and shard, derives the service
//! endpoints and turns the local token exchange into authenticated headers.
pub mod auth;
pub mod client;
pub mod errors;
pub mod handshake;
pub mod lockfile;
pub mod resources;
pub mod text;
