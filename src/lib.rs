pub mod client;
pub mod cookie;
pub mod form;
pub mod handshake;
pub mod http;
pub mod redirect;
pub mod requests;
pub mod signing;
pub mod text;
pub mod token;
pub mod types;
