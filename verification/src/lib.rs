pub mod error;
pub mod handshake;
pub mod key;
pub mod request;
pub mod scan;
pub mod search;
