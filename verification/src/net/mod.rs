pub mod protocol;
pub mod server;
pub mod client;
