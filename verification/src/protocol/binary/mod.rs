pub mod bytes;
pub mod decoder;
pub mod encoder;
pub mod network;
pub mod laws;
pub mod connection;
