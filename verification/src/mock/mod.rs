pub mod handler;
pub mod mock_server;
pub mod key_value;
