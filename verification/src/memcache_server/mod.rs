pub mod handler;
pub mod laws;
pub mod memc_tcp;
pub mod port_file_writer;
pub mod server_thread;
