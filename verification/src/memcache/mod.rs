pub mod builder;
pub mod cli;
pub mod store;
