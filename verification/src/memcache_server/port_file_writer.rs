use crate::text::{append_signed_decimal, signed_decimal_chars};
use vstd::prelude::*;

verus! {

/// Name of the environment variable that names the file the listen port
/// is written to.
pub const MEMCACHED_FILE_ENV_VARIABLE: &'static str = "MEMCACHED_PORT_FILENAME";

/// Writes the port the server listens on to a file, for tools that start
/// the server on a free port.
pub struct PortFileWriter {}

impl PortFileWriter {
    pub fn new() -> (r: Self) {
        PortFileWriter {}
    }

    /// What the port file holds: `TCP INET: <port>`.
    pub fn port_file_contents(&self, port: i32) -> (r: String)
        ensures
            r@ == "TCP INET: "@ + signed_decimal_chars(port),
    {
        let mut contents = String::from_str("TCP INET: ");
        append_signed_decimal(&mut contents, port);
        contents
    }
}

} // verus!
