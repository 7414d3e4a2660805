use vstd::prelude::*;

verus! {

/// Errors reported by a cache operation; each one has a status code that the
/// binary protocol sends back to the client.
#[derive(Debug, PartialEq, Eq, Structural, Clone, Copy)]
pub enum CacheError {
    NotFound,
    KeyExists,
    ValueTooLarge,
    InvalidArguments,
    ItemNotStored,
    ArithOnNonNumeric,
    UnkownCommand,
    OutOfMemory,
    NotSupported,
    InternalError,
    Busy,
    TemporaryFailure,
}

pub type Result<T> = core::result::Result<T, CacheError>;

/// Protocol status code of an error.
pub open spec fn spec_status(e: CacheError) -> u16 {
    match e {
        CacheError::NotFound => 0x01,
        CacheError::KeyExists => 0x02,
        CacheError::ValueTooLarge => 0x03,
        CacheError::InvalidArguments => 0x04,
        CacheError::ItemNotStored => 0x05,
        CacheError::ArithOnNonNumeric => 0x06,
        CacheError::UnkownCommand => 0x81,
        CacheError::OutOfMemory => 0x82,
        CacheError::NotSupported => 0x83,
        CacheError::InternalError => 0x84,
        CacheError::Busy => 0x85,
        CacheError::TemporaryFailure => 0x86,
    }
}

/// Human readable message of an error.
pub open spec fn spec_message(e: CacheError) -> Seq<char> {
    match e {
        CacheError::NotFound => "Not found"@,
        CacheError::KeyExists => "Key exists"@,
        CacheError::ValueTooLarge => "Value too big"@,
        CacheError::InvalidArguments => "Invalid arguments"@,
        CacheError::ItemNotStored => "Item not stored"@,
        CacheError::ArithOnNonNumeric => "Incr/Decr on non numeric value"@,
        CacheError::UnkownCommand => "Invalid command"@,
        CacheError::OutOfMemory => "Out of memory"@,
        CacheError::NotSupported => "Not supported"@,
        CacheError::InternalError => "Internal error"@,
        CacheError::Busy => "Busy"@,
        CacheError::TemporaryFailure => "Temporary failure"@,
    }
}

/// Every error message is short ASCII text, so its UTF-8 bytes are its
/// characters one for one.
pub proof fn lemma_message_ascii(e: CacheError)
    ensures
        vstd::utf8::is_ascii_chars(spec_message(e)),
        vstd::utf8::encode_utf8(spec_message(e)).len() == spec_message(e).len(),
        spec_message(e).len() <= 30,
{
    match e {
        CacheError::NotFound => {
            reveal_strlit("Not found");
        },
        CacheError::KeyExists => {
            reveal_strlit("Key exists");
        },
        CacheError::ValueTooLarge => {
            reveal_strlit("Value too big");
        },
        CacheError::InvalidArguments => {
            reveal_strlit("Invalid arguments");
        },
        CacheError::ItemNotStored => {
            reveal_strlit("Item not stored");
        },
        CacheError::ArithOnNonNumeric => {
            reveal_strlit("Incr/Decr on non numeric value");
        },
        CacheError::UnkownCommand => {
            reveal_strlit("Invalid command");
        },
        CacheError::OutOfMemory => {
            reveal_strlit("Out of memory");
        },
        CacheError::NotSupported => {
            reveal_strlit("Not supported");
        },
        CacheError::InternalError => {
            reveal_strlit("Internal error");
        },
        CacheError::Busy => {
            reveal_strlit("Busy");
        },
        CacheError::TemporaryFailure => {
            reveal_strlit("Temporary failure");
        },
    }
    vstd::utf8::is_ascii_chars_encode_utf8(spec_message(e));
}

impl CacheError {
    pub fn to_static_string(&self) -> (r: &'static str)
        ensures
            r@ == spec_message(*self),
    {
        match self {
            CacheError::NotFound => "Not found",
            CacheError::KeyExists => "Key exists",
            CacheError::ValueTooLarge => "Value too big",
            CacheError::InvalidArguments => "Invalid arguments",
            CacheError::ItemNotStored => "Item not stored",
            CacheError::ArithOnNonNumeric => "Incr/Decr on non numeric value",
            CacheError::UnkownCommand => "Invalid command",
            CacheError::OutOfMemory => "Out of memory",
            CacheError::NotSupported => "Not supported",
            CacheError::InternalError => "Internal error",
            CacheError::Busy => "Busy",
            CacheError::TemporaryFailure => "Temporary failure",
        }
    }

    /// The status code that the binary protocol uses for this error.
    pub fn status(&self) -> (r: u16)
        ensures
            r == spec_status(*self),
    {
        match self {
            CacheError::NotFound => 0x01,
            CacheError::KeyExists => 0x02,
            CacheError::ValueTooLarge => 0x03,
            CacheError::InvalidArguments => 0x04,
            CacheError::ItemNotStored => 0x05,
            CacheError::ArithOnNonNumeric => 0x06,
            CacheError::UnkownCommand => 0x81,
            CacheError::OutOfMemory => 0x82,
            CacheError::NotSupported => 0x83,
            CacheError::InternalError => 0x84,
            CacheError::Busy => 0x85,
            CacheError::TemporaryFailure => 0x86,
        }
    }
}

} // verus!
