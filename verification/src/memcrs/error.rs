use vstd::prelude::*;

verus! {

/// Errors of the storage layer, each with the status code it is reported
/// with.
#[derive(Debug, PartialEq, Eq, Structural, Clone, Copy)]
pub enum StorageError {
    NotFound,
    KeyExists,
    ValueTooLarge,
    InvalidArguments,
    ItemNotStored,
    ArithOnNonNumeric,
    UnkownCommand,
    OutOfMemory,
    NotSupported,
    InternalError,
    Busy,
    TemporaryFailure,
}

/// Status code of a storage error.
pub open spec fn spec_storage_error_code(e: StorageError) -> u16 {
    match e {
        StorageError::NotFound => 0x01,
        StorageError::KeyExists => 0x02,
        StorageError::ValueTooLarge => 0x03,
        StorageError::InvalidArguments => 0x04,
        StorageError::ItemNotStored => 0x05,
        StorageError::ArithOnNonNumeric => 0x06,
        StorageError::UnkownCommand => 0x81,
        StorageError::OutOfMemory => 0x82,
        StorageError::NotSupported => 0x83,
        StorageError::InternalError => 0x84,
        StorageError::Busy => 0x85,
        StorageError::TemporaryFailure => 0x86,
    }
}

/// Message of a storage error.
pub open spec fn spec_storage_error_message(e: StorageError) -> Seq<char> {
    match e {
        StorageError::NotFound => "Key not found"@,
        StorageError::KeyExists => "Key exists"@,
        StorageError::ValueTooLarge => "Value too large"@,
        StorageError::InvalidArguments => "Invalid arguments"@,
        StorageError::ItemNotStored => "Item not stored"@,
        StorageError::ArithOnNonNumeric => "Incr/Decr on non numeric value"@,
        StorageError::UnkownCommand => "Invalid command"@,
        StorageError::OutOfMemory => "Out of memory"@,
        StorageError::NotSupported => "Not supported"@,
        StorageError::InternalError => "Internal error"@,
        StorageError::Busy => "Busy"@,
        StorageError::TemporaryFailure => "Temporary failure"@,
    }
}

impl StorageError {
    pub fn to_static_string(&self) -> (r: String)
        ensures
            r@ == spec_storage_error_message(*self),
    {
        let message = match self {
            StorageError::NotFound => "Key not found",
            StorageError::KeyExists => "Key exists",
            StorageError::ValueTooLarge => "Value too large",
            StorageError::InvalidArguments => "Invalid arguments",
            StorageError::ItemNotStored => "Item not stored",
            StorageError::ArithOnNonNumeric => "Incr/Decr on non numeric value",
            StorageError::UnkownCommand => "Invalid command",
            StorageError::OutOfMemory => "Out of memory",
            StorageError::NotSupported => "Not supported",
            StorageError::InternalError => "Internal error",
            StorageError::Busy => "Busy",
            StorageError::TemporaryFailure => "Temporary failure",
        };
        String::from_str(message)
    }

    /// The status code the error is reported with.
    pub fn code(&self) -> (r: u16)
        ensures
            r == spec_storage_error_code(*self),
    {
        match self {
            StorageError::NotFound => 0x01,
            StorageError::KeyExists => 0x02,
            StorageError::ValueTooLarge => 0x03,
            StorageError::InvalidArguments => 0x04,
            StorageError::ItemNotStored => 0x05,
            StorageError::ArithOnNonNumeric => 0x06,
            StorageError::UnkownCommand => 0x81,
            StorageError::OutOfMemory => 0x82,
            StorageError::NotSupported => 0x83,
            StorageError::InternalError => 0x84,
            StorageError::Busy => 0x85,
            StorageError::TemporaryFailure => 0x86,
        }
    }
}

} // verus!
