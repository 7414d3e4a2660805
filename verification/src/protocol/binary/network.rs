use vstd::prelude::*;

verus! {

/// First byte of every packet of the binary protocol.
#[derive(Debug, Clone, Copy, PartialEq, Eq, Structural)]
pub enum Magic {
    Request,
    Response,
}

pub open spec fn spec_magic_code(m: Magic) -> u8 {
    match m {
        Magic::Request => 0x80,
        Magic::Response => 0x81,
    }
}

impl Magic {
    pub fn as_u8(&self) -> (r: u8)
        ensures
            r == spec_magic_code(*self),
    {
        match self {
            Magic::Request => 0x80,
            Magic::Response => 0x81,
        }
    }
}

/// Status codes of responses.
#[derive(Debug, Clone, Copy, PartialEq, Eq, Structural)]
pub enum ResponseStatus {
    Success,
    KeyNotExists,
    KeyExists,
    TooBig,
    InvalidArguments,
    NotStored,
    NonNumericValue,
    AuthenticationError,
    AuthenticationContinue,
    UnkownError,
    NotEnoughMemory,
}

pub open spec fn spec_status_code(s: ResponseStatus) -> u16 {
    match s {
        ResponseStatus::Success => 0x00,
        ResponseStatus::KeyNotExists => 0x01,
        ResponseStatus::KeyExists => 0x02,
        ResponseStatus::TooBig => 0x03,
        ResponseStatus::InvalidArguments => 0x04,
        ResponseStatus::NotStored => 0x05,
        ResponseStatus::NonNumericValue => 0x06,
        ResponseStatus::AuthenticationError => 0x20,
        ResponseStatus::AuthenticationContinue => 0x21,
        ResponseStatus::UnkownError => 0x81,
        ResponseStatus::NotEnoughMemory => 0x82,
    }
}

impl ResponseStatus {
    pub fn as_u16(&self) -> (r: u16)
        ensures
            r == spec_status_code(*self),
    {
        match self {
            ResponseStatus::Success => 0x00,
            ResponseStatus::KeyNotExists => 0x01,
            ResponseStatus::KeyExists => 0x02,
            ResponseStatus::TooBig => 0x03,
            ResponseStatus::InvalidArguments => 0x04,
            ResponseStatus::NotStored => 0x05,
            ResponseStatus::NonNumericValue => 0x06,
            ResponseStatus::AuthenticationError => 0x20,
            ResponseStatus::AuthenticationContinue => 0x21,
            ResponseStatus::UnkownError => 0x81,
            ResponseStatus::NotEnoughMemory => 0x82,
        }
    }
}

/// Data type field of a packet; only raw bytes are defined.
#[derive(Debug, Clone, Copy, PartialEq, Eq, Structural)]
pub enum DataTypes {
    RawBytes,
}

impl DataTypes {
    pub fn as_u8(&self) -> (r: u8)
        ensures
            r == 0,
    {
        0
    }
}

/// Operation codes of the binary protocol.
#[derive(Debug, Clone, Copy, PartialEq, Eq, Structural)]
pub enum Command {
    Get,
    SetValue,
    Add,
    Replace,
    Delete,
    Increment,
    Decrement,
    Quit,
    Flush,
    GetQuiet,
    Noop,
    Version,
    GetKey,
    GetKeyQuiet,
    Append,
    Prepend,
    Stat,
    SetQuiet,
    AddQuiet,
    ReplaceQuiet,
    DeleteQuiet,
    IncrementQuiet,
    DecrementQuiet,
    QuitQuiet,
    FlushQuiet,
    AppendQuiet,
    PrependQuiet,
    Touch,
    GetAndTouch,
    GetAndTouchQuiet,
    SaslListMechs,
    SaslAuth,
    SaslStep,
    GetAndTouchKey,
    GetAndTouchKeyQuiet,
    OpCodeMax,
}

pub open spec fn spec_opcode(c: Command) -> u8 {
    match c {
        Command::Get => 0x00,
        Command::SetValue => 0x01,
        Command::Add => 0x02,
        Command::Replace => 0x03,
        Command::Delete => 0x04,
        Command::Increment => 0x05,
        Command::Decrement => 0x06,
        Command::Quit => 0x07,
        Command::Flush => 0x08,
        Command::GetQuiet => 0x09,
        Command::Noop => 0x0a,
        Command::Version => 0x0b,
        Command::GetKey => 0x0c,
        Command::GetKeyQuiet => 0x0d,
        Command::Append => 0x0e,
        Command::Prepend => 0x0f,
        Command::Stat => 0x10,
        Command::SetQuiet => 0x11,
        Command::AddQuiet => 0x12,
        Command::ReplaceQuiet => 0x13,
        Command::DeleteQuiet => 0x14,
        Command::IncrementQuiet => 0x15,
        Command::DecrementQuiet => 0x16,
        Command::QuitQuiet => 0x17,
        Command::FlushQuiet => 0x18,
        Command::AppendQuiet => 0x19,
        Command::PrependQuiet => 0x1a,
        Command::Touch => 0x1c,
        Command::GetAndTouch => 0x1d,
        Command::GetAndTouchQuiet => 0x1e,
        Command::SaslListMechs => 0x20,
        Command::SaslAuth => 0x21,
        Command::SaslStep => 0x22,
        Command::GetAndTouchKey => 0x23,
        Command::GetAndTouchKeyQuiet => 0x24,
        Command::OpCodeMax => 0x25,
    }
}

/// The command that an opcode names, if any.
pub open spec fn spec_command(op: u8) -> Option<Command> {
    match op {
        0x00 => Some(Command::Get),
        0x01 => Some(Command::SetValue),
        0x02 => Some(Command::Add),
        0x03 => Some(Command::Replace),
        0x04 => Some(Command::Delete),
        0x05 => Some(Command::Increment),
        0x06 => Some(Command::Decrement),
        0x07 => Some(Command::Quit),
        0x08 => Some(Command::Flush),
        0x09 => Some(Command::GetQuiet),
        0x0a => Some(Command::Noop),
        0x0b => Some(Command::Version),
        0x0c => Some(Command::GetKey),
        0x0d => Some(Command::GetKeyQuiet),
        0x0e => Some(Command::Append),
        0x0f => Some(Command::Prepend),
        0x10 => Some(Command::Stat),
        0x11 => Some(Command::SetQuiet),
        0x12 => Some(Command::AddQuiet),
        0x13 => Some(Command::ReplaceQuiet),
        0x14 => Some(Command::DeleteQuiet),
        0x15 => Some(Command::IncrementQuiet),
        0x16 => Some(Command::DecrementQuiet),
        0x17 => Some(Command::QuitQuiet),
        0x18 => Some(Command::FlushQuiet),
        0x19 => Some(Command::AppendQuiet),
        0x1a => Some(Command::PrependQuiet),
        0x1c => Some(Command::Touch),
        0x1d => Some(Command::GetAndTouch),
        0x1e => Some(Command::GetAndTouchQuiet),
        0x20 => Some(Command::SaslListMechs),
        0x21 => Some(Command::SaslAuth),
        0x22 => Some(Command::SaslStep),
        0x23 => Some(Command::GetAndTouchKey),
        0x24 => Some(Command::GetAndTouchKeyQuiet),
        0x25 => Some(Command::OpCodeMax),
        _ => None,
    }
}

impl Command {
    pub fn as_u8(&self) -> (r: u8)
        ensures
            r == spec_opcode(*self),
    {
        match self {
            Command::Get => 0x00,
            Command::SetValue => 0x01,
            Command::Add => 0x02,
            Command::Replace => 0x03,
            Command::Delete => 0x04,
            Command::Increment => 0x05,
            Command::Decrement => 0x06,
            Command::Quit => 0x07,
            Command::Flush => 0x08,
            Command::GetQuiet => 0x09,
            Command::Noop => 0x0a,
            Command::Version => 0x0b,
            Command::GetKey => 0x0c,
            Command::GetKeyQuiet => 0x0d,
            Command::Append => 0x0e,
            Command::Prepend => 0x0f,
            Command::Stat => 0x10,
            Command::SetQuiet => 0x11,
            Command::AddQuiet => 0x12,
            Command::ReplaceQuiet => 0x13,
            Command::DeleteQuiet => 0x14,
            Command::IncrementQuiet => 0x15,
            Command::DecrementQuiet => 0x16,
            Command::QuitQuiet => 0x17,
            Command::FlushQuiet => 0x18,
            Command::AppendQuiet => 0x19,
            Command::PrependQuiet => 0x1a,
            Command::Touch => 0x1c,
            Command::GetAndTouch => 0x1d,
            Command::GetAndTouchQuiet => 0x1e,
            Command::SaslListMechs => 0x20,
            Command::SaslAuth => 0x21,
            Command::SaslStep => 0x22,
            Command::GetAndTouchKey => 0x23,
            Command::GetAndTouchKeyQuiet => 0x24,
            Command::OpCodeMax => 0x25,
        }
    }

    pub fn from_u8(op: u8) -> (r: Option<Command>)
        ensures
            r == spec_command(op),
            r matches Some(c) ==> spec_opcode(c) == op,
    {
        match op {
            0x00 => Some(Command::Get),
            0x01 => Some(Command::SetValue),
            0x02 => Some(Command::Add),
            0x03 => Some(Command::Replace),
            0x04 => Some(Command::Delete),
            0x05 => Some(Command::Increment),
            0x06 => Some(Command::Decrement),
            0x07 => Some(Command::Quit),
            0x08 => Some(Command::Flush),
            0x09 => Some(Command::GetQuiet),
            0x0a => Some(Command::Noop),
            0x0b => Some(Command::Version),
            0x0c => Some(Command::GetKey),
            0x0d => Some(Command::GetKeyQuiet),
            0x0e => Some(Command::Append),
            0x0f => Some(Command::Prepend),
            0x10 => Some(Command::Stat),
            0x11 => Some(Command::SetQuiet),
            0x12 => Some(Command::AddQuiet),
            0x13 => Some(Command::ReplaceQuiet),
            0x14 => Some(Command::DeleteQuiet),
            0x15 => Some(Command::IncrementQuiet),
            0x16 => Some(Command::DecrementQuiet),
            0x17 => Some(Command::QuitQuiet),
            0x18 => Some(Command::FlushQuiet),
            0x19 => Some(Command::AppendQuiet),
            0x1a => Some(Command::PrependQuiet),
            0x1c => Some(Command::Touch),
            0x1d => Some(Command::GetAndTouch),
            0x1e => Some(Command::GetAndTouchQuiet),
            0x20 => Some(Command::SaslListMechs),
            0x21 => Some(Command::SaslAuth),
            0x22 => Some(Command::SaslStep),
            0x23 => Some(Command::GetAndTouchKey),
            0x24 => Some(Command::GetAndTouchKeyQuiet),
            0x25 => Some(Command::OpCodeMax),
            _ => None,
        }
    }
}

/// Header of a request packet (24 bytes on the wire).
#[derive(Debug, Clone, Copy, PartialEq, Eq, Structural)]
pub struct RequestHeader {
    pub magic: u8,
    pub opcode: u8,
    pub key_length: u16,
    pub extras_length: u8,
    pub data_type: u8,
    pub vbucket_id: u16,
    pub body_length: u32,
    pub opaque: u32,
    pub cas: u64,
}

/// The header with every field zero.
pub open spec fn spec_empty_request_header() -> RequestHeader {
    RequestHeader {
        magic: 0,
        opcode: 0,
        key_length: 0,
        extras_length: 0,
        data_type: 0,
        vbucket_id: 0,
        body_length: 0,
        opaque: 0,
        cas: 0,
    }
}

impl RequestHeader {
    /// A header with every field zero.
    pub fn empty() -> (r: RequestHeader)
        ensures
            r == spec_empty_request_header(),
    {
        RequestHeader {
            magic: 0,
            opcode: 0,
            key_length: 0,
            extras_length: 0,
            data_type: 0,
            vbucket_id: 0,
            body_length: 0,
            opaque: 0,
            cas: 0,
        }
    }
}

/// Header of a response packet (24 bytes on the wire).
#[derive(Debug, Clone, Copy, PartialEq, Eq, Structural)]
pub struct ResponseHeader {
    pub magic: u8,
    pub opcode: u8,
    pub key_length: u16,
    pub extras_length: u8,
    pub data_type: u8,
    pub status: u16,
    pub body_length: u32,
    pub opaque: u32,
    pub cas: u64,
}

/// The header of a response to a command: response magic, the command's
/// opcode and opaque value, every other field zero.
pub open spec fn spec_response_header(cmd: u8, opaque: u32) -> ResponseHeader {
    ResponseHeader {
        magic: 0x81,
        opcode: cmd,
        key_length: 0,
        extras_length: 0,
        data_type: 0,
        status: 0,
        body_length: 0,
        opaque,
        cas: 0,
    }
}

impl ResponseHeader {
    pub fn new(cmd: u8, opaque: u32) -> (r: ResponseHeader)
        ensures
            r == spec_response_header(cmd, opaque),
    {
        ResponseHeader {
            magic: Magic::Response.as_u8(),
            opcode: cmd,
            key_length: 0,
            extras_length: 0,
            data_type: 0,
            status: 0,
            body_length: 0,
            opaque,
            cas: 0,
        }
    }
}

#[derive(Debug)]
pub struct Request {
    pub header: RequestHeader,
}

#[derive(Debug)]
pub struct Response {
    pub header: ResponseHeader,
}

pub type NoopRequest = Request;

pub type NoopResponse = Response;

pub type VersionRequest = Request;

#[derive(Debug)]
pub struct VersionResponse {
    pub header: ResponseHeader,
    pub version: String,
}

#[derive(Debug)]
pub struct ErrorResponse {
    pub header: ResponseHeader,
    pub error: &'static str,
}

#[derive(Debug)]
pub struct GetRequest {
    pub header: RequestHeader,
    pub key: Vec<u8>,
}

pub type GetQuietRequest = GetRequest;

pub type GetKeyRequest = GetRequest;

pub type GetKeyQuietRequest = GetRequest;

#[derive(Debug)]
pub struct GetResponse {
    pub header: ResponseHeader,
    pub flags: u32,
    pub key: Vec<u8>,
    pub value: Vec<u8>,
}

pub type DeleteRequest = GetRequest;

pub type DeleteResponse = Response;

pub type GetQuietlyResponse = GetResponse;

pub type GetKeyResponse = GetResponse;

pub type GetKeyQuietlyResponse = GetResponse;

#[derive(Debug)]
pub struct SetRequest {
    pub header: RequestHeader,
    pub flags: u32,
    pub expiration: u32,
    pub key: Vec<u8>,
    pub value: Vec<u8>,
}

pub type AddRequest = SetRequest;

pub type ReplaceRequest = SetRequest;

#[derive(Debug)]
pub struct AppendRequest {
    pub header: RequestHeader,
    pub key: Vec<u8>,
    pub value: Vec<u8>,
}

pub type PrependRequest = AppendRequest;

pub type AppendResponse = Response;

pub type PrependResponse = Response;

pub type SetResponse = Response;

pub type AddResponse = Response;

pub type ReplaceResponse = Response;

#[derive(Debug)]
pub struct IncrementRequest {
    pub header: RequestHeader,
    pub delta: u64,
    pub initial: u64,
    pub expiration: u32,
    pub key: Vec<u8>,
}

#[derive(Debug)]
pub struct IncrementResponse {
    pub header: ResponseHeader,
    pub value: u64,
}

pub type DecrementRequest = IncrementRequest;

pub type DecrementResponse = IncrementResponse;

#[derive(Debug)]
pub struct TouchRequest {
    pub expiration: u32,
}

pub type TouchResponse = Response;

#[derive(Debug)]
pub struct FlushRequest {
    pub header: RequestHeader,
    pub expiration: u32,
}

pub type FlushResponse = Response;

pub type QuitRequest = Request;

pub type QuitResponse = Response;

pub type StatsRequest = Request;

#[derive(Debug)]
pub struct StatsResponse {
    pub header: ResponseHeader,
}

/// Expiration value of an increment/decrement request that forbids
/// creating the counter when it does not exist.
pub const DELTA_NO_INITIAL_VALUE: u32 = 0xffffffff;

} // verus!
