use crate::cache::eviction_policy::EvictionPolicy;
use crate::memory_store::numeric::{parse_u64, spec_parse_u64};
use crate::memory_store::StoreEngine;
use crate::text::equals_text;
use vstd::string::StringSliceAdditionalSpecFns;
use vstd::prelude::*;

verus! {

/// How the server runs its connections.
#[derive(Copy, Clone, PartialEq, Eq, PartialOrd, Ord, Debug, Structural)]
pub enum RuntimeType {
    /// every thread will create its own runtime which will handle work without thread switching
    CurrentThread,
    /// work stealing threadpool runtime
    MultiThread,
}

pub open spec fn spec_runtime_str(r: RuntimeType) -> Seq<char> {
    match r {
        RuntimeType::CurrentThread => "Work handled withing current thread runtime"@,
        RuntimeType::MultiThread => "Work stealing threadpool runtime"@,
    }
}

impl RuntimeType {
    pub fn as_str(&self) -> (r: &'static str)
        ensures
            r@ == spec_runtime_str(*self),
    {
        match self {
            RuntimeType::CurrentThread => "Work handled withing current thread runtime",
            RuntimeType::MultiThread => "Work stealing threadpool runtime",
        }
    }
}

/// How much the program logs, from least to most.
#[derive(Copy, Clone, PartialEq, Eq, PartialOrd, Ord, Debug, Structural)]
pub enum LogLevel {
    Error,
    Warn,
    Info,
    Debug,
    Trace,
}

/// The log level for a verbosity count: each `-v` shows one more level.
pub fn get_log_level(verbose: u8) -> (r: LogLevel)
    ensures
        r == (if verbose == 0 {
            LogLevel::Error
        } else if verbose == 1 {
            LogLevel::Warn
        } else if verbose == 2 {
            LogLevel::Info
        } else if verbose == 3 {
            LogLevel::Debug
        } else {
            LogLevel::Trace
        }),
{
    match verbose {
        0 => LogLevel::Error,
        1 => LogLevel::Warn,
        2 => LogLevel::Info,
        3 => LogLevel::Debug,
        _ => LogLevel::Trace,
    }
}

/// Default TCP port.
pub const DEFAULT_PORT: u16 = 11211;

/// Default memory limit, 64 MiB.
pub const DEFAULT_MEMORY_LIMIT: u64 = 67108864;

/// Default number of key-value pairs a Moka store holds.
pub const DEFAULT_MAX_CAPACITY: u64 = 1048576;

/// Settings of the DashMap store engine.
#[derive(Clone, Copy, Debug, PartialEq, Eq, Structural)]
pub struct DashMapConfig {
    /// memory limit in bytes
    pub memory_limit: u64,
}

impl Default for DashMapConfig {
    fn default() -> (r: DashMapConfig)
        ensures
            r.memory_limit == DEFAULT_MEMORY_LIMIT,
    {
        DashMapConfig { memory_limit: DEFAULT_MEMORY_LIMIT }
    }
}

/// Settings of the Moka store engine.
#[derive(Clone, Copy, Debug, PartialEq, Eq, Structural)]
pub struct MokaConfig {
    /// maximum number of key-value pairs
    pub max_capacity: u64,
    pub eviction_policy: EvictionPolicy,
}

impl Default for MokaConfig {
    fn default() -> (r: MokaConfig)
        ensures
            r.max_capacity == DEFAULT_MAX_CAPACITY,
            r.eviction_policy == EvictionPolicy::NoEviction,
    {
        MokaConfig { max_capacity: DEFAULT_MAX_CAPACITY, eviction_policy: EvictionPolicy::NoEviction }
    }
}

/// What `str::parse::<usize>` gives for the text with bytes `s`.
pub open spec fn spec_parse_usize(s: Seq<u8>) -> Option<usize> {
    match spec_parse_u64(s) {
        Some(v) => if v <= usize::MAX {
            Some(v as usize)
        } else {
            None
        },
        None => None,
    }
}

/// The outcome of a text check: a value, or an error message.
pub open spec fn text_result<T>(r: Result<T, String>) -> Result<T, Seq<char>> {
    match r {
        Ok(v) => Ok(v),
        Err(e) => Err(e@),
    }
}

/// The port number in `s`: a number in `1..=65535`.
pub open spec fn spec_port_in_range(s: &str) -> Result<u16, Seq<char>> {
    match spec_parse_usize(s.spec_bytes()) {
        None => Err("`"@ + s@ + "` isn't a port number"@),
        Some(port) => if 1 <= port <= 65535 {
            Ok(port as u16)
        } else {
            Err("port not in range 1-65535"@)
        },
    }
}

/// Reads a TCP port number; the error says why `s` is not one.
pub fn port_in_range(s: &str) -> (r: Result<u16, String>)
    ensures
        text_result(r) == spec_port_in_range(s),
{
    let parsed = parse_u64(s.as_bytes());
    let port: usize = match parsed {
        Some(v) => {
            if v as u128 > usize::MAX as u128 {
                let mut message = String::from_str("`");
                message.append(s);
                message.append("` isn't a port number");
                return Err(message);
            }
            v as usize
        },
        None => {
            let mut message = String::from_str("`");
            message.append(s);
            message.append("` isn't a port number");
            return Err(message);
        },
    };
    if 1 <= port && port <= 65535 {
        Ok(port as u16)
    } else {
        Err(String::from_str("port not in range 1-65535"))
    }
}

/// The eviction policy named `s` on the command line: `tiny-lfu` (also
/// written `tiny_lfu`), `lru` or `none`.
pub open spec fn spec_parse_eviction_policy(s: Seq<char>) -> Result<EvictionPolicy, Seq<char>> {
    if s == "tiny-lfu"@ || s == "tiny_lfu"@ {
        Ok(EvictionPolicy::TinyLeastFrequentlyUsed)
    } else if s == "lru"@ {
        Ok(EvictionPolicy::LeastRecentylUsed)
    } else if s == "none"@ {
        Ok(EvictionPolicy::NoEviction)
    } else {
        Err("Invalid eviction policy: "@ + s)
    }
}

pub fn parse_eviction_policy(s: &str) -> (r: Result<EvictionPolicy, String>)
    ensures
        text_result(r) == spec_parse_eviction_policy(s@),
{
    if equals_text(s, "tiny-lfu") || equals_text(s, "tiny_lfu") {
        Ok(EvictionPolicy::TinyLeastFrequentlyUsed)
    } else if equals_text(s, "lru") {
        Ok(EvictionPolicy::LeastRecentylUsed)
    } else if equals_text(s, "none") {
        Ok(EvictionPolicy::NoEviction)
    } else {
        let mut message = String::from_str("Invalid eviction policy: ");
        message.append(s);
        Err(message)
    }
}

/// The store engine named `s` on the command line.
pub open spec fn spec_parse_store_engine(s: Seq<char>) -> Result<StoreEngine, Seq<char>> {
    if s == "moka"@ {
        Ok(StoreEngine::Moka)
    } else if s == "dash-map"@ {
        Ok(StoreEngine::DashMap)
    } else {
        Err("Invalid store engine selected: "@ + s)
    }
}

pub fn parse_store_engine(s: &str) -> (r: Result<StoreEngine, String>)
    ensures
        text_result(r) == spec_parse_store_engine(s@),
{
    if equals_text(s, "moka") {
        Ok(StoreEngine::Moka)
    } else if equals_text(s, "dash-map") {
        Ok(StoreEngine::DashMap)
    } else {
        let mut message = String::from_str("Invalid store engine selected: ");
        message.append(s);
        Err(message)
    }
}

/// What `byte_unit::Byte::parse_str` makes of a size text: the number of
/// bytes as `as_u64` gives it, or the display text of its parse error.
pub uninterp spec fn byte_unit_parse(s: Seq<char>, ignore_case: bool) -> Result<u64, Seq<char>>;

/// `byte_unit::Byte::parse_str`, with the size read by `Byte::as_u64` and
/// an error turned into its display text. The result is named, not
/// stated: it is whatever the crate computes from the text.
#[verifier::external_body]
fn byte_parse_str(s: &str, ignore_case: bool) -> (r: Result<u64, String>)
    ensures
        text_result(r) == byte_unit_parse(s@, ignore_case),
{
    match byte_unit::Byte::parse_str(s, ignore_case) {
        Ok(bytes) => Ok(bytes.as_u64()),
        Err(e) => Err(format!("{}", e)),
    }
}

/// Reads a memory size such as `64MiB` as a number of bytes; units are
/// matched without regard to case.
pub fn parse_memory_mb(s: &str) -> (r: Result<u64, String>)
    ensures
        text_result(r) == byte_unit_parse(s@, true),
{
    byte_parse_str(s, true)
}

} // verus!
