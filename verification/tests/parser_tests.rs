use memcrs::cache::eviction_policy::EvictionPolicy;
use memcrs::memcache::cli::parser::{
    get_log_level, parse_eviction_policy, parse_memory_mb, parse_store_engine, port_in_range,
    LogLevel, RuntimeType,
};
use memcrs::memcache_server::memc_tcp::MemcacheServerConfig;
use memcrs::memcache_server::port_file_writer::PortFileWriter;
use memcrs::memcache_server::server_thread::get_worker_thread_name;
use memcrs::memory_store::StoreEngine;

#[test]
fn port_in_range_accepts_ports() {
    assert_eq!(port_in_range("8080"), Ok(8080));
    assert_eq!(port_in_range("1"), Ok(1));
    assert_eq!(port_in_range("65535"), Ok(65535));
    assert_eq!(port_in_range("+80"), Ok(80));
}

#[test]
fn port_in_range_rejects_out_of_range() {
    assert_eq!(port_in_range("70000"), Err(String::from("port not in range 1-65535")));
    assert_eq!(port_in_range("0"), Err(String::from("port not in range 1-65535")));
}

#[test]
fn port_in_range_rejects_text() {
    assert_eq!(port_in_range("abc"), Err(String::from("`abc` isn't a port number")));
    assert_eq!(port_in_range(""), Err(String::from("`` isn't a port number")));
    assert_eq!(port_in_range("-1"), Err(String::from("`-1` isn't a port number")));
    assert_eq!(
        port_in_range("99999999999999999999999"),
        Err(String::from("`99999999999999999999999` isn't a port number"))
    );
}

#[test]
fn eviction_policy_names() {
    assert_eq!(parse_eviction_policy("lru"), Ok(EvictionPolicy::LeastRecentylUsed));
    assert_eq!(parse_eviction_policy("tiny-lfu"), Ok(EvictionPolicy::TinyLeastFrequentlyUsed));
    assert_eq!(parse_eviction_policy("tiny_lfu"), Ok(EvictionPolicy::TinyLeastFrequentlyUsed));
    assert_eq!(
        parse_eviction_policy("tiny"),
        Err(String::from("Invalid eviction policy: tiny"))
    );
    assert_eq!(parse_eviction_policy("none"), Ok(EvictionPolicy::NoEviction));
    assert_eq!(
        parse_eviction_policy("invalid-policy"),
        Err(String::from("Invalid eviction policy: invalid-policy"))
    );
}

#[test]
fn store_engine_names() {
    assert_eq!(parse_store_engine("moka"), Ok(StoreEngine::Moka));
    assert_eq!(parse_store_engine("dash-map"), Ok(StoreEngine::DashMap));
    assert_eq!(
        parse_store_engine("invalid-store"),
        Err(String::from("Invalid store engine selected: invalid-store"))
    );
}

#[test]
fn memory_sizes() {
    assert_eq!(parse_memory_mb("64MiB"), Ok(67108864));
    assert_eq!(parse_memory_mb("1MiB"), Ok(1048576));
    assert_eq!(parse_memory_mb("128MiB"), Ok(134217728));
    assert!(parse_memory_mb("invalid").is_err());
}

#[test]
fn log_levels() {
    assert_eq!(get_log_level(0), LogLevel::Error);
    assert_eq!(get_log_level(1), LogLevel::Warn);
    assert_eq!(get_log_level(2), LogLevel::Info);
    assert_eq!(get_log_level(3), LogLevel::Debug);
    assert_eq!(get_log_level(4), LogLevel::Trace);
    assert_eq!(get_log_level(200), LogLevel::Trace);
}

#[test]
fn runtime_type_texts() {
    assert_eq!(
        RuntimeType::CurrentThread.as_str(),
        "Work handled withing current thread runtime"
    );
    assert_eq!(RuntimeType::MultiThread.as_str(), "Work stealing threadpool runtime");
}

#[test]
fn worker_thread_names() {
    assert_eq!(get_worker_thread_name(0), "memcrsd-wrk-0");
    assert_eq!(get_worker_thread_name(17), "memcrsd-wrk-17");
    assert_eq!(get_worker_thread_name(1234567890), "memcrsd-wrk-1234567890");
}

#[test]
fn port_file_contents() {
    let writer = PortFileWriter::new();
    assert_eq!(writer.port_file_contents(8080), "TCP INET: 8080");
    assert_eq!(writer.port_file_contents(0), "TCP INET: 0");
    assert_eq!(writer.port_file_contents(-1), "TCP INET: -1");
    assert_eq!(writer.port_file_contents(i32::MIN), "TCP INET: -2147483648");
}

#[test]
fn server_config_fields() {
    let config = MemcacheServerConfig::new(60, 1024, 1048576);
    assert_eq!(config.timeout_secs, 60);
    assert_eq!(config.connection_limit, 1024);
    assert_eq!(config.item_memory_limit, 1048576);
}
