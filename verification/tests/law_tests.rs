use memcrs::cache::cache::IncrementParam;
use memcrs::cache::error::CacheError;
use memcrs::memcache::builder::{EngineStoreConfig, MemcacheStoreBuilder, MemcacheStoreConfig};
use memcrs::memcache::cli::parser::{DashMapConfig, MokaConfig};
use memcrs::memcache::store::{MemcStore, Meta, Record};
use memcrs::mock::handler::{create_dash_map_handler, create_header, create_moka_handler};
use memcrs::protocol::binary::decoder::BinaryRequest;
use memcrs::protocol::binary::encoder::BinaryResponse;
use memcrs::protocol::binary::network::{Command, GetRequest, SetRequest};
use memcrs::protocol::binary_codec::MemcacheBinaryCodec;
use memcrs::memory_store::StoreEngine;

fn dash_map_store() -> MemcStore {
    let config = MemcacheStoreConfig::new(
        StoreEngine::DashMap,
        EngineStoreConfig::DashMap(DashMapConfig::default()),
    );
    MemcStore::new(MemcacheStoreBuilder::from_config(config, 8))
}

fn moka_store() -> MemcStore {
    let config = MemcacheStoreConfig::new(
        StoreEngine::Moka,
        EngineStoreConfig::Moka(MokaConfig::default()),
    );
    MemcStore::new(MemcacheStoreBuilder::from_config(config, 8))
}

fn both_stores() -> Vec<MemcStore> {
    vec![dash_map_store(), moka_store()]
}

#[test]
fn get_after_set_returns_stored_record() {
    for mut store in both_stores() {
        store.set_timestamp(100);
        let status = store.set(b"k".to_vec(), Record::new(b"v1".to_vec(), 0, 7, 50)).unwrap();
        assert_eq!(status.cas, 1);
        let rec = store.get(&b"k".to_vec()).unwrap();
        assert_eq!(rec.value, b"v1".to_vec());
        assert_eq!(rec.header.cas, 1);
        assert_eq!(rec.header.flags, 7);
        assert_eq!(rec.header.time_to_live, 150);
    }
}

#[test]
fn cas_returned_by_set_is_the_next_version() {
    for mut store in both_stores() {
        let first = store.set(b"k".to_vec(), Record::new(b"a".to_vec(), 0, 0, 0)).unwrap();
        let second = store
            .set(b"k".to_vec(), Record::new(b"b".to_vec(), first.cas, 0, 0))
            .unwrap();
        assert_eq!(second.cas, first.cas + 1);
        let stale = store.set(b"k".to_vec(), Record::new(b"c".to_vec(), first.cas, 0, 0));
        assert_eq!(stale.unwrap_err(), CacheError::KeyExists);
        assert_eq!(store.get(&b"k".to_vec()).unwrap().value, b"b".to_vec());
    }
}

#[test]
fn deleted_key_is_gone() {
    for mut store in both_stores() {
        store.set(b"k".to_vec(), Record::new(b"v".to_vec(), 0, 0, 0)).unwrap();
        let removed = store.delete(b"k".to_vec(), Meta::new(0, 0, 0)).unwrap();
        assert_eq!(removed.value, b"v".to_vec());
        assert_eq!(store.get(&b"k".to_vec()).unwrap_err(), CacheError::NotFound);
        assert_eq!(store.delete(b"k".to_vec(), Meta::new(0, 0, 0)).unwrap_err(), CacheError::NotFound);
    }
}

#[test]
fn delete_with_wrong_version_keeps_record() {
    for mut store in both_stores() {
        let status = store.set(b"k".to_vec(), Record::new(b"v".to_vec(), 0, 0, 0)).unwrap();
        let result = store.delete(b"k".to_vec(), Meta::new(status.cas + 5, 0, 0));
        assert_eq!(result.unwrap_err(), CacheError::KeyExists);
        assert_eq!(store.get(&b"k".to_vec()).unwrap().value, b"v".to_vec());
    }
}

#[test]
fn add_of_present_key_changes_nothing() {
    for mut store in both_stores() {
        store.set(b"k".to_vec(), Record::new(b"old".to_vec(), 0, 0, 0)).unwrap();
        let result = store.add(b"k".to_vec(), Record::new(b"new".to_vec(), 0, 0, 0));
        assert_eq!(result.unwrap_err(), CacheError::KeyExists);
        assert_eq!(store.get(&b"k".to_vec()).unwrap().value, b"old".to_vec());
        assert!(store.add(b"other".to_vec(), Record::new(b"x".to_vec(), 0, 0, 0)).is_ok());
        assert_eq!(store.get(&b"other".to_vec()).unwrap().value, b"x".to_vec());
    }
}

#[test]
fn replace_of_absent_key_fails() {
    for mut store in both_stores() {
        let result = store.replace(b"k".to_vec(), Record::new(b"v".to_vec(), 0, 0, 0));
        assert_eq!(result.unwrap_err(), CacheError::NotFound);
        assert_eq!(store.get(&b"k".to_vec()).unwrap_err(), CacheError::NotFound);
    }
}

#[test]
fn append_and_prepend_join_values() {
    for mut store in both_stores() {
        store.set(b"k".to_vec(), Record::new(b"mid".to_vec(), 0, 0, 0)).unwrap();
        store.append(b"k".to_vec(), Record::new(b"-end".to_vec(), 0, 0, 0)).unwrap();
        store.prepend(b"k".to_vec(), Record::new(b"start-".to_vec(), 0, 0, 0)).unwrap();
        assert_eq!(store.get(&b"k".to_vec()).unwrap().value, b"start-mid-end".to_vec());
        let missing = store.append(b"none".to_vec(), Record::new(b"x".to_vec(), 0, 0, 0));
        assert_eq!(missing.unwrap_err(), CacheError::NotFound);
    }
}

#[test]
fn counter_is_stored_as_decimal_text() {
    for mut store in both_stores() {
        store.set(b"c".to_vec(), Record::new(b"41".to_vec(), 0, 0, 0)).unwrap();
        let result = store
            .increment(Meta::new(0, 0, 0), b"c".to_vec(), IncrementParam { delta: 1, value: 0 })
            .unwrap();
        assert_eq!(result.value, 42);
        assert_eq!(store.get(&b"c".to_vec()).unwrap().value, b"42".to_vec());
    }
}

#[test]
fn decrement_undoes_increment() {
    for mut store in both_stores() {
        store.set(b"c".to_vec(), Record::new(b"1000".to_vec(), 0, 0, 0)).unwrap();
        store
            .increment(Meta::new(0, 0, 0), b"c".to_vec(), IncrementParam { delta: 234, value: 0 })
            .unwrap();
        let back = store
            .decrement(Meta::new(0, 0, 0), b"c".to_vec(), IncrementParam { delta: 234, value: 0 })
            .unwrap();
        assert_eq!(back.value, 1000);
    }
}

#[test]
fn increment_wraps_and_decrement_stops_at_zero() {
    let mut store = dash_map_store();
    store.set(b"c".to_vec(), Record::new(b"18446744073709551615".to_vec(), 0, 0, 0)).unwrap();
    let wrapped = store
        .increment(Meta::new(0, 0, 0), b"c".to_vec(), IncrementParam { delta: 2, value: 0 })
        .unwrap();
    assert_eq!(wrapped.value, 1);
    let floor = store
        .decrement(Meta::new(0, 0, 0), b"c".to_vec(), IncrementParam { delta: 5, value: 0 })
        .unwrap();
    assert_eq!(floor.value, 0);
}

#[test]
fn missing_counter_is_created_unless_no_initial_value() {
    for mut store in both_stores() {
        let created = store
            .increment(Meta::new(0, 0, 0), b"c".to_vec(), IncrementParam { delta: 3, value: 9 })
            .unwrap();
        assert_eq!(created.value, 9);
        assert_eq!(store.get(&b"c".to_vec()).unwrap().value, b"9".to_vec());
        let refused = store.increment(
            Meta::new(0, 0, 0xffffffff),
            b"d".to_vec(),
            IncrementParam { delta: 3, value: 9 },
        );
        assert_eq!(refused.unwrap_err(), CacheError::NotFound);
    }
}

#[test]
fn expired_record_is_never_returned() {
    for mut store in both_stores() {
        store.set(b"k".to_vec(), Record::new(b"v".to_vec(), 0, 0, 10)).unwrap();
        store.set_timestamp(9);
        assert!(store.get(&b"k".to_vec()).is_ok());
        store.set_timestamp(10);
        assert_eq!(store.get(&b"k".to_vec()).unwrap_err(), CacheError::NotFound);
        store.set_timestamp(0);
        assert_eq!(store.get(&b"k".to_vec()).unwrap_err(), CacheError::NotFound);
    }
}

#[test]
fn flush_without_ttl_empties_store() {
    for mut store in both_stores() {
        store.set(b"a".to_vec(), Record::new(b"1".to_vec(), 0, 0, 0)).unwrap();
        store.set(b"b".to_vec(), Record::new(b"2".to_vec(), 0, 0, 0)).unwrap();
        store.flush(Meta::new(0, 0, 0));
        assert_eq!(store.get(&b"a".to_vec()).unwrap_err(), CacheError::NotFound);
        assert_eq!(store.get(&b"b".to_vec()).unwrap_err(), CacheError::NotFound);
    }
}

#[test]
fn flush_with_ttl_expires_records_on_both_engines() {
    for mut store in both_stores() {
        store.set(b"a".to_vec(), Record::new(b"1".to_vec(), 0, 0, 0)).unwrap();
        store.set(b"b".to_vec(), Record::new(b"2".to_vec(), 0, 0, 0)).unwrap();
        store.flush(Meta::new(0, 0, 5));
        assert_eq!(store.get(&b"a".to_vec()).unwrap().header.time_to_live, 5);
        store.set_timestamp(4);
        assert_eq!(store.get(&b"b".to_vec()).unwrap().value, b"2".to_vec());
        store.set_timestamp(5);
        assert_eq!(store.get(&b"a".to_vec()).unwrap_err(), CacheError::NotFound);
        assert_eq!(store.get(&b"b".to_vec()).unwrap_err(), CacheError::NotFound);
    }
}

#[test]
fn commands_touch_only_their_key() {
    for mut store in both_stores() {
        store.set(b"keep".to_vec(), Record::new(b"same".to_vec(), 0, 3, 0)).unwrap();
        store.set(b"k".to_vec(), Record::new(b"1".to_vec(), 0, 0, 0)).unwrap();
        store.append(b"k".to_vec(), Record::new(b"2".to_vec(), 0, 0, 0)).unwrap();
        store
            .increment(Meta::new(0, 0, 0), b"k".to_vec(), IncrementParam { delta: 1, value: 0 })
            .unwrap();
        store.delete(b"k".to_vec(), Meta::new(0, 0, 0)).unwrap();
        let kept = store.get(&b"keep".to_vec()).unwrap();
        assert_eq!(kept.value, b"same".to_vec());
        assert_eq!(kept.header.flags, 3);
        assert_eq!(kept.header.cas, 1);
    }
}

#[test]
fn moka_version_is_drawn_only_on_success() {
    let mut moka = moka_store();
    let missing = moka.append(b"none".to_vec(), Record::new(b"x".to_vec(), 0, 0, 0));
    assert_eq!(missing.unwrap_err(), CacheError::NotFound);
    assert_eq!(moka.set(b"k".to_vec(), Record::new(b"v".to_vec(), 0, 0, 0)).unwrap().cas, 1);

    let mut dash = dash_map_store();
    let missing = dash.append(b"none".to_vec(), Record::new(b"x".to_vec(), 0, 0, 0));
    assert_eq!(missing.unwrap_err(), CacheError::NotFound);
    assert_eq!(dash.set(b"k".to_vec(), Record::new(b"v".to_vec(), 0, 0, 0)).unwrap().cas, 2);
}

#[test]
fn responses_match_requests_and_are_framed() {
    for mut handler in vec![create_dash_map_handler(), create_moka_handler()] {
        let codec = MemcacheBinaryCodec::new(1024);
        let key = b"key".to_vec();
        let mut header = create_header(Command::SetValue, &key);
        header.opaque = 0x1234_5678;
        let set = BinaryRequest::SetValue(SetRequest {
            header,
            flags: 5,
            expiration: 0,
            key: key.clone(),
            value: b"value".to_vec(),
        });
        let response = handler.handle_request(set).unwrap();
        let h = *response.get_header();
        assert_eq!(h.magic, 0x81);
        assert_eq!(h.opcode, 0x01);
        assert_eq!(h.opaque, 0x1234_5678);
        let bytes = codec.encode_message(&response).data;
        assert_eq!(bytes.len(), 24 + h.body_length as usize);

        for opcode in [Command::Get, Command::GetKey] {
            let header = create_header(opcode, &key);
            let get = if opcode == Command::Get {
                BinaryRequest::Get(GetRequest { header, key: key.clone() })
            } else {
                BinaryRequest::GetKey(GetRequest { header, key: key.clone() })
            };
            let response = handler.handle_request(get).unwrap();
            let h = *response.get_header();
            assert_eq!(h.opcode, opcode.as_u8());
            let bytes = codec.encode_message(&response).data;
            assert_eq!(bytes.len(), 24 + h.body_length as usize);
        }

        let missing = create_header(Command::Get, b"nope");
        let response = handler
            .handle_request(BinaryRequest::Get(GetRequest { header: missing, key: b"nope".to_vec() }))
            .unwrap();
        match &response {
            BinaryResponse::Error(e) => assert_eq!(e.error, "Not found"),
            _ => unreachable!(),
        }
        let bytes = codec.encode_message(&response).data;
        assert_eq!(bytes.len(), 24 + response.get_header().body_length as usize);
    }
}

#[test]
fn quiet_get_of_missing_key_is_not_answered() {
    let mut handler = create_dash_map_handler();
    let header = create_header(Command::GetQuiet, b"nope");
    let result = handler.handle_request(BinaryRequest::GetQuietly(GetRequest {
        header,
        key: b"nope".to_vec(),
    }));
    assert!(result.is_none());
}

fn set_packet() -> Vec<u8> {
    vec![
        0x80, 0x01, 0x00, 0x03, 0x08, 0x00, 0x00, 0x00, 0x00, 0x00, 0x00, 0x0f, 0xDE, 0xAD, 0xBE,
        0xEF, 0x00, 0x00, 0x00, 0x00, 0x00, 0x00, 0x00, 0x01, 0xAB, 0xAD, 0xCA, 0xFE, 0x00, 0x00,
        0x00, 0x32, 0x66, 0x6f, 0x6f, 0x74, 0x65, 0x73, 0x74,
    ]
}

fn describe(request: &BinaryRequest) -> (u8, u32, Vec<u8>, Vec<u8>) {
    match request {
        BinaryRequest::SetValue(r) => (r.header.opcode, r.flags, r.key.clone(), r.value.clone()),
        _ => unreachable!(),
    }
}

#[test]
fn packet_split_in_two_decodes_as_whole() {
    let whole = set_packet();
    for split in [1usize, 10, 23, 24, 25, 30, 38] {
        let mut codec = MemcacheBinaryCodec::new(1024);
        let mut buf = whole[..split].to_vec();
        assert!(codec.decode(&mut buf).unwrap().is_none());
        buf.extend_from_slice(&whole[split..]);
        let request = codec.decode(&mut buf).unwrap().unwrap();
        assert!(buf.is_empty());

        let mut reference_codec = MemcacheBinaryCodec::new(1024);
        let mut reference_buf = whole.clone();
        let reference = reference_codec.decode(&mut reference_buf).unwrap().unwrap();
        assert_eq!(describe(&request), describe(&reference));
    }
}

#[test]
fn decoder_consumes_only_the_first_packet() {
    let mut codec = MemcacheBinaryCodec::new(1024);
    let mut buf = set_packet();
    buf.extend_from_slice(&set_packet()[..10]);
    let request = codec.decode(&mut buf).unwrap().unwrap();
    assert_eq!(describe(&request).2, b"foo".to_vec());
    assert_eq!(buf, set_packet()[..10].to_vec());
    assert!(codec.decode(&mut buf).unwrap().is_none());
    assert_eq!(buf.len(), 10);
}

#[test]
fn body_above_limit_is_reported_too_large() {
    let mut codec = MemcacheBinaryCodec::new(4);
    let mut buf = set_packet();
    match codec.decode(&mut buf).unwrap().unwrap() {
        BinaryRequest::ItemTooLarge(r) => assert_eq!(r.header.body_length, 0x0f),
        _ => unreachable!(),
    }
    assert_eq!(buf.len(), set_packet().len() - 24);
}

fn noop_packet() -> Vec<u8> {
    let mut packet = vec![0u8; 24];
    packet[0] = 0x80;
    packet[1] = 0x0a;
    packet[12] = 0x42;
    packet
}

#[test]
fn packets_back_to_back_decode_one_after_the_other() {
    let mut codec = MemcacheBinaryCodec::new(1024);
    let mut buf = set_packet();
    buf.extend_from_slice(&noop_packet());
    buf.extend_from_slice(&set_packet());
    let first = codec.decode(&mut buf).unwrap().unwrap();
    assert_eq!(describe(&first), (0x01, 0xABADCAFE, b"foo".to_vec(), b"test".to_vec()));
    let mut expected_rest = noop_packet();
    expected_rest.extend_from_slice(&set_packet());
    assert_eq!(buf, expected_rest);
    match codec.decode(&mut buf).unwrap().unwrap() {
        BinaryRequest::Noop(request) => {
            assert_eq!(request.header.opcode, 0x0a);
            assert_eq!(request.header.opaque, 0x42000000);
        }
        _ => unreachable!(),
    }
    assert_eq!(buf, set_packet());
    let third = codec.decode(&mut buf).unwrap().unwrap();
    assert_eq!(describe(&third), describe(&first));
    assert!(buf.is_empty());
}

fn small_moka_store(capacity: u64) -> MemcStore {
    let mut moka = MokaConfig::default();
    moka.max_capacity = capacity;
    let config = MemcacheStoreConfig::new(StoreEngine::Moka, EngineStoreConfig::Moka(moka));
    MemcStore::new(MemcacheStoreBuilder::from_config(config, 1))
}

#[test]
fn moka_store_with_room_keeps_every_record() {
    let mut store = small_moka_store(4);
    store.set(b"a".to_vec(), Record::new(b"1".to_vec(), 0, 0, 0)).unwrap();
    store.add(b"b".to_vec(), Record::new(b"2".to_vec(), 0, 0, 0)).unwrap();
    assert_eq!(
        store.add(b"a".to_vec(), Record::new(b"x".to_vec(), 0, 0, 0)).unwrap_err(),
        CacheError::KeyExists
    );
    let status = store.get(&b"a".to_vec()).unwrap().header.cas;
    assert_eq!(
        store.delete(b"a".to_vec(), Meta::new(status + 9, 0, 0)).unwrap_err(),
        CacheError::KeyExists
    );
    let counter = store
        .increment(Meta::new(0, 0, 0), b"c".to_vec(), IncrementParam { delta: 5, value: 40 })
        .unwrap();
    assert_eq!(counter.value, 40);
    assert_ne!(counter.cas, 0);
    store.run_pending_tasks();
    assert_eq!(store.get(&b"a".to_vec()).unwrap().value, b"1".to_vec());
    assert_eq!(store.get(&b"b".to_vec()).unwrap().value, b"2".to_vec());
    assert_eq!(store.get(&b"c".to_vec()).unwrap().value, b"40".to_vec());
}

fn get_value(handler: &mut memcrs::mock::handler::BinaryHandlerWithTimer, key: &[u8]) -> Vec<u8> {
    let header = create_header(Command::Get, key);
    match handler.handle_request(BinaryRequest::Get(GetRequest { header, key: key.to_vec() })) {
        Some(BinaryResponse::Get(r)) => r.value,
        _ => unreachable!(),
    }
}

#[test]
fn quiet_set_leaves_the_store_a_loud_set_leaves() {
    let mut quiet = create_moka_handler();
    let mut loud = create_moka_handler();
    let key = b"key".to_vec();
    let quiet_answer = quiet.handle_request(BinaryRequest::SetQuietly(SetRequest {
        header: create_header(Command::SetQuiet, &key),
        flags: 3,
        expiration: 0,
        key: key.clone(),
        value: b"same".to_vec(),
    }));
    assert!(quiet_answer.is_none());
    let loud_answer = loud.handle_request(BinaryRequest::SetValue(SetRequest {
        header: create_header(Command::SetValue, &key),
        flags: 3,
        expiration: 0,
        key: key.clone(),
        value: b"same".to_vec(),
    }));
    assert!(loud_answer.is_some());
    assert_eq!(get_value(&mut quiet, &key), b"same".to_vec());
    assert_eq!(get_value(&mut loud, &key), b"same".to_vec());
}
