use memcrs::mock::handler::{
    create_dash_map_handler, create_get_request, create_get_request_by_key, create_header,
    create_moka_handler, create_set_request, check_header, OPAQUE_VALUE, SET_REQUEST_FLAGS,
};
use memcrs::mock::mock_server::{MockSystemTimer, SetableTimer, Timer};
use memcrs::protocol::binary::decoder::BinaryRequest;
use memcrs::protocol::binary::encoder::BinaryResponse;
use memcrs::protocol::binary::network::{Command, ResponseHeader};

#[test]
fn set_then_get_through_request_builders() {
    for mut handler in vec![create_dash_map_handler(), create_moka_handler()] {
        let set = create_set_request(b"alpha".to_vec(), b"beta".to_vec());
        match handler.handle_request(set) {
            Some(BinaryResponse::SetValue(response)) => assert_eq!(response.header.cas, 1),
            _ => unreachable!(),
        }
        let key = b"alpha".to_vec();
        match handler.handle_request(create_get_request_by_key(&key)) {
            Some(BinaryResponse::Get(response)) => {
                assert_eq!(response.value, b"beta".to_vec());
                assert_eq!(response.flags, SET_REQUEST_FLAGS);
                assert_eq!(response.header.opaque, OPAQUE_VALUE);
            }
            _ => unreachable!(),
        }
    }
}

#[test]
fn request_builders_fill_headers() {
    let header = create_header(Command::Delete, b"xyz");
    assert_eq!(header.magic, 0x80);
    assert_eq!(header.opcode, 0x04);
    assert_eq!(header.key_length, 3);
    assert_eq!(header.opaque, OPAQUE_VALUE);
    match create_get_request(header, b"xyz".to_vec()) {
        BinaryRequest::Get(request) => {
            assert_eq!(request.key, b"xyz".to_vec());
            assert_eq!(request.header.opcode, 0x04);
        }
        _ => unreachable!(),
    }
}

#[test]
fn check_header_accepts_the_expected_header() {
    let mut header = ResponseHeader::new(Command::Get.as_u8(), OPAQUE_VALUE);
    check_header(&header, Command::Get, 0, 0, 0, 0, 0);
    header.body_length = 4;
    header.status = 1;
    check_header(&header, Command::Get, 0, 0, 0, 1, 4);
}

#[test]
fn mock_timer_sets_and_advances() {
    assert_eq!(MockSystemTimer::default().timestamp(), 0);
    let mut timer = MockSystemTimer::new();
    assert_eq!(timer.timestamp(), 0);
    timer.set(100);
    timer.add_seconds(5);
    assert_eq!(timer.timestamp(), 105);
    timer.set(u32::MAX);
    timer.add_seconds(2);
    assert_eq!(timer.timestamp(), 1);
}

#[test]
fn handler_reads_the_clock() {
    let mut handler = create_dash_map_handler();
    let mut set = create_set_request(b"k".to_vec(), b"v".to_vec());
    if let BinaryRequest::SetValue(request) = &mut set {
        request.expiration = 10;
    }
    assert!(handler.handle_request(set).is_some());
    handler.add_seconds(9);
    assert!(matches!(
        handler.handle_request(create_get_request_by_key(&b"k".to_vec())),
        Some(BinaryResponse::Get(_))
    ));
    handler.add_seconds(1);
    assert!(matches!(
        handler.handle_request(create_get_request_by_key(&b"k".to_vec())),
        Some(BinaryResponse::Error(_))
    ));
}
