use countersyncd::ingress::{IngressAction, IngressState, LivenessState, RecvOutcome};
use countersyncd::netlink::{parse_control_message, parse_family_name_from_attrs, NetlinkError, NetlinkMessageParser};

fn create_mock_netlink_message(payload: &[u8]) -> [u8; 100] {
    let mut msg = [0u8; 100];
    let total_len = 20 + payload.len();
    msg[0] = (total_len & 0xFF) as u8;
    msg[1] = ((total_len >> 8) & 0xFF) as u8;
    msg[2] = ((total_len >> 16) & 0xFF) as u8;
    msg[3] = ((total_len >> 24) & 0xFF) as u8;
    msg[4] = 0x10;
    msg[8] = 0x01;
    msg[16] = 0x01;
    let mut i = 0;
    while i < payload.len() && i < 80 {
        msg[20 + i] = payload[i];
        i += 1;
    }
    msg
}

#[test]
fn test_payload_extraction() {
    let mock_msg = create_mock_netlink_message(b"TEST_PAYLOAD");
    let actual_len = 20 + b"TEST_PAYLOAD".len();
    let mut parser = NetlinkMessageParser::new();
    let result = parser.parse_buffer(&mock_msg[..actual_len]);
    assert!(result.is_ok());
    let messages = result.unwrap();
    assert_eq!(messages.len(), 1);
    let payload_str = String::from_utf8(messages[0].to_vec()).unwrap();
    assert_eq!(payload_str, "TEST_PAYLOAD");
}

#[test]
fn test_payload_extraction_empty_payload() {
    let mock_msg = create_mock_netlink_message(b"");
    let actual_len = 20;
    let mut parser = NetlinkMessageParser::new();
    let result = parser.parse_buffer(&mock_msg[..actual_len]);
    assert!(result.is_ok());
    let messages = result.unwrap();
    assert_eq!(messages.len(), 1);
    assert!(messages[0].is_empty());
}

#[test]
fn test_payload_extraction_invalid_message() {
    let buffer = vec![0u8; 10];
    let mut parser = NetlinkMessageParser::new();
    let result = parser.parse_buffer(&buffer);
    assert!(result.is_ok());
    let messages = result.unwrap();
    assert!(messages.is_empty());
}

#[test]
fn test_multiple_messages_in_buffer() {
    let mut combined_buffer = Vec::new();
    let msg1 = create_mock_netlink_message(b"MESSAGE1");
    let msg1_len = 20 + b"MESSAGE1".len();
    let msg2 = create_mock_netlink_message(b"MESSAGE2");
    let msg2_len = 20 + b"MESSAGE2".len();
    combined_buffer.extend_from_slice(&msg1[..msg1_len]);
    combined_buffer.extend_from_slice(&msg2[..msg2_len]);
    let mut parser = NetlinkMessageParser::new();
    let result = parser.parse_buffer(&combined_buffer);
    assert!(result.is_ok());
    let messages = result.unwrap();
    assert_eq!(messages.len(), 2);
    assert_eq!(String::from_utf8(messages[0].to_vec()).unwrap(), "MESSAGE1");
    assert_eq!(String::from_utf8(messages[1].to_vec()).unwrap(), "MESSAGE2");
}

#[test]
fn test_fragmented_message() {
    let msg = create_mock_netlink_message(b"FRAGMENTED_MESSAGE");
    let msg_len = 20 + b"FRAGMENTED_MESSAGE".len();
    let mut parser = NetlinkMessageParser::new();
    let first_part = &msg[..15];
    let result1 = parser.parse_buffer(first_part);
    assert!(result1.is_ok());
    let messages1 = result1.unwrap();
    assert!(messages1.is_empty());
    let second_part = &msg[15..msg_len];
    let result2 = parser.parse_buffer(second_part);
    assert!(result2.is_ok());
    let messages2 = result2.unwrap();
    assert_eq!(messages2.len(), 1);
    assert_eq!(String::from_utf8(messages2[0].to_vec()).unwrap(), "FRAGMENTED_MESSAGE");
}

#[test]
fn test_mixed_complete_and_partial() {
    let mut combined_buffer = Vec::new();
    let msg1 = create_mock_netlink_message(b"COMPLETE");
    let msg1_len = 20 + b"COMPLETE".len();
    combined_buffer.extend_from_slice(&msg1[..msg1_len]);
    let msg2 = create_mock_netlink_message(b"PARTIAL_MSG");
    let msg2_len = 20 + b"PARTIAL_MSG".len();
    combined_buffer.extend_from_slice(&msg2[..25]);
    let mut parser = NetlinkMessageParser::new();
    let result1 = parser.parse_buffer(&combined_buffer);
    assert!(result1.is_ok());
    let messages1 = result1.unwrap();
    assert_eq!(messages1.len(), 1);
    assert_eq!(String::from_utf8(messages1[0].to_vec()).unwrap(), "COMPLETE");
    let remaining_part = &msg2[25..msg2_len];
    let result2 = parser.parse_buffer(remaining_part);
    assert!(result2.is_ok());
    let messages2 = result2.unwrap();
    assert_eq!(messages2.len(), 1);
    assert_eq!(String::from_utf8(messages2[0].to_vec()).unwrap(), "PARTIAL_MSG");
}

#[test]
fn netlink_two_messages_of_44_bytes_in_one_receive() {
    let a = create_mock_netlink_message(&[1u8; 24]);
    let b = create_mock_netlink_message(&[2u8; 24]);
    let mut buf = Vec::new();
    buf.extend_from_slice(&a[..44]);
    buf.extend_from_slice(&b[..44]);
    let mut parser = NetlinkMessageParser::new();
    let out = parser.parse_buffer(&buf).unwrap();
    assert_eq!(out, vec![vec![1u8; 24], vec![2u8; 24]]);
    assert!(parser.incomplete_buffer.is_empty());
}

#[test]
fn netlink_header_split_ten_then_thirty_four() {
    let a = create_mock_netlink_message(&[7u8; 24]);
    let mut parser = NetlinkMessageParser::new();
    assert!(parser.parse_buffer(&a[..10]).unwrap().is_empty());
    assert_eq!(parser.incomplete_buffer.len(), 10);
    let out = parser.parse_buffer(&a[10..44]).unwrap();
    assert_eq!(out, vec![vec![7u8; 24]]);
}

#[test]
fn netlink_corrupt_length_reports_and_drops() {
    let good = create_mock_netlink_message(b"OK");
    let mut buf = Vec::new();
    buf.extend_from_slice(&good[..22]);
    buf.extend_from_slice(&[8, 0, 0, 0, 0, 0, 0, 0, 0, 0, 0, 0, 0, 0, 0, 0, 9, 9]);
    let mut parser = NetlinkMessageParser::new();
    match parser.parse_buffer(&buf) {
        Err(NetlinkError::InvalidLength { length, payloads }) => {
            assert_eq!(length, 8);
            assert_eq!(payloads, vec![b"OK".to_vec()]);
        }
        other => panic!("unexpected {:?}", other),
    }
    assert!(parser.incomplete_buffer.is_empty());
    let next = create_mock_netlink_message(b"AFTER");
    assert_eq!(parser.parse_buffer(&next[..25]).unwrap(), vec![b"AFTER".to_vec()]);
}

#[test]
fn netlink_too_large_length_is_corrupt() {
    let mut buf = vec![0u8; 16];
    buf[0..4].copy_from_slice(&(1_048_577u32).to_le_bytes());
    let mut parser = NetlinkMessageParser::new();
    assert!(matches!(parser.parse_buffer(&buf), Err(NetlinkError::InvalidLength { length: 1_048_577, .. })));
}

#[test]
fn netlink_message_shorter_than_generic_header_is_skipped() {
    let mut buf = vec![0u8; 18];
    buf[0] = 18;
    let tail = create_mock_netlink_message(b"X");
    buf.extend_from_slice(&tail[..21]);
    let mut parser = NetlinkMessageParser::new();
    assert_eq!(parser.parse_buffer(&buf).unwrap(), vec![b"X".to_vec()]);
}

#[test]
fn netlink_extract_payload_errors() {
    assert_eq!(
        NetlinkMessageParser::extract_payload_from_slice(&[0u8; 10]),
        Err(NetlinkError::MessageTooSmall { size: 10 })
    );
    let msg = create_mock_netlink_message(b"ABC");
    assert_eq!(
        NetlinkMessageParser::extract_payload_from_slice(&msg[..24]),
        Err(NetlinkError::LengthMismatch { declared: 23, actual: 24 })
    );
    assert_eq!(NetlinkMessageParser::extract_payload_from_slice(&msg[..23]), Ok(b"ABC".to_vec()));
}

#[test]
fn test_control_message_parsing() {
    let mut buffer = vec![0u8; 100];
    buffer[0..4].copy_from_slice(&(50u32).to_le_bytes());
    buffer[4..6].copy_from_slice(&(16u16).to_le_bytes());
    buffer[16] = 1;
    let family_name = b"test_family\0";
    let attr_len = 4 + family_name.len();
    buffer[20..22].copy_from_slice(&(attr_len as u16).to_le_bytes());
    buffer[22..24].copy_from_slice(&(2u16).to_le_bytes());
    buffer[24..24 + family_name.len()].copy_from_slice(family_name);
    assert!(parse_control_message(&buffer, "test_family"));
    assert!(!parse_control_message(&buffer, "other_family"));
}

#[test]
fn test_family_name_parsing() {
    let mut attrs_buffer = vec![0u8; 50];
    let family_name = b"sonic_stel\0";
    let attr_len = 4 + family_name.len();
    attrs_buffer[0..2].copy_from_slice(&(attr_len as u16).to_le_bytes());
    attrs_buffer[2..4].copy_from_slice(&(2u16).to_le_bytes());
    attrs_buffer[4..4 + family_name.len()].copy_from_slice(family_name);
    assert!(parse_family_name_from_attrs(&attrs_buffer, "sonic_stel"));
    assert!(!parse_family_name_from_attrs(&attrs_buffer, "other_family"));
}

#[test]
fn control_message_second_attribute_and_wrong_command() {
    let mut buffer = vec![0u8; 20];
    buffer[4..6].copy_from_slice(&(16u16).to_le_bytes());
    buffer[16] = 2;
    buffer.extend_from_slice(&[6, 0, 1, 0, 0x10, 0x00, 0, 0]);
    buffer.extend_from_slice(&[9, 0, 2, 0, b'a', b'b', b'c', b'd', 0, 0, 0, 0]);
    assert!(parse_control_message(&buffer, "abcd"));
    assert!(!parse_control_message(&buffer, "abc"));
    buffer[16] = 3;
    assert!(!parse_control_message(&buffer, "abcd"));
}

#[test]
fn silent_socket_is_replaced_by_the_health_check() {
    let mut s = IngressState::new();
    assert_eq!(s.on_tick(0), IngressAction::Continue);
    s.on_connect_result(true, 1_000);
    assert_eq!(s.on_tick(11_000), IngressAction::Continue);
    assert_eq!(s.on_recv(RecvOutcome::Data, 5_000), IngressAction::Continue);
    assert_eq!(s.on_recv(RecvOutcome::WouldBlock, 12_000), IngressAction::Continue);
    assert_eq!(s.on_tick(15_000), IngressAction::Continue);
    assert_eq!(s.on_tick(15_001), IngressAction::Reconnect);
    assert_eq!(s.last_data_ms, None);
    s.on_connect_result(true, 15_002);
    assert_eq!(s.on_tick(20_000), IngressAction::Continue);
}

#[test]
fn liveness_reconnects_on_messages_and_reappearance() {
    let mut l = LivenessState::new(true);
    assert!(!l.on_event(false, Some(true)));
    assert!(!l.on_event(false, Some(false)));
    assert!(!l.family_present);
    assert!(l.on_event(false, Some(true)));
    assert!(l.on_event(true, None));
    assert!(l.family_present);
}
