use countersyncd::decoder::IpfixDecoder;
use countersyncd::ipfix::FieldSpecifier;
use countersyncd::messages::IPFixTemplatesMessage;
use countersyncd::netlink::NetlinkMessageParser;
use countersyncd::stats::{SAIStat, SAIStats, EXTENSIONS_RANGE_BASE};

fn message(sets: &[Vec<u8>]) -> Vec<u8> {
    let len: usize = 16 + sets.iter().map(|s| s.len()).sum::<usize>();
    let mut m = vec![0x00, 0x0A, (len >> 8) as u8, (len & 0xFF) as u8, 0, 0, 0, 0, 0, 0, 0, 1, 0, 0, 0, 0];
    for s in sets {
        m.extend_from_slice(s);
    }
    m
}

fn template_set(template_id: u16, fields: &[(Option<u32>, u16, u16)]) -> Vec<u8> {
    let mut body = Vec::new();
    body.extend_from_slice(&template_id.to_be_bytes());
    body.extend_from_slice(&(fields.len() as u16).to_be_bytes());
    for (en, ie, len) in fields {
        match en {
            Some(e) => {
                body.extend_from_slice(&(ie | 0x8000).to_be_bytes());
                body.extend_from_slice(&len.to_be_bytes());
                body.extend_from_slice(&e.to_be_bytes());
            }
            None => {
                body.extend_from_slice(&ie.to_be_bytes());
                body.extend_from_slice(&len.to_be_bytes());
            }
        }
    }
    let mut s = vec![0x00, 0x02];
    s.extend_from_slice(&((body.len() + 4) as u16).to_be_bytes());
    s.extend_from_slice(&body);
    s
}

fn data_set(set_id: u16, records: &[Vec<u8>]) -> Vec<u8> {
    let body: Vec<u8> = records.concat();
    let mut s = set_id.to_be_bytes().to_vec();
    s.extend_from_slice(&((body.len() + 4) as u16).to_be_bytes());
    s.extend_from_slice(&body);
    s
}

fn names() -> Option<Vec<String>> {
    Some(vec!["Ethernet0".to_string(), "Ethernet1".to_string()])
}

fn stat(name: &str, type_id: u32, stat_id: u32, counter: u64) -> SAIStat {
    SAIStat::new(name.to_string(), type_id, stat_id, counter)
}

#[test]
fn test_ipfix() {
    let template_bytes: [u8; 88] = [
        0x00, 0x0A, 0x00, 0x2C, 0x00, 0x00, 0x00, 0x00, 0x00, 0x00, 0x00, 0x01, 0x00, 0x00, 0x00, 0x00,
        0x00, 0x02, 0x00, 0x1C, 0x01, 0x00, 0x00, 0x03, 0x01, 0x45, 0x00, 0x08, 0x80, 0x01, 0x00, 0x08,
        0x00, 0x01, 0x00, 0x02, 0x80, 0x02, 0x00, 0x08, 0x80, 0x03, 0x80, 0x04,
        0x00, 0x0A, 0x00, 0x2C, 0x00, 0x00, 0x00, 0x00, 0x00, 0x00, 0x00, 0x01, 0x00, 0x00, 0x00, 0x00,
        0x00, 0x02, 0x00, 0x1C, 0x01, 0x01, 0x00, 0x03, 0x01, 0x45, 0x00, 0x08, 0x80, 0x01, 0x00, 0x08,
        0x00, 0x01, 0x00, 0x02, 0x80, 0x02, 0x00, 0x08, 0x80, 0x03, 0x80, 0x04,
    ];
    let mut d = IpfixDecoder::new();
    d.handle_template(IPFixTemplatesMessage::new(String::from("test_key"), Vec::from(template_bytes), names()));
    let invalid_len_record: [u8; 20] = [
        0x00, 0x0A, 0x00, 0x48, 0x00, 0x00, 0x00, 0x00, 0x00, 0x00, 0x00, 0x02, 0x00, 0x00, 0x00, 0x00,
        0x01, 0x00, 0x00, 0x1C,
    ];
    let unknown_record: [u8; 44] = [
        0x00, 0x0A, 0x00, 0x2C, 0x00, 0x00, 0x00, 0x00, 0x00, 0x00, 0x00, 0x02, 0x00, 0x00, 0x00, 0x00,
        0x03, 0x00, 0x00, 0x1C, 0x00, 0x00, 0x00, 0x00, 0x00, 0x00, 0x00, 0x01, 0x00, 0x00, 0x00, 0x00,
        0x00, 0x00, 0x00, 0x01, 0x00, 0x00, 0x00, 0x00, 0x00, 0x00, 0x00, 0x01,
    ];
    let valid_records_bytes: [u8; 144] = [
        0x00, 0x0A, 0x00, 0x48, 0x00, 0x00, 0x00, 0x00, 0x00, 0x00, 0x00, 0x02, 0x00, 0x00, 0x00, 0x00,
        0x01, 0x00, 0x00, 0x1C, 0x00, 0x00, 0x00, 0x00, 0x00, 0x00, 0x00, 0x01, 0x00, 0x00, 0x00, 0x00,
        0x00, 0x00, 0x00, 0x01, 0x00, 0x00, 0x00, 0x00, 0x00, 0x00, 0x00, 0x01,
        0x01, 0x00, 0x00, 0x1C, 0x00, 0x00, 0x00, 0x00, 0x00, 0x00, 0x00, 0x02, 0x00, 0x00, 0x00, 0x00,
        0x00, 0x00, 0x00, 0x02, 0x00, 0x00, 0x00, 0x00, 0x00, 0x00, 0x00, 0x03,
        0x00, 0x0A, 0x00, 0x48, 0x00, 0x00, 0x00, 0x00, 0x00, 0x00, 0x00, 0x02, 0x00, 0x00, 0x00, 0x00,
        0x01, 0x00, 0x00, 0x1C, 0x00, 0x00, 0x00, 0x00, 0x00, 0x00, 0x00, 0x01, 0x00, 0x00, 0x00, 0x00,
        0x00, 0x00, 0x00, 0x01, 0x00, 0x00, 0x00, 0x00, 0x00, 0x00, 0x00, 0x04,
        0x01, 0x01, 0x00, 0x1C, 0x00, 0x00, 0x00, 0x00, 0x00, 0x00, 0x00, 0x02, 0x00, 0x00, 0x00, 0x00,
        0x00, 0x00, 0x00, 0x02, 0x00, 0x00, 0x00, 0x00, 0x00, 0x00, 0x00, 0x07,
    ];
    let mut received = Vec::new();
    received.extend(d.handle_record(&invalid_len_record, 0));
    received.extend(d.handle_record(&unknown_record, 0));
    received.extend(d.handle_record(&valid_records_bytes, 0));
    let expected_stats = vec![
        SAIStats::new(1, vec![stat("Ethernet1", 536870915, 536870916, 1), stat("Ethernet0", 1, 2, 1)]),
        SAIStats::new(2, vec![stat("Ethernet1", 536870915, 536870916, 3), stat("Ethernet0", 1, 2, 2)]),
        SAIStats::new(1, vec![stat("Ethernet1", 536870915, 536870916, 4), stat("Ethernet0", 1, 2, 1)]),
        SAIStats::new(2, vec![stat("Ethernet1", 536870915, 536870916, 7), stat("Ethernet0", 1, 2, 2)]),
    ];
    assert_eq!(received, expected_stats);
}

#[test]
fn scenario_single_port() {
    let mut d = IpfixDecoder::new();
    let t = message(&[template_set(256, &[(Some(0x00010002), 1, 8)])]);
    d.handle_template(IPFixTemplatesMessage::new("s|PORT".to_string(), t, names()));
    let data = message(&[data_set(256, &[0x42u64.to_be_bytes().to_vec()])]);
    let out = d.handle_record(&data, 5);
    assert_eq!(out.len(), 1);
    assert_eq!(out[0].stats, vec![stat("Ethernet0", 1, 2, 66)]);
    assert_eq!(out[0].observation_time, 5);
}

#[test]
fn scenario_extension_bits() {
    let mut d = IpfixDecoder::new();
    let t = message(&[template_set(256, &[(Some(0x80018002), 2, 8)])]);
    d.handle_template(IPFixTemplatesMessage::new("s|PORT".to_string(), t, names()));
    let data = message(&[data_set(256, &[7u64.to_be_bytes().to_vec()])]);
    let out = d.handle_record(&data, 5);
    assert_eq!(out[0].stats, vec![stat("Ethernet1", 1 + 0x20000000, 2 + 0x20000000, 7)]);
}

#[test]
fn scenario_two_records_two_batches_in_order() {
    let mut d = IpfixDecoder::new();
    let t = message(&[template_set(300, &[(None, 325, 8), (Some(0x00010000), 1, 8)])]);
    d.handle_template(IPFixTemplatesMessage::new("k".to_string(), t, names()));
    let rec = |time: u64, v: u64| [time.to_be_bytes(), v.to_be_bytes()].concat();
    let data = message(&[data_set(300, &[rec(10, 1), rec(20, 2)])]);
    let out = d.handle_record(&data, 0);
    assert_eq!(out.len(), 2);
    assert_eq!(out[0], SAIStats::new(10, vec![stat("Ethernet0", 1, 0, 1)]));
    assert_eq!(out[1], SAIStats::new(20, vec![stat("Ethernet0", 1, 0, 2)]));
}

#[test]
fn records_without_time_use_the_largest_seen() {
    let mut d = IpfixDecoder::new();
    let t = message(&[
        template_set(300, &[(None, 322, 4), (None, 325, 4), (Some(0x00010000), 1, 8)]),
        template_set(301, &[(Some(0x00010000), 1, 8)]),
    ]);
    d.handle_template(IPFixTemplatesMessage::new("k".to_string(), t, names()));
    let timed = [3u32.to_be_bytes().to_vec(), 500u32.to_be_bytes().to_vec(), 9u64.to_be_bytes().to_vec()].concat();
    let untimed = 4u64.to_be_bytes().to_vec();
    let out = d.handle_record(&message(&[data_set(301, &[untimed.clone()])]), 77);
    assert_eq!(out[0].observation_time, 77);
    let out = d.handle_record(&message(&[data_set(300, &[timed]), data_set(301, &[untimed])]), 77);
    assert_eq!(out[0].observation_time, 3_000_000_500);
    assert_eq!(out[1].observation_time, 3_000_000_500);
    assert_eq!(out[1].stats, vec![stat("Ethernet0", 1, 0, 4)]);
    assert_eq!(d.last_observation_time, Some(3_000_000_500));
}

#[test]
fn one_byte_counter_reads_255() {
    let mut d = IpfixDecoder::new();
    let t = message(&[template_set(256, &[(Some(0x00010002), 1, 1)])]);
    d.handle_template(IPFixTemplatesMessage::new("s".to_string(), t, names()));
    let out = d.handle_record(&message(&[data_set(256, &[vec![0xFF]])]), 1);
    assert_eq!(out[0].stats[0].counter, 255);
}

#[test]
fn upsert_then_delete_empties_the_session() {
    let mut d = IpfixDecoder::new();
    let t = message(&[template_set(256, &[(Some(1), 1, 8)]), template_set(257, &[(Some(1), 1, 8)])]);
    d.handle_template(IPFixTemplatesMessage::new("a".to_string(), t.clone(), names()));
    d.handle_template(IPFixTemplatesMessage::new("b".to_string(), message(&[template_set(300, &[(Some(1), 1, 8)])]), None));
    assert_eq!(d.templates.len(), 3);
    d.handle_template(IPFixTemplatesMessage::delete("a".to_string()));
    assert!(d.templates.iter().all(|e| e.session_key != "a"));
    assert!(d.object_names.iter().all(|e| e.session_key != "a"));
    assert_eq!(d.templates.len(), 1);
}

#[test]
fn resending_the_same_bundle_keeps_pending() {
    let mut d = IpfixDecoder::new();
    let t = message(&[template_set(256, &[(Some(1), 1, 8)]), template_set(257, &[(Some(1), 1, 8)])]);
    d.handle_template(IPFixTemplatesMessage::new("a".to_string(), t.clone(), names()));
    let mut first: Vec<(u16, String, bool)> =
        d.templates.iter().map(|e| (e.template_id, e.session_key.clone(), e.applied)).collect();
    d.handle_template(IPFixTemplatesMessage::new("a".to_string(), t, names()));
    let mut second: Vec<(u16, String, bool)> =
        d.templates.iter().map(|e| (e.template_id, e.session_key.clone(), e.applied)).collect();
    first.sort();
    second.sort();
    assert_eq!(first, second);
    assert!(second.iter().all(|e| !e.2));
}

#[test]
fn data_set_applies_every_pending_template_of_its_session() {
    let mut d = IpfixDecoder::new();
    let t = message(&[template_set(256, &[(Some(1), 1, 8)]), template_set(257, &[(Some(1), 1, 8)])]);
    d.handle_template(IPFixTemplatesMessage::new("a".to_string(), t, names()));
    d.handle_record(&message(&[data_set(256, &[1u64.to_be_bytes().to_vec()])]), 0);
    assert!(d.templates.iter().all(|e| e.applied));
    for id in [256u16, 257] {
        let n = d.templates.iter().filter(|e| e.template_id == id).count();
        assert_eq!(n, 1);
    }
}

#[test]
fn test_sai_stat_from_ipfix_basic() {
    let field_spec = FieldSpecifier::new(Some(0x12340000), 2, 8);
    let object_names = vec!["Ethernet0".to_string(), "Ethernet1".to_string()];
    let stat = SAIStat::from_ipfix(&field_spec, &12345u64.to_be_bytes(), &object_names);
    assert_eq!(stat.object_name, "Ethernet1");
    assert_eq!(stat.type_id, 0x1234);
    assert_eq!(stat.stat_id, 0);
    assert_eq!(stat.counter, 12345);
}

#[test]
fn test_sai_stat_from_ipfix_with_extensions() {
    let enterprise_number = 0x80008000 | 0x12340567;
    let field_spec = FieldSpecifier::new(Some(enterprise_number), 1, 8);
    let object_names = vec!["Ethernet0".to_string()];
    let stat = SAIStat::from_ipfix(&field_spec, &99999u64.to_be_bytes(), &object_names);
    assert_eq!(stat.object_name, "Ethernet0");
    assert_eq!(stat.type_id, 0x1234 + EXTENSIONS_RANGE_BASE);
    assert_eq!(stat.stat_id, 0x0567 + EXTENSIONS_RANGE_BASE);
    assert_eq!(stat.counter, 99999);
}

#[test]
fn test_sai_stat_from_ipfix_short_bytes() {
    let field_spec = FieldSpecifier::new(Some(0x00010002), 1, 8);
    let object_names = vec!["Ethernet0".to_string()];
    let stat = SAIStat::from_ipfix(&field_spec, &[0x12, 0x34], &object_names);
    assert_eq!(stat.object_name, "Ethernet0");
    assert_eq!(stat.counter, 0x1234);
}

#[test]
fn test_sai_stat_from_ipfix_invalid_label() {
    let field_spec = FieldSpecifier::new(Some(0x00010002), 5, 8);
    let object_names = vec!["Ethernet0".to_string(), "Ethernet1".to_string()];
    let stat = SAIStat::from_ipfix(&field_spec, &1000u64.to_be_bytes(), &object_names);
    assert_eq!(stat.object_name, "unknown_5");
    assert_eq!(stat.type_id, 1);
    assert_eq!(stat.stat_id, 2);
    assert_eq!(stat.counter, 1000);
}

#[test]
fn test_sai_stat_from_ipfix_zero_label() {
    let field_spec = FieldSpecifier::new(Some(0x00010002), 0, 8);
    let object_names = vec!["Ethernet0".to_string()];
    let stat = SAIStat::from_ipfix(&field_spec, &1000u64.to_be_bytes(), &object_names);
    assert_eq!(stat.object_name, "unknown_0");
    assert_eq!(stat.type_id, 1);
    assert_eq!(stat.stat_id, 2);
    assert_eq!(stat.counter, 1000);
}

#[test]
fn test_extensions_range_overflow() {
    let enterprise_number = 0x80008000 | 0x7FFF7FFF;
    let field_spec = FieldSpecifier::new(Some(enterprise_number), 1, 8);
    let object_names = vec!["Ethernet0".to_string()];
    let stat = SAIStat::from_ipfix(&field_spec, &555u64.to_be_bytes(), &object_names);
    assert_eq!(stat.type_id, 0x7FFF + EXTENSIONS_RANGE_BASE);
    assert_eq!(stat.stat_id, 0x7FFF + EXTENSIONS_RANGE_BASE);
    assert_eq!(stat.object_name, "Ethernet0");
}

#[test]
fn long_value_reads_its_first_eight_bytes() {
    let field_spec = FieldSpecifier::new(None, 1, 10);
    let v = [0, 0, 0, 0, 0, 0, 1, 2, 9, 9];
    let stat = SAIStat::from_ipfix(&field_spec, &v, &[]);
    assert_eq!(stat.counter, 0x0102);
    assert_eq!(stat.type_id, 0);
    assert_eq!(stat.object_name, "unknown_1");
}

#[test]
fn scenario_two_netlink_messages_in_one_receive() {
    let mut d = IpfixDecoder::new();
    let t = message(&[template_set(256, &[(Some(0x00010002), 1, 4)])]);
    d.handle_template(IPFixTemplatesMessage::new("s".to_string(), t, names()));
    let mut wire = Vec::new();
    for v in [5u32, 6u32] {
        let payload = message(&[data_set(256, &[v.to_be_bytes().to_vec()])]);
        assert_eq!(payload.len(), 24);
        let mut nl = (44u32).to_le_bytes().to_vec();
        nl.extend_from_slice(&[0u8; 16]);
        nl.extend_from_slice(&payload);
        assert_eq!(nl.len(), 44);
        wire.extend_from_slice(&nl);
    }
    let mut parser = NetlinkMessageParser::new();
    let payloads = parser.parse_buffer(&wire).unwrap();
    assert_eq!(payloads.len(), 2);
    let first = d.handle_record(&payloads[0], 1);
    let second = d.handle_record(&payloads[1], 1);
    assert_eq!(first, vec![SAIStats::new(1, vec![stat("Ethernet0", 1, 2, 5)])]);
    assert_eq!(second, vec![SAIStats::new(1, vec![stat("Ethernet0", 1, 2, 6)])]);
}
