use countersyncd::session::{ReadAction, ReadFailures, MAX_CONSECUTIVE_READ_ERRORS};
use countersyncd::messages::IPFixTemplatesMessage;
use countersyncd::session::{extract_session_key, split_names, validate_and_process_session, SessionData, SessionError};
use countersyncd::stats::{SAIStat, SAIStats, SAIStatsMessageExt};

fn s(name: &str, t: u32, st: u32, c: u64) -> SAIStat {
    SAIStat { object_name: name.to_string(), type_id: t, stat_id: st, counter: c }
}

#[test]
fn test_sai_stats_creation() {
    let stats = vec![s("Ethernet0", 100, 200, 1000), s("Ethernet1", 101, 201, 2000)];
    let sai_stats = SAIStats::new(12345, stats.clone());
    assert_eq!(sai_stats.observation_time, 12345);
    assert_eq!(sai_stats.len(), 2);
    assert!(!sai_stats.is_empty());
    assert_eq!(sai_stats.stats, stats);
}

#[test]
fn test_sai_stats_equality() {
    let stats1 = vec![s("Ethernet0", 100, 200, 1000), s("Ethernet1", 101, 201, 2000)];
    let stats2 = vec![s("Ethernet1", 101, 201, 2000), s("Ethernet0", 100, 200, 1000)];
    let sai_stats1 = SAIStats::new(12345, stats1);
    let sai_stats2 = SAIStats::new(12345, stats2.clone());
    let sai_stats3 = SAIStats::new(12346, stats2);
    assert_eq!(sai_stats1, sai_stats2);
    assert_ne!(sai_stats1, sai_stats3);
}

#[test]
fn test_sai_stats_message_creation() {
    let stats = vec![s("Ethernet0", 100, 200, 1000)];
    let message1 = SAIStats::new(12345, stats.clone()).into_message();
    let message2 = SAIStats::from_parts(12345, stats);
    assert_eq!(message1.observation_time, message2.observation_time);
    assert_eq!(message1.stats, message2.stats);
}

#[test]
fn batch_iteration_keeps_order() {
    let b = SAIStats::new(1, vec![s("a", 1, 1, 1), s("b", 1, 2, 2)]);
    let names: Vec<&str> = b.iter().iter().map(|x| x.object_name.as_str()).collect();
    assert_eq!(names, vec!["a", "b"]);
}

#[test]
fn test_session_data_default() {
    let session_data = SessionData::default();
    assert_eq!(session_data.stream_status, "");
    assert_eq!(session_data.session_type, "");
    assert_eq!(session_data.object_names, "");
    assert_eq!(session_data.object_ids, "");
    assert!(session_data.session_config.is_empty());
}

#[test]
fn test_ipfix_templates_message_new() {
    let templates = vec![1, 2, 3, 4];
    let object_names = Some(vec!["Ethernet0".to_string(), "Ethernet1".to_string()]);
    let message = IPFixTemplatesMessage::new("test_key".to_string(), templates.clone(), object_names.clone());
    assert_eq!(message.key, "test_key");
    assert_eq!(message.templates, Some(templates));
    assert_eq!(message.object_names, object_names);
    assert!(!message.is_delete);
}

#[test]
fn test_ipfix_templates_message_delete() {
    let message = IPFixTemplatesMessage::delete("test_key".to_string());
    assert_eq!(message.key, "test_key");
    assert!(message.templates.is_none());
    assert!(message.object_names.is_none());
    assert!(message.is_delete);
}

fn session(status: &str, kind: &str, names: &str, config: &[u8]) -> SessionData {
    let mut d = SessionData::default();
    d.apply_field("stream_status", status.to_string(), status.as_bytes().to_vec());
    d.apply_field("session_type", kind.to_string(), kind.as_bytes().to_vec());
    d.apply_field("object_names", names.to_string(), names.as_bytes().to_vec());
    d.apply_field("object_ids", "1,2,3".to_string(), b"1,2,3".to_vec());
    d.apply_field("session_config", String::new(), config.to_vec());
    d.apply_field("unknown", "x".to_string(), b"x".to_vec());
    d
}

#[test]
fn test_session_update_with_object_names() {
    let d = session("enabled", "ipfix", "Ethernet0,Ethernet1,Ethernet2", b"ipfix_template_data");
    let m = validate_and_process_session("test_session|PORT", &d).unwrap().unwrap();
    assert_eq!(m.key, "test_session|PORT");
    assert_eq!(m.templates, Some(b"ipfix_template_data".to_vec()));
    assert_eq!(
        m.object_names,
        Some(vec!["Ethernet0".to_string(), "Ethernet1".to_string(), "Ethernet2".to_string()])
    );
    assert_eq!(d.object_ids, "1,2,3");
}

#[test]
fn test_session_update_without_object_names() {
    let mut d = SessionData::default();
    d.apply_field("stream_status", "enabled".to_string(), b"enabled".to_vec());
    d.apply_field("session_type", "ipfix".to_string(), b"ipfix".to_vec());
    d.apply_field("object_ids", "1,2,3".to_string(), b"1,2,3".to_vec());
    d.apply_field("session_config", String::new(), b"ipfix_template_data".to_vec());
    let m = validate_and_process_session("test_session|PORT", &d).unwrap().unwrap();
    assert_eq!(m.key, "test_session|PORT");
    assert!(m.object_names.is_none());
}

#[test]
fn test_empty_object_names_handling() {
    let d = session("enabled", "ipfix", "", b"ipfix_template_data");
    let m = validate_and_process_session("empty_names_session|PORT", &d).unwrap().unwrap();
    assert_eq!(m.key, "empty_names_session|PORT");
    assert!(m.object_names.is_none());
    let d = session("enabled", "ipfix", " , ,", b"t");
    assert!(validate_and_process_session("k", &d).unwrap().unwrap().object_names.is_none());
}

#[test]
fn test_disabled_session_not_processed() {
    let d = session("disabled", "ipfix", "Ethernet0", b"test_config");
    assert!(validate_and_process_session("disabled_session|PORT", &d).unwrap().is_none());
}

#[test]
fn test_non_ipfix_session_not_processed() {
    let d = session("enabled", "netflow", "Ethernet0", b"test_config");
    assert!(validate_and_process_session("non_ipfix_session|PORT", &d).unwrap().is_none());
}

#[test]
fn test_session_deletion() {
    let key = extract_session_key("HIGH_FREQUENCY_TELEMETRY_SESSION_TABLE|test_session|PORT");
    let m = IPFixTemplatesMessage::delete(key);
    assert_eq!(m.key, "test_session|PORT");
    assert!(m.is_delete);
    assert!(m.templates.is_none());
    assert!(m.object_names.is_none());
}

#[test]
fn session_with_empty_config_is_an_error() {
    assert_eq!(
        validate_and_process_session("k", &session("enabled", "ipfix", "Ethernet0", b"")).unwrap_err(),
        SessionError::EmptyConfig
    );
}

#[test]
fn object_names_are_split_trimmed_and_filtered() {
    assert_eq!(split_names(" Ethernet3 ,\tEthernet4,, "), vec!["Ethernet3".to_string(), "Ethernet4".to_string()]);
    assert!(split_names("").is_empty());
}

#[test]
fn session_key_strips_the_table_name() {
    assert_eq!(extract_session_key("HIGH_FREQUENCY_TELEMETRY_SESSION_TABLE|test|PORT"), "test|PORT");
    assert_eq!(extract_session_key("test_session|PORT"), "test_session|PORT");
    assert_eq!(extract_session_key("plain"), "plain");
}

#[test]
fn session_table_read_failures_become_permanent() {
    let mut f = ReadFailures::new();
    assert_eq!(f.on_read(false), ReadAction::BackOff);
    assert_eq!(f.on_read(true), ReadAction::Continue);
    for _ in 1..MAX_CONSECUTIVE_READ_ERRORS {
        assert_eq!(f.on_read(false), ReadAction::BackOff);
    }
    assert_eq!(f.on_read(false), ReadAction::Stop);
}
