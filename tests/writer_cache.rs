use std::time::Duration;

use countersyncd::sai_types::SaiObjectType;
use countersyncd::stats::{SAIStat, SAIStats};
use countersyncd::writer::{
    convert_object_name_for_lookup, counter_text, counters_key, get_counter_name_map_table, get_stat_name,
    CounterDBConfig, CounterKey, CounterValue, CounterWriter, TickAction, WriterError,
};

#[test]
fn test_counter_key_creation() {
    let key = CounterKey::new("Ethernet0".to_string(), 1, 0);
    assert_eq!(key.object_name, "Ethernet0");
    assert_eq!(key.type_id, 1);
    assert_eq!(key.stat_id, 0);
}

#[test]
fn test_counter_value_update() {
    let mut value = CounterValue::new(100);
    assert_eq!(value.counter, 100);
    assert!(value.updated);
    assert!(value.has_changed());
    value.mark_written();
    assert!(!value.updated);
    assert!(!value.has_changed());
    assert_eq!(value.last_written_value, Some(100));
    value.update(100);
    assert_eq!(value.counter, 100);
    assert!(!value.updated);
    assert!(!value.has_changed());
    value.update(200);
    assert_eq!(value.counter, 200);
    assert!(value.updated);
    assert!(value.has_changed());
}

#[test]
fn test_config_default() {
    let config = CounterDBConfig::default();
    assert_eq!(Duration::from_millis(config.interval_ms), Duration::from_secs(10));
}

#[test]
fn test_get_counter_name_map_table() {
    assert_eq!(get_counter_name_map_table(SaiObjectType::Port), "COUNTERS_PORT_NAME_MAP".to_string());
    assert_eq!(get_counter_name_map_table(SaiObjectType::Queue), "COUNTERS_QUEUE_NAME_MAP".to_string());
    assert_eq!(get_counter_name_map_table(SaiObjectType::BufferPool), "COUNTERS_BUFFER_POOL_NAME_MAP".to_string());
    assert_eq!(
        get_counter_name_map_table(SaiObjectType::IngressPriorityGroup),
        "COUNTERS_INGRESS_PRIORITY_GROUP_NAME_MAP".to_string()
    );
}

#[test]
fn test_get_stat_name() {
    assert_eq!(get_stat_name(0, SaiObjectType::Port), Ok("SAI_PORT_STAT_IF_IN_OCTETS".to_string()));
    assert_eq!(get_stat_name(1, SaiObjectType::Port), Ok("SAI_PORT_STAT_IF_IN_UCAST_PKTS".to_string()));
    assert_eq!(get_stat_name(0, SaiObjectType::Queue), Ok("SAI_QUEUE_STAT_PACKETS".to_string()));
    assert_eq!(get_stat_name(1, SaiObjectType::Queue), Ok("SAI_QUEUE_STAT_BYTES".to_string()));
    assert_eq!(get_stat_name(0, SaiObjectType::BufferPool), Ok("SAI_BUFFER_POOL_STAT_CURR_OCCUPANCY_BYTES".to_string()));
    assert_eq!(get_stat_name(1, SaiObjectType::BufferPool), Ok("SAI_BUFFER_POOL_STAT_WATERMARK_BYTES".to_string()));
    assert_eq!(get_stat_name(0, SaiObjectType::IngressPriorityGroup), Ok("SAI_INGRESS_PRIORITY_GROUP_STAT_PACKETS".to_string()));
    assert_eq!(get_stat_name(1, SaiObjectType::IngressPriorityGroup), Ok("SAI_INGRESS_PRIORITY_GROUP_STAT_BYTES".to_string()));
    assert!(get_stat_name(0xFFFFFFFF, SaiObjectType::Port).is_err());
    assert!(get_stat_name(0xFFFFFFFF, SaiObjectType::Queue).is_err());
}

#[test]
fn test_convert_object_name_for_lookup() {
    assert_eq!(convert_object_name_for_lookup("Ethernet0"), "Ethernet0");
    assert_eq!(convert_object_name_for_lookup("Ethernet0|Queue1"), "Ethernet0:Queue1");
    assert_eq!(convert_object_name_for_lookup("Port|Lane0|Buffer1"), "Port|Lane0:Buffer1");
}

fn batch(time: u64, name: &str, type_id: u32, stat_id: u32, counter: u64) -> SAIStats {
    SAIStats::new(time, vec![SAIStat::new(name.to_string(), type_id, stat_id, counter)])
}

#[test]
fn writer_coalesces_three_batches_into_one_write() {
    let mut w = CounterWriter::new();
    w.handle_stats_message(&batch(1, "Ethernet0", 1, 0, 10));
    w.handle_stats_message(&batch(2, "Ethernet0", 1, 0, 10));
    w.handle_stats_message(&batch(3, "Ethernet0", 1, 0, 20));
    assert_eq!(w.total_messages_received, 3);
    let table = "COUNTERS_PORT_NAME_MAP".to_string();
    let name = "Ethernet0".to_string();
    w.cache_oid(&table, &name, &"oid:0x1000000000013".to_string());
    let keys = w.keys_to_update();
    assert_eq!(keys.len(), 1);
    let req = w.prepare_write(&keys[0]).unwrap();
    assert_eq!(req.table, "COUNTERS_PORT_NAME_MAP");
    assert_eq!(req.lookup_name, "Ethernet0");
    assert_eq!(req.stat_field, "SAI_PORT_STAT_IF_IN_OCTETS");
    assert_eq!(req.value, "20");
    let oid = w.cached_oid(&req.table, &req.lookup_name).unwrap();
    assert_eq!(counters_key(&oid), "COUNTERS:oid:0x1000000000013");
    let action = w.start_write(&keys[0]);
    assert_eq!(
        action,
        TickAction::Write(
            "COUNTERS:oid:0x1000000000013".to_string(),
            "SAI_PORT_STAT_IF_IN_OCTETS".to_string(),
            "20".to_string()
        )
    );
    w.on_write_result(&keys[0], true);
    assert!(w.keys_to_update().is_empty());
    assert_eq!(w.counter_cache[0].value.last_written_value, Some(20));
}

#[test]
fn writer_tick_looks_up_missing_ids_without_caching_misses() {
    let mut w = CounterWriter::new();
    w.handle_stats_message(&batch(1, "Ethernet0|Queue1", 21, 1, 5));
    let key = w.keys_to_update().remove(0);
    assert_eq!(
        w.start_write(&key),
        TickAction::Lookup("COUNTERS_QUEUE_NAME_MAP".to_string(), "Ethernet0:Queue1".to_string())
    );
    assert_eq!(w.on_lookup(&key, None), TickAction::Skip(WriterError::NameNotFound));
    assert!(w.oid_cache.is_empty());
    assert_eq!(
        w.on_lookup(&key, Some("oid:0x15".to_string())),
        TickAction::Write("COUNTERS:oid:0x15".to_string(), "SAI_QUEUE_STAT_BYTES".to_string(), "5".to_string())
    );
    assert_eq!(w.oid_cache.len(), 1);
    w.on_write_result(&key, false);
    assert_eq!(w.keys_to_update().len(), 1);
    assert!(matches!(w.start_write(&key), TickAction::Write(..)));
}

#[test]
fn writer_second_tick_without_data_writes_nothing() {
    let mut w = CounterWriter::new();
    w.handle_stats_message(&batch(1, "Ethernet0", 1, 0, 10));
    w.handle_stats_message(&batch(1, "Ethernet4", 1, 1, 11));
    let keys = w.keys_to_update();
    assert_eq!(keys.len(), 2);
    for k in &keys {
        w.mark_written(k);
    }
    assert!(w.keys_to_update().is_empty());
    assert!(w.keys_to_update().is_empty());
    w.handle_stats_message(&batch(2, "Ethernet0", 1, 0, 10));
    assert!(w.keys_to_update().is_empty());
    w.handle_stats_message(&batch(3, "Ethernet0", 1, 0, 12));
    assert_eq!(w.keys_to_update().len(), 1);
}

#[test]
fn writer_clean_entry_holds_written_value() {
    let mut w = CounterWriter::new();
    w.handle_stats_message(&batch(1, "Ethernet0", 1, 0, 42));
    let keys = w.keys_to_update();
    w.mark_written(&keys[0]);
    let e = &w.counter_cache[0];
    assert!(!e.value.updated);
    assert_eq!(e.value.last_written_value, Some(e.value.counter));
}

#[test]
fn writer_errors_for_unknown_type_stat_and_key() {
    let mut w = CounterWriter::new();
    w.handle_stats_message(&batch(1, "Ethernet0", 77, 0, 1));
    w.handle_stats_message(&batch(1, "Ethernet0", 1, 999999, 1));
    assert_eq!(
        w.prepare_write(&CounterKey::new("Ethernet0".to_string(), 77, 0)).unwrap_err(),
        WriterError::UnknownObjectType { type_id: 77 }
    );
    assert_eq!(
        w.prepare_write(&CounterKey::new("Ethernet0".to_string(), 1, 999999)).unwrap_err(),
        WriterError::UnknownStat { type_id: 1, stat_id: 999999 }
    );
    assert_eq!(
        w.prepare_write(&CounterKey::new("Ethernet9".to_string(), 1, 0)).unwrap_err(),
        WriterError::NotCached
    );
}

#[test]
fn writer_counter_text_is_decimal() {
    assert_eq!(counter_text(0), "0");
    assert_eq!(counter_text(18446744073709551615), "18446744073709551615");
}
