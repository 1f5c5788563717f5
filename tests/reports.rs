use countersyncd::config::{constants_nesting_fits, genl_family_group_from_text, get_genl_family_group};
use countersyncd::reporter::{
    format_timestamp, remove_sai_prefix, stat_id_to_string, type_id_to_string, CounterInfo, CounterKey, OutputWriter,
    StatsReporter, StatsReporterConfig, TestWriter,
};
use countersyncd::stats::{SAIStat, SAIStats};

fn s(name: &str, t: u32, st: u32, c: u64) -> SAIStat {
    SAIStat::new(name.to_string(), t, st, c)
}

#[test]
fn timestamp_formats_in_utc() {
    assert_eq!(format_timestamp(1_700_000_000_123_456_789), "2023-11-14 22:13:20.123456789 UTC");
    assert_eq!(format_timestamp(0), "1970-01-01 00:00:00.000000000 UTC");
}

#[test]
fn stat_names_drop_the_sai_prefix() {
    assert_eq!(remove_sai_prefix("SAI_PORT_STAT_IF_IN_OCTETS"), "IF_IN_OCTETS");
    assert_eq!(remove_sai_prefix("IF_IN_OCTETS"), "IF_IN_OCTETS");
    assert_eq!(stat_id_to_string(1, 1), "IF_IN_UCAST_PKTS");
    assert_eq!(stat_id_to_string(1, 999999), "UNKNOWN_PORT_STAT_999999");
    assert_eq!(stat_id_to_string(26, 0), "PACKETS");
    assert_eq!(stat_id_to_string(5, 7), "INVALID_TYPE_5_STAT_7");
    assert_eq!(type_id_to_string(21), "Queue");
    assert_eq!(type_id_to_string(5), "UNKNOWN(5)");
}

#[test]
fn report_without_data() {
    let mut r = StatsReporter::new(StatsReporterConfig::default());
    let lines = r.generate_report();
    assert_eq!(
        lines,
        vec![
            "[Report #1] No statistics data available yet".to_string(),
            "   Total Messages Received: 0".to_string(),
            String::new(),
        ]
    );
}

#[test]
fn detailed_report_sorts_and_formats() {
    let config = StatsReporterConfig { interval_ms: 10000, detailed: true, max_stats_per_report: None };
    let mut r = StatsReporter::new(config);
    r.update_stats(&SAIStats::new(1_700_000_000_123_456_789, vec![s("Ethernet16", 1, 1, 1664), s("Ethernet0", 1, 0, 832)]));
    let lines = r.generate_report();
    assert_eq!(lines[0], "[Report #1] SAI Counters Report");
    assert_eq!(lines[1], "   Total Unique Counters: 2");
    assert_eq!(lines[2], "   Total Messages Received: 1");
    assert_eq!(lines[3], "   Detailed Counters:");
    assert_eq!(lines[4], "      Type: Port (1)");
    assert_eq!(
        lines[5],
        "         [  1] Object: Ethernet0      , Stat: IF_IN_OCTETS             , Counter:             832, Msg/s:    0.1, LastTime: 2023-11-14 22:13:20.123456789 UTC"
    );
    assert!(lines[6].starts_with("         [  2] Object: Ethernet16     , Stat: IF_IN_UCAST_PKTS"));
    assert_eq!(lines[7], "");
    assert_eq!(lines.len(), 8);
    assert_eq!(r.entries.iter().map(|e| e.arrivals).sum::<u64>(), 0);
}

#[test]
fn detailed_report_honours_the_cap() {
    let config = StatsReporterConfig { interval_ms: 1000, detailed: true, max_stats_per_report: Some(2) };
    let mut r = StatsReporter::new(config);
    r.update_stats(&SAIStats::new(
        5,
        vec![s("E0", 1, 0, 1), s("E1", 1, 0, 2), s("E2", 1, 0, 3), s("E3", 21, 0, 4), s("E4", 24, 0, 5)],
    ));
    let lines = r.generate_report();
    let entries = lines.iter().filter(|l| l.contains("] Object:")).count();
    assert_eq!(entries, 2);
    assert!(lines.iter().any(|l| l == "         ... and 3 more counters (use max_stats_per_report: None to show all)"));
    assert!(lines.iter().any(|l| l == "   Total Unique Counters: 5"));
}

#[test]
fn summary_report_totals() {
    let config = StatsReporterConfig { interval_ms: 100, detailed: false, max_stats_per_report: None };
    let mut r = StatsReporter::new(config);
    r.update_stats(&SAIStats::new(99999, vec![s("E0", 1, 0, 1000), s("E1", 21, 0, 1000), s("E2", 24, 0, 1000)]));
    let lines = r.generate_report();
    assert!(lines.contains(&"   Summary:".to_string()));
    assert!(lines.contains(&"      Total Counter Value: 3000".to_string()));
    assert!(lines.contains(&"      Unique Types: 3".to_string()));
    assert!(lines.contains(&"      Unique Objects: 3".to_string()));
    assert!(lines.contains(&"      Messages per Second: 30.0".to_string()));
    assert!(!lines.iter().any(|l| l.contains("Detailed Counters:")));
    let again = r.generate_report();
    assert!(again.contains(&"      Messages per Second: 0.0".to_string()));
    assert!(again[0].starts_with("[Report #2]"));
}

#[test]
fn latest_value_replaces_the_snapshot() {
    let mut r = StatsReporter::new(StatsReporterConfig::default());
    r.update_stats(&SAIStats::new(1, vec![s("E0", 1, 0, 5)]));
    r.update_stats(&SAIStats::new(2, vec![s("E0", 1, 0, 6)]));
    assert_eq!(r.entries.len(), 1);
    assert_eq!(r.entries[0].info, CounterInfo { counter: 6, last_observation_time: 2 });
    assert_eq!(r.entries[0].arrivals, 2);
    assert_eq!(r.total_messages_received, 2);
    let k = CounterKey::new("E0".to_string(), 1, 0);
    assert_eq!(r.entries[0].key.object_name, k.object_name);
}

#[test]
fn test_writer_keeps_lines() {
    let mut w = TestWriter::new();
    w.write_line("a");
    w.write_line("b");
    assert_eq!(w.get_output(), &["a".to_string(), "b".to_string()]);
}

#[test]
fn genl_family_group_defaults_and_config() {
    assert_eq!(get_genl_family_group(None), ("sonic_stel".to_string(), "ipfix".to_string()));
    let text = "constants:\n  high_frequency_telemetry:\n    genl_family: fam\n    genl_multicast_group: grp\n";
    assert_eq!(get_genl_family_group(Some(text)), ("fam".to_string(), "grp".to_string()));
    assert_eq!(get_genl_family_group(Some("other: 1\n")), ("sonic_stel".to_string(), "ipfix".to_string()));
    assert_eq!(get_genl_family_group(Some(": : [")), ("sonic_stel".to_string(), "ipfix".to_string()));
    let partial = "constants:\n  high_frequency_telemetry:\n    genl_family: fam\n";
    assert_eq!(get_genl_family_group(Some(partial)), ("fam".to_string(), "ipfix".to_string()));
}

#[test]
fn deepest_nesting_within_the_bound_parses() {
    let line = "- ".repeat(512);
    assert!(constants_nesting_fits(&line));
    assert_eq!(get_genl_family_group(Some(&line)), ("sonic_stel".to_string(), "ipfix".to_string()));
    let flow = format!("{}{}", "[".repeat(255), "]".repeat(255));
    assert!(constants_nesting_fits(&flow));
    assert_eq!(get_genl_family_group(Some(&flow)), ("sonic_stel".to_string(), "ipfix".to_string()));
    let stair: String = (0..511).map(|i| format!("{}k:\n", " ".repeat(i))).collect();
    assert!(constants_nesting_fits(&stair));
    assert_eq!(get_genl_family_group(Some(&stair)), ("sonic_stel".to_string(), "ipfix".to_string()));
    let deep = "- ".repeat(513);
    assert!(!constants_nesting_fits(&deep));
    assert_eq!(genl_family_group_from_text(Some(&deep)), ("sonic_stel".to_string(), "ipfix".to_string()));
}

#[test]
fn long_plain_lines_are_read() {
    let text = format!(
        "# {}\nconstants:\n  high_frequency_telemetry:\n    genl_family: fam\n    genl_multicast_group: grp\n",
        "a long comment ".repeat(200)
    );
    assert!(constants_nesting_fits(&text));
    assert_eq!(genl_family_group_from_text(Some(&text)), ("fam".to_string(), "grp".to_string()));
}

fn create_test_stats(observation_time: u64, stat_count: usize) -> SAIStats {
    let stats = (0..stat_count)
        .map(|i| SAIStat {
            object_name: format!("Ethernet{}", i),
            type_id: (i * 100) as u32,
            stat_id: (i * 10) as u32,
            counter: (i * 1000) as u64,
        })
        .collect();
    SAIStats { observation_time, stats }
}

fn write_report(r: &mut StatsReporter, w: &mut TestWriter) {
    for line in r.generate_report() {
        w.write_line(&line);
    }
}

#[test]
fn test_stats_reporter_basic_functionality() {
    let config = StatsReporterConfig { interval_ms: 200, detailed: true, max_stats_per_report: Some(3) };
    let mut r = StatsReporter::new(config);
    let mut w = TestWriter::new();
    r.update_stats(&create_test_stats(12345, 5));
    write_report(&mut r, &mut w);
    r.update_stats(&create_test_stats(67890, 2));
    write_report(&mut r, &mut w);
    assert!(!w.get_output().is_empty());
}

#[test]
fn test_stats_reporter_with_shared_writer() {
    let config = StatsReporterConfig { interval_ms: 200, detailed: true, max_stats_per_report: Some(3) };
    let mut r = StatsReporter::new(config);
    let mut w = TestWriter::new();
    r.update_stats(&create_test_stats(12345, 5));
    write_report(&mut r, &mut w);
    r.update_stats(&create_test_stats(67890, 2));
    write_report(&mut r, &mut w);
    let output = w.get_output();
    assert!(!output.is_empty(), "Should have captured some output");
    assert!(output.iter().any(|line| line.contains("SAI Counters Report")));
    assert!(output.iter().any(|line| line.contains("Total Unique Counters: 5")));
    assert!(output.iter().any(|line| line.contains("Detailed Counters:")));
    assert!(output.iter().any(|line| line.contains("Object:") && line.contains("Stat:") && line.contains("Msg/s:")));
}

#[test]
fn test_stats_reporter_summary_mode() {
    let config = StatsReporterConfig { interval_ms: 100, detailed: false, max_stats_per_report: None };
    let mut r = StatsReporter::new(config);
    let mut w = TestWriter::new();
    r.update_stats(&create_test_stats(99999, 3));
    write_report(&mut r, &mut w);
    let output = w.get_output();
    assert!(!output.is_empty(), "Should have captured some output");
    assert!(output.iter().any(|line| line.contains("Summary:")));
    assert!(output.iter().any(|line| line.contains("Total Counter Value: 3000")));
    assert!(output.iter().any(|line| line.contains("Unique Types: 3")));
    assert!(output.iter().any(|line| line.contains("Unique Objects: 3")));
    assert!(!output.iter().any(|line| line.contains("Detailed Counters:")));
    assert!(output.iter().any(|line| line.contains("Messages per Second:")));
}

#[test]
fn test_stats_reporter_no_data() {
    let config = StatsReporterConfig { interval_ms: 50, detailed: true, max_stats_per_report: None };
    let mut r = StatsReporter::new(config);
    let mut w = TestWriter::new();
    write_report(&mut r, &mut w);
    let output = w.get_output();
    assert!(!output.is_empty(), "Should have captured some output");
    assert!(output.iter().any(|line| line.contains("No statistics data available yet")));
    assert!(output.iter().any(|line| line.contains("Total Messages Received: 0")));
}

#[test]
fn test_stats_reporter_max_stats_limit() {
    let config = StatsReporterConfig { interval_ms: 500, detailed: true, max_stats_per_report: Some(2) };
    let mut r = StatsReporter::new(config);
    let mut w = TestWriter::new();
    r.update_stats(&create_test_stats(55555, 5));
    write_report(&mut r, &mut w);
    let output = w.get_output();
    let mut in_details = false;
    let mut counter_entries = Vec::new();
    for line in output {
        if line.contains("Detailed Counters:") {
            in_details = true;
        } else if in_details && line.contains("] Object:") && line.contains("Stat:") {
            counter_entries.push(line.clone());
        } else if in_details && line.contains("[Report") {
            break;
        }
    }
    assert_eq!(counter_entries.len(), 2, "Should show exactly 2 counter entries due to limit");
    assert!(output.iter().any(|line| line.contains("and 3 more counters")));
    assert!(output.iter().any(|line| line.contains("Total Unique Counters: 5")));
}

#[test]
fn test_stats_reporter_sai_stat_names() {
    let config = StatsReporterConfig { interval_ms: 100, detailed: true, max_stats_per_report: None };
    let mut r = StatsReporter::new(config);
    let mut w = TestWriter::new();
    r.update_stats(&SAIStats {
        observation_time: 12345,
        stats: vec![s("Ethernet0", 1, 0, 832), s("Ethernet16", 1, 1, 1664)],
    });
    write_report(&mut r, &mut w);
    let output = w.get_output();
    assert!(output.iter().any(|line| line.contains("IF_IN_OCTETS")));
    assert!(output.iter().any(|line| line.contains("IF_IN_UCAST_PKTS")));
    assert!(!output
        .iter()
        .any(|line| line.contains("SAI_PORT_STAT_IF_IN_OCTETS") || line.contains("SAI_PORT_STAT_IF_IN_UCAST_PKTS")));
    assert!(!output.iter().any(|line| line.contains("STAT_0") || line.contains("STAT_1")));
}
