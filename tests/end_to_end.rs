use countersyncd::decoder::IpfixDecoder;
use countersyncd::messages::IPFixTemplatesMessage;
use countersyncd::reporter::{OutputWriter, StatsReporter, StatsReporterConfig, TestWriter};

fn create_test_ipfix_template() -> Vec<u8> {
    vec![
        0x00, 0x0A, 0x00, 0x2C, 0x00, 0x00, 0x00, 0x00, 0x00, 0x00, 0x00, 0x01, 0x00, 0x00, 0x00, 0x00,
        0x00, 0x02, 0x00, 0x1C, 0x01, 0x00, 0x00, 0x03, 0x01, 0x45, 0x00, 0x08, 0x80, 0x01, 0x00, 0x08,
        0x00, 0x01, 0x00, 0x02, 0x80, 0x02, 0x00, 0x08, 0x80, 0x03, 0x80, 0x04,
    ]
}

fn create_test_ipfix_data() -> Vec<u8> {
    vec![
        0x00, 0x0A, 0x00, 0x2C, 0x00, 0x00, 0x00, 0x00, 0x00, 0x00, 0x00, 0x02, 0x00, 0x00, 0x00, 0x00,
        0x01, 0x00, 0x00, 0x1C, 0x00, 0x00, 0x00, 0x00, 0x00, 0x00, 0x03, 0xE8, 0x00, 0x00, 0x00, 0x00,
        0x00, 0x00, 0x07, 0xD0, 0x00, 0x01, 0x00, 0x00, 0x00, 0x00, 0x00, 0x00, 0x0F, 0xA0,
    ]
}

fn report_into(reporter: &mut StatsReporter, writer: &mut TestWriter) {
    for line in reporter.generate_report() {
        writer.write_line(&line);
    }
}

#[test]
fn test_end_to_end_ipfix_processing() {
    let config = StatsReporterConfig { interval_ms: 100, detailed: true, max_stats_per_report: Some(10) };
    let mut reporter = StatsReporter::new(config);
    let mut writer = TestWriter::new();
    let mut decoder = IpfixDecoder::new();
    decoder.handle_template(IPFixTemplatesMessage::new(
        "test_session|PORT".to_string(),
        create_test_ipfix_template(),
        Some(vec!["Ethernet0".to_string(), "Ethernet1".to_string()]),
    ));
    for packet in [create_test_ipfix_data(), create_test_ipfix_data()] {
        for batch in decoder.handle_record(&packet, 500) {
            reporter.update_stats(&batch);
        }
    }
    report_into(&mut reporter, &mut writer);
    decoder.handle_template(IPFixTemplatesMessage::delete("test_session|PORT".to_string()));
    let final_messages = writer.get_output();
    assert!(final_messages.len() > 0, "Should have received some stats messages");
    assert!(final_messages.iter().any(|l| l.contains("Object: Ethernet0") && l.contains("Counter:            2000")));
    assert!(decoder.templates.is_empty());
}

#[test]
fn test_direct_ipfix_data_injection() {
    let config = StatsReporterConfig { interval_ms: 50, detailed: true, max_stats_per_report: Some(5) };
    let mut reporter = StatsReporter::new(config);
    let mut writer = TestWriter::new();
    let mut decoder = IpfixDecoder::new();
    decoder.handle_template(IPFixTemplatesMessage::new(
        "direct_test".to_string(),
        create_test_ipfix_template(),
        Some(vec!["Ethernet0".to_string(), "Ethernet1".to_string()]),
    ));
    let batches = decoder.handle_record(&create_test_ipfix_data(), 200);
    assert_eq!(batches.len(), 1);
    assert_eq!(batches[0].observation_time, 1000);
    for batch in &batches {
        reporter.update_stats(batch);
    }
    report_into(&mut reporter, &mut writer);
    let messages = writer.get_output();
    assert!(messages.len() > 0, "Should have received stats messages from direct injection");
}
