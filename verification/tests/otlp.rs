use nico::otlp::{
    build_export_request, build_export_request_at, convert_event, resource_attributes, severity_text_to_number,
    CollectorEvent, CollectorHealthReport, EventContext, FirmwareInfo, KeyValue, LogRecord, ReportAlert, Value,
    SEVERITY_DEBUG, SEVERITY_ERROR, SEVERITY_FATAL, SEVERITY_INFO, SEVERITY_TRACE, SEVERITY_UNSPECIFIED,
    SEVERITY_WARN,
};

fn test_context(key: &str) -> EventContext {
    EventContext {
        endpoint_key: key.to_string(),
        ip: "10.0.0.1".to_string(),
        collector_type: "test".to_string(),
        machine_id: None,
        switch_id: None,
        slot_number: None,
        tray_index: None,
        nvlink_domain_uuid: None,
        switch_slot_number: None,
        switch_tray_index: None,
    }
}

fn attr_value<'a>(attrs: &'a [KeyValue], key: &str) -> Option<&'a str> {
    attrs.iter().find(|a| a.key == key).and_then(|a| a.value.as_ref()).and_then(|v| match v.value.as_ref()? {
        Value::StringValue(s) => Some(s.as_str()),
        _ => None,
    })
}

fn attr_int_value(attrs: &[KeyValue], key: &str) -> Option<i64> {
    attrs.iter().find(|a| a.key == key).and_then(|a| a.value.as_ref()).and_then(|v| match v.value.as_ref()? {
        Value::IntValue(n) => Some(*n),
        _ => None,
    })
}

fn log(severity: &str) -> CollectorEvent {
    CollectorEvent::Log(LogRecord { body: "x".to_string(), severity: severity.to_string(), attributes: vec![] })
}

#[test]
fn severities() {
    assert_eq!(severity_text_to_number("trace"), SEVERITY_TRACE);
    assert_eq!(severity_text_to_number("Debug"), SEVERITY_DEBUG);
    for s in ["INFO", "informational", "ok"] {
        assert_eq!(severity_text_to_number(s), SEVERITY_INFO);
    }
    for s in ["warn", "WARNING"] {
        assert_eq!(severity_text_to_number(s), SEVERITY_WARN);
    }
    for s in ["error", "Err"] {
        assert_eq!(severity_text_to_number(s), SEVERITY_ERROR);
    }
    for s in ["fatal", "CRITICAL"] {
        assert_eq!(severity_text_to_number(s), SEVERITY_FATAL);
    }
    assert_eq!(severity_text_to_number("notice"), SEVERITY_UNSPECIFIED);
}

#[test]
fn resource_attributes_of_machine_metadata() {
    let mut ctx = test_context("42:9e:b1:bd:9d:dd");
    ctx.machine_id = Some("fm100htjtiaehv1n5vh67tbmqq4eabcjdng40f7jupsadbedhruh6rag1l0".to_string());
    ctx.slot_number = Some(15);
    ctx.tray_index = Some(5);
    ctx.nvlink_domain_uuid = Some("00000000-0000-0000-0000-000000000000".to_string());
    let attrs = resource_attributes(&ctx);
    assert_eq!(attr_value(&attrs, "bmc.endpoint"), Some("42:9e:b1:bd:9d:dd"));
    assert_eq!(attr_value(&attrs, "bmc.ip"), Some("10.0.0.1"));
    assert_eq!(attr_value(&attrs, "collector.type"), Some("test"));
    assert_eq!(attr_int_value(&attrs, "machine.slot_number"), Some(15));
    assert_eq!(attr_int_value(&attrs, "machine.tray_index"), Some(5));
    assert_eq!(attr_value(&attrs, "nvlink.domain.uuid"), Some("00000000-0000-0000-0000-000000000000"));
    assert_eq!(attrs.len(), 7);
}

#[test]
fn resource_attributes_of_switch_placement() {
    let mut ctx = test_context("11:22:33:44:55:66");
    ctx.switch_id = Some("switch-a".to_string());
    ctx.switch_slot_number = Some(7);
    ctx.switch_tray_index = Some(3);
    let attrs = resource_attributes(&ctx);
    assert_eq!(attr_value(&attrs, "switch.id"), Some("switch-a"));
    assert_eq!(attr_int_value(&attrs, "switch.slot_number"), Some(7));
    assert_eq!(attr_int_value(&attrs, "switch.tray_index"), Some(3));
    assert_eq!(attr_value(&attrs, "machine.id"), None);
}

#[test]
fn log_event_becomes_record() {
    let event = CollectorEvent::Log(LogRecord {
        body: "something happened".to_string(),
        severity: "WARNING".to_string(),
        attributes: vec![("entry_id".to_string(), "42".to_string())],
    });
    let request = build_export_request(&vec![(test_context("a"), event)]);
    assert_eq!(request.resource_logs.len(), 1);
    let records = &request.resource_logs[0].scope_logs[0].log_records;
    assert_eq!(records.len(), 1);
    assert_eq!(records[0].severity_text, "WARNING");
    assert_eq!(records[0].severity_number, SEVERITY_WARN);
    assert_eq!(attr_value(&records[0].attributes, "entry_id"), Some("42"));
}

#[test]
fn metric_events_give_no_records() {
    let batch = vec![
        (test_context("a"), CollectorEvent::MetricCollectionStart),
        (test_context("a"), CollectorEvent::Metric),
        (test_context("a"), CollectorEvent::MetricCollectionEnd),
        (test_context("a"), CollectorEvent::CollectorRemoved),
    ];
    assert!(build_export_request(&batch).resource_logs.is_empty());
}

#[test]
fn health_report_with_alerts_is_a_warning() {
    let report = CollectorEvent::HealthReport(CollectorHealthReport {
        source: "BmcSensors".to_string(),
        successes: vec![],
        alerts: vec![ReportAlert {
            probe_id: "Sensor".to_string(),
            target: Some("Temp1".to_string()),
            message: "critical".to_string(),
        }],
    });
    let record = convert_event(&report, 7).unwrap();
    assert_eq!(record.severity_text, "WARN");
    assert_eq!(record.severity_number, SEVERITY_WARN);
    assert_eq!(record.time_unix_nano, 7);
    assert_eq!(record.observed_time_unix_nano, 7);
    match record.body.and_then(|b| b.value) {
        Some(Value::StringValue(s)) => assert_eq!(s, "health report: 1 alerts, 0 ok (source: BmcSensors)"),
        other => panic!("unexpected body {other:?}"),
    }
    assert_eq!(attr_value(&record.attributes, "event.type"), Some("health_report"));

    let quiet = CollectorEvent::HealthReport(CollectorHealthReport {
        source: "BmcSensors".to_string(),
        successes: vec![],
        alerts: vec![],
    });
    assert_eq!(convert_event(&quiet, 7).unwrap().severity_text, "INFO");
}

#[test]
fn firmware_event_is_informational() {
    let fw = CollectorEvent::Firmware(FirmwareInfo { component: "BMC".to_string(), version: "1.2.3".to_string() });
    let record = convert_event(&fw, 1).unwrap();
    assert_eq!(record.severity_text, "INFO");
    assert_eq!(record.severity_number, SEVERITY_INFO);
    match record.body.and_then(|b| b.value) {
        Some(Value::StringValue(s)) => assert_eq!(s, "BMC: 1.2.3"),
        other => panic!("unexpected body {other:?}"),
    }
}

#[test]
fn events_grouped_by_endpoint() {
    let batch = vec![
        (test_context("endpoint-a"), log("INFO")),
        (test_context("endpoint-b"), log("INFO")),
        (test_context("endpoint-a"), log("INFO")),
    ];
    let request = build_export_request_at(&batch, 5);
    assert_eq!(request.resource_logs.len(), 2);
    let total: usize = request.resource_logs.iter().flat_map(|rl| &rl.scope_logs).map(|sl| sl.log_records.len()).sum();
    assert_eq!(total, 3);
    let first = request.resource_logs[0].resource.as_ref().unwrap();
    assert_eq!(attr_value(&first.attributes, "bmc.endpoint"), Some("endpoint-a"));
    assert_eq!(request.resource_logs[0].scope_logs[0].log_records.len(), 2);
}
