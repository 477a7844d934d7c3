use key_store::error::ProxyError;
use key_store::ha_apply::{HaBaselineLine, HaEventsLine};
use key_store::ha_counters::HaJsonScalar;
use key_store::ha_json::HaJsonValue;
use key_store::ha_lines::{
    ha_billing_ledger_row_with_local_id, ha_export_row, ha_payload_scalars, ha_resource_payload, read_ha_baseline_line, read_ha_events_line, HaPayload,
};

#[test]
fn baseline_lines_are_read() {
    match read_ha_baseline_line(r#"{"kind":"baseline_start","highWatermark":5}"#) {
        Ok((HaBaselineLine::Start { high_watermark }, None)) => assert_eq!(high_watermark, Some(5)),
        _ => panic!("expected a start line"),
    }
    match read_ha_baseline_line(r#"{"kind":"baseline_end","highWatermark":1.5}"#) {
        Ok((HaBaselineLine::End { high_watermark }, None)) => assert_eq!(high_watermark, None),
        _ => panic!("expected an end line"),
    }
    match read_ha_baseline_line(r#"{"kind":"weird"}"#) {
        Ok((HaBaselineLine::Unsupported { kind_debug }, _)) => assert_eq!(kind_debug, "Some(\"weird\")"),
        _ => panic!("expected an unsupported line"),
    }
    match read_ha_baseline_line("[1, 2]") {
        Ok((HaBaselineLine::Unsupported { kind_debug }, None)) => assert_eq!(kind_debug, "None"),
        _ => panic!("expected an unsupported line"),
    }
    match read_ha_baseline_line("{not json") {
        Err(ProxyError::Other(m)) => assert!(m.starts_with("invalid HA baseline NDJSON: ")),
        _ => panic!("expected a parse error"),
    }
}

#[test]
fn resource_payloads_are_sanitized() {
    let line = r#"{"kind":"resource","resource":"api_key_maintenance_records","data":{"id":7,"request_log_id":9,"note":"x","score":2.5}}"#;
    let (record, data) = match read_ha_baseline_line(line) {
        Ok(v) => v,
        Err(_) => panic!("expected a resource line"),
    };
    match record {
        HaBaselineLine::Resource { resource, has_data } => {
            assert_eq!(resource.as_deref(), Some("api_key_maintenance_records"));
            assert!(has_data);
        }
        _ => panic!("expected a resource line"),
    }
    let payload = ha_resource_payload("api_key_maintenance_records", data);
    let entries = match &payload {
        HaPayload::Object(entries) => entries,
        HaPayload::Value(_) => panic!("expected an object"),
    };
    let get = |k: &str| entries.iter().find(|(key, _)| key == k).map(|(_, v)| v);
    assert!(matches!(get("request_log_id"), Some(HaJsonValue::Null)));
    assert!(matches!(get("id"), Some(HaJsonValue::Number(t)) if t == "7"));
    assert!(matches!(get("score"), Some(HaJsonValue::Number(t)) if t == "2.5"));
    let scalars = ha_payload_scalars(&payload).expect("an object");
    let scalar = |k: &str| scalars.iter().find(|(key, _)| key == k).map(|(_, v)| v);
    assert!(matches!(scalar("id"), Some(HaJsonScalar::I64(7))));
    assert!(matches!(scalar("note"), Some(HaJsonScalar::Str(s)) if s == "x"));
    assert!(matches!(scalar("score"), Some(HaJsonScalar::Other)));
    assert!(matches!(ha_resource_payload("users", None), HaPayload::Value(HaJsonValue::Null)));
}

#[test]
fn event_lines_are_read() {
    let line = r#"{"kind":"event","event":{"resource":"users","op":"delete","resourceId":"u1","seq":42,"payload":{"id":"u1"}}}"#;
    match read_ha_events_line(line) {
        Ok((HaEventsLine::Event { has_event, resource, op, resource_id, seq }, payload)) => {
            assert!(has_event);
            assert_eq!(resource.as_deref(), Some("users"));
            assert_eq!(op.as_deref(), Some("delete"));
            assert_eq!(resource_id.as_deref(), Some("u1"));
            assert_eq!(seq, Some(42));
            assert!(matches!(payload, Some(HaJsonValue::Object(_))));
        }
        _ => panic!("expected an event line"),
    }
    match read_ha_events_line(r#"{"kind":"events_end","lastSeq":17}"#) {
        Ok((HaEventsLine::End { last_seq }, None)) => assert_eq!(last_seq, Some(17)),
        _ => panic!("expected an end line"),
    }
    match read_ha_events_line(r#"{"kind":"event","event":3}"#) {
        Ok((HaEventsLine::Event { has_event, resource, .. }, None)) => {
            assert!(has_event);
            assert_eq!(resource, None);
        }
        _ => panic!("expected an event line"),
    }
    match read_ha_events_line("") {
        Err(ProxyError::Other(m)) => assert!(m.starts_with("invalid HA events NDJSON: ")),
        _ => panic!("expected a parse error"),
    }
}

#[test]
fn export_rows_are_sanitized() {
    match ha_export_row("api_key_transient_backoffs", r#"{"source_request_log_id":3,"key_id":"k"}"#) {
        Ok(HaPayload::Object(entries)) => {
            assert!(entries.iter().any(|(k, v)| k == "source_request_log_id" && matches!(v, HaJsonValue::Null)));
        }
        _ => panic!("expected an object"),
    }
    assert!(ha_export_row("users", "oops").is_err());
}

#[test]
fn billing_ledger_rows_move_to_local_ids() {
    let payload = HaPayload::Object(vec![
        ("auth_token_log_id".to_string(), HaJsonValue::Number("55".to_string())),
        ("request_log_id".to_string(), HaJsonValue::Number("9".to_string())),
        ("credits".to_string(), HaJsonValue::Number("3".to_string())),
    ]);
    let row = ha_billing_ledger_row_with_local_id(payload, -4);
    assert_eq!(row.len(), 3);
    assert!(matches!(&row[0].1, HaJsonValue::Number(t) if t == "-4"));
    assert!(matches!(&row[1].1, HaJsonValue::Null));
    assert!(matches!(&row[2].1, HaJsonValue::Number(t) if t == "3"));
    let added = ha_billing_ledger_row_with_local_id(HaPayload::Object(Vec::new()), -1);
    assert_eq!(added.len(), 1);
    assert_eq!(added[0].0, "auth_token_log_id");
}
