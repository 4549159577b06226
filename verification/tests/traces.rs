use evo_king::sql::{SqlValue, Statement, check_row};
use evo_king::stamp::Instant;
use evo_king::trace_api::{
    TraceListParams, trace_detail_handler, traces_list_handler, traces_listed,
};
use evo_king::trace_db::{
    cleanup_old_traces, cutoff_nanos, extract_service_name, get_trace_detail, list_traces,
    span_columns, span_row_to_json, store_trace_data, trace_columns, trace_row_to_json,
};
use evo_king::trace_receiver::otlp_traces_receiver;
use opentelemetry_proto::tonic::collector::trace::v1::ExportTraceServiceRequest;
use opentelemetry_proto::tonic::common::v1::{AnyValue, KeyValue, any_value};
use opentelemetry_proto::tonic::resource::v1::Resource;
use opentelemetry_proto::tonic::trace::v1::{ResourceSpans, ScopeSpans, Span, Status};
use prost::Message;
use serde_json::Value;

fn json(text: &str) -> Value {
    serde_json::from_str(text).unwrap()
}

fn text(s: &str) -> SqlValue {
    SqlValue::Text(s.to_string())
}

fn shown(statement: &Statement) -> Vec<String> {
    statement
        .params
        .iter()
        .map(|p| match p {
            SqlValue::Null => "NULL".to_string(),
            SqlValue::Integer(n) => n.to_string(),
            SqlValue::Real(r) => r.clone(),
            SqlValue::Text(t) => format!("'{t}'"),
        })
        .collect()
}

fn attribute(key: &str, value: any_value::Value) -> KeyValue {
    KeyValue {
        key: key.to_string(),
        value: Some(AnyValue { value: Some(value) }),
        ..KeyValue::default()
    }
}

fn request(attributes: Vec<KeyValue>) -> ExportTraceServiceRequest {
    let span = Span {
        trace_id: vec![0xab, 0x01],
        span_id: vec![0xff],
        parent_span_id: Vec::new(),
        name: "root".to_string(),
        kind: 2,
        start_time_unix_nano: 100,
        end_time_unix_nano: 350,
        status: Some(Status { code: 2, message: "bad".to_string() }),
        ..Span::default()
    };
    let child = Span {
        trace_id: vec![0xab, 0x01],
        span_id: vec![0x10],
        parent_span_id: vec![0xff],
        name: "child".to_string(),
        start_time_unix_nano: u64::MAX,
        end_time_unix_nano: 5,
        ..Span::default()
    };
    ExportTraceServiceRequest {
        resource_spans: vec![ResourceSpans {
            resource: Some(Resource { attributes, ..Resource::default() }),
            scope_spans: vec![ScopeSpans { spans: vec![span, child], ..ScopeSpans::default() }],
            ..ResourceSpans::default()
        }],
    }
}

fn named(service: &str) -> ExportTraceServiceRequest {
    request(vec![
        attribute("host", any_value::Value::StringValue("h".to_string())),
        attribute("service.name", any_value::Value::StringValue(service.to_string())),
        attribute("service.name", any_value::Value::StringValue("later".to_string())),
    ])
}

#[test]
fn spans_are_stored_with_their_traces() {
    let statements = store_trace_data(&named("king"));
    assert_eq!(statements.len(), 4);
    assert!(statements[0].sql.starts_with("INSERT INTO traces ("));
    assert!(statements[1].sql.starts_with("INSERT OR REPLACE INTO spans ("));
    let trace = shown(&statements[0]);
    assert_eq!(
        trace[..7].to_vec(),
        vec!["'ab01'", "'king'", "'root'", "100", "350", "250", "2"]
    );
    assert!(trace[7].contains("service.name"));
    let span = shown(&statements[1]);
    assert_eq!(
        span[..11].to_vec(),
        vec!["'ab01'", "'ff'", "''", "'root'", "2", "'king'", "100", "350", "250", "2", "'bad'"]
    );
    assert_eq!(span[11..].to_vec(), vec!["'[]'", "'[]'"]);
    let child = shown(&statements[3]);
    assert_eq!(child[2], "'ff'");
    assert_eq!(child[6..10].to_vec(), vec!["-1", "5", "6", "0"]);
}

#[test]
fn durations_do_not_overflow() {
    let mut request = named("king");
    let span = &mut request.resource_spans[0].scope_spans[0].spans[0];
    span.start_time_unix_nano = 1 << 63;
    span.end_time_unix_nano = (1 << 63) - 1;
    let statements = store_trace_data(&request);
    assert_eq!(shown(&statements[0])[5], i64::MAX.to_string());
}

#[test]
fn services_are_named_by_their_first_attribute() {
    assert_eq!(extract_service_name(&named("king").resource_spans[0]), "king");
    let number = request(vec![attribute("service.name", any_value::Value::IntValue(7))]);
    assert_eq!(extract_service_name(&number.resource_spans[0]), "IntValue(7)");
    assert_eq!(extract_service_name(&request(Vec::new()).resource_spans[0]), "");
    let mut bare = named("king");
    bare.resource_spans[0].resource = None;
    assert_eq!(extract_service_name(&bare.resource_spans[0]), "");
    assert_eq!(shown(&store_trace_data(&bare)[0])[7], "'null'");
}

#[test]
fn exports_come_in_two_forms() {
    let request = named("king");
    let binary = request.encode_to_vec();
    let stored = otlp_traces_receiver("application/x-protobuf", &binary).unwrap();
    assert_eq!(stored.len(), 4);
    assert_eq!(otlp_traces_receiver("", &binary).unwrap().len(), 4);
    assert!(otlp_traces_receiver("application/json", &binary).is_none());
    let written = serde_json::to_vec(&request).unwrap();
    let stored = otlp_traces_receiver("application/json; charset=utf-8", &written).unwrap();
    assert_eq!(shown(&stored[0])[1], "'king'");
    assert!(otlp_traces_receiver("application/x-protobuf", &vec![0xff, 0xff]).is_none());
    assert!(otlp_traces_receiver("", &Vec::new()).unwrap().is_empty());
}

#[test]
fn traces_are_listed_by_conditions() {
    let (count, data) = list_traces(None, None, None, 50, 0);
    assert_eq!(count.sql, "SELECT COUNT(*) FROM traces ");
    assert!(data.sql.ends_with(
        "FROM traces \n         ORDER BY start_time_ns DESC\n         LIMIT 50 OFFSET 0"
    ));
    let (count, data) = list_traces(Some("it's"), Some(-1), Some(3), 5, 9);
    assert_eq!(
        count.sql,
        "SELECT COUNT(*) FROM traces WHERE service_name = 'it''s' AND status_code = -1 AND duration_ns >= 3000000"
    );
    assert!(data.sql.contains("WHERE service_name = 'it''s' AND"));
    assert!(data.sql.ends_with("LIMIT 5 OFFSET 9"));
    let (count, _) = list_traces(Some(""), None, None, 1, 1);
    assert_eq!(count.sql, "SELECT COUNT(*) FROM traces ");
}

#[test]
fn trace_limits_are_bounded() {
    let mut params = TraceListParams {
        service: Some("king".to_string()),
        status: None,
        min_duration_ms: None,
        limit: Some(1000),
        offset: None,
    };
    assert!(traces_list_handler(&params).1.sql.ends_with("LIMIT 200 OFFSET 0"));
    params.limit = None;
    params.offset = Some(4);
    assert!(traces_list_handler(&params).1.sql.ends_with("LIMIT 50 OFFSET 4"));
}

fn trace_row() -> Vec<SqlValue> {
    vec![
        text("ab"),
        text("king"),
        text("root"),
        SqlValue::Integer(1),
        SqlValue::Integer(4),
        SqlValue::Integer(3),
        SqlValue::Integer(0),
        SqlValue::Integer(2),
        text("{\"attributes\":[]}"),
        text("t0"),
    ]
}

#[test]
fn traces_are_read() {
    let mut row = trace_row();
    assert!(check_row(&row, &trace_columns()));
    let trace = trace_row_to_json(&row).unwrap();
    assert_eq!(trace["resource"], json(r#"{"attributes":[]}"#));
    assert_eq!(trace["duration_ns"], json("3"));
    row[8] = text("broken");
    assert_eq!(trace_row_to_json(&row).unwrap()["resource"], json("{}"));
    row[3] = SqlValue::Null;
    assert_eq!(trace_row_to_json(&row).err().as_deref(), Some("Null value"));
    row[3] = text("1");
    assert!(!check_row(&row, &trace_columns()));
}

#[test]
fn spans_are_read() {
    let mut row = vec![text("ff"), text("ab"), text(""), text("root"), SqlValue::Integer(2), text("king")];
    for n in [1, 4, 3, 0] {
        row.push(SqlValue::Integer(n));
    }
    row.extend([text("ok"), text("[]"), text("broken")]);
    assert!(check_row(&row, &span_columns()));
    let span = span_row_to_json(&row).unwrap();
    assert_eq!((span["kind"].as_i64(), span["events"].clone()), (Some(2), json("[]")));
    row[0] = SqlValue::Null;
    assert!(span_row_to_json(&row).is_err());
}

#[test]
fn answers_about_traces() {
    let trace = trace_row_to_json(&trace_row()).unwrap();
    let listed = traces_listed(Ok((vec![trace.clone()], 7)));
    assert_eq!((listed["count"].as_u64(), listed["traces"][0]["trace_id"].as_str()), (Some(7), Some("ab")));
    assert_eq!(
        traces_listed(Err("count traces".to_string())),
        json(r#"{"traces":[],"count":0,"error":"count traces"}"#)
    );
    let detail = trace_detail_handler(Ok((Some(trace), Vec::new())));
    assert_eq!(detail["spans"], json("[]"));
    assert_eq!(
        trace_detail_handler(Ok((None, Vec::new()))),
        json(r#"{"error":"trace not found"}"#)
    );
    assert_eq!(trace_detail_handler(Err("e".to_string())), json(r#"{"error":"e"}"#));
    let (trace, spans) = get_trace_detail("ab");
    assert!(trace.sql.ends_with("FROM traces WHERE trace_id = ?1"));
    assert!(spans.sql.ends_with("ORDER BY start_time_ns ASC"));
}

#[test]
fn old_traces_are_deleted() {
    let now = Instant { secs: 86_400 * 10, nanos: 5 };
    assert_eq!(cutoff_nanos(now, 3), 86_400 * 7 * 1_000_000_000 + 5);
    assert_eq!(cutoff_nanos(now, 96_465_292), 0);
    let (spans, traces) = cleanup_old_traces(7);
    assert_eq!(spans.sql, "DELETE FROM spans WHERE start_time_ns < ?1");
    assert_eq!(traces.sql, "DELETE FROM traces WHERE start_time_ns < ?1");
    assert_eq!(shown(&spans), shown(&traces));
}
