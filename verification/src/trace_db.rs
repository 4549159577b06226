//! Traces: what is stored of those that services export, and what is asked of them.

use crate::gateway_manager::hex_digits;
use crate::json::{
    Fields, JsonTree, int_tree, parse_or_list, parse_or_object, parsed_or, signed, value_tree,
};
use crate::sql::{
    Column, SqlCell, SqlValue, Statement, StatementView, cell_integer, cell_text, cells, row_fits,
};
use crate::stamp::{Instant, clock};
use crate::text::{
    concat2, concat3, concat4, decimal, decimal_int, decimal_int_text, decimal_text, join, joined,
    opt_str, opt_text, replace, replaced, same, text_or, texts,
};
use opentelemetry_proto::tonic::collector::trace::v1::ExportTraceServiceRequest;
use opentelemetry_proto::tonic::common::v1::any_value;
use opentelemetry_proto::tonic::trace::v1::{ResourceSpans, ScopeSpans, Span};
use serde_json::Value;
use vstd::prelude::*;

verus! {

/// `opentelemetry_proto`'s `ExportTraceServiceRequest`: the spans of resources.
#[verifier::external_type_specification]
#[verifier::external_body]
pub struct ExExportTraceServiceRequest(ExportTraceServiceRequest);

/// `opentelemetry_proto`'s `ResourceSpans`: a resource with the spans of its scopes.
#[verifier::external_type_specification]
#[verifier::external_body]
pub struct ExResourceSpans(ResourceSpans);

/// `opentelemetry_proto`'s `ScopeSpans`: the spans of a scope.
#[verifier::external_type_specification]
#[verifier::external_body]
pub struct ExScopeSpans(ScopeSpans);

/// `opentelemetry_proto`'s `Span`.
#[verifier::external_type_specification]
#[verifier::external_body]
pub struct ExSpan(Span);

/// The value of an attribute: a text, or the debug text of another value.
pub enum AttributeValue {
    Text(String),
    Other(String),
}

/// What an [`AttributeValue`] holds.
pub enum AttributeValueView {
    Text(Seq<char>),
    Other(Seq<char>),
}

impl View for AttributeValue {
    type V = AttributeValueView;

    open spec fn view(&self) -> AttributeValueView {
        match self {
            AttributeValue::Text(s) => AttributeValueView::Text(s@),
            AttributeValue::Other(s) => AttributeValueView::Other(s@),
        }
    }
}

/// An attribute of a resource.
pub struct Attribute {
    pub key: String,
    pub value: Option<AttributeValue>,
}

/// What an [`Attribute`] holds.
pub struct AttributeView {
    pub key: Seq<char>,
    pub value: Option<AttributeValueView>,
}

impl View for Attribute {
    type V = AttributeView;

    open spec fn view(&self) -> AttributeView {
        AttributeView {
            key: self.key@,
            value: match self.value {
                Some(value) => Some(value@),
                None => None,
            },
        }
    }
}

/// A span. Its attributes and events are given by their JSON texts, where they have
/// one.
pub struct SpanRecord {
    pub trace_id: Vec<u8>,
    pub span_id: Vec<u8>,
    pub parent_span_id: Vec<u8>,
    pub name: String,
    pub kind: i32,
    pub start_time_unix_nano: u64,
    pub end_time_unix_nano: u64,
    pub status: Option<(i32, String)>,
    pub attributes: Option<String>,
    pub events: Option<String>,
}

/// What a [`SpanRecord`] holds.
pub struct SpanView {
    pub trace_id: Seq<u8>,
    pub span_id: Seq<u8>,
    pub parent_span_id: Seq<u8>,
    pub name: Seq<char>,
    pub kind: i32,
    pub start_time_unix_nano: u64,
    pub end_time_unix_nano: u64,
    pub status: Option<(i32, Seq<char>)>,
    pub attributes: Option<Seq<char>>,
    pub events: Option<Seq<char>>,
}

impl View for SpanRecord {
    type V = SpanView;

    open spec fn view(&self) -> SpanView {
        SpanView {
            trace_id: self.trace_id@,
            span_id: self.span_id@,
            parent_span_id: self.parent_span_id@,
            name: self.name@,
            kind: self.kind,
            start_time_unix_nano: self.start_time_unix_nano,
            end_time_unix_nano: self.end_time_unix_nano,
            status: match self.status {
                Some(status) => Some((status.0, status.1@)),
                None => None,
            },
            attributes: opt_text(self.attributes),
            events: opt_text(self.events),
        }
    }
}

/// A resource with its spans: its attributes, its JSON text where it has one, and the
/// spans of each of its scopes.
pub struct ResourceView {
    pub attributes: Seq<AttributeView>,
    pub text: Option<Seq<char>>,
    pub scopes: Seq<Seq<SpanView>>,
}

/// What a request holds.
pub uninterp spec fn request_contents(request: ExportTraceServiceRequest) -> Seq<ResourceView>;

/// What the spans of a resource hold.
pub uninterp spec fn resource_contents(spans: ResourceSpans) -> ResourceView;

/// What the spans of a scope hold.
pub uninterp spec fn scope_contents(spans: ScopeSpans) -> Seq<SpanView>;

/// What a span holds.
pub uninterp spec fn span_contents(span: Span) -> SpanView;

/// The field `resource_spans` of a request: how many it has.
#[verifier::external_body]
pub(crate) fn resource_count(request: &ExportTraceServiceRequest) -> (r: usize)
    ensures
        r == request_contents(*request).len(),
{
    request.resource_spans.len()
}

/// The field `resource_spans` of a request: one of them.
#[verifier::external_body]
pub(crate) fn resource_at(request: &ExportTraceServiceRequest, i: usize) -> (r: &ResourceSpans)
    requires
        i < request_contents(*request).len(),
    ensures
        resource_contents(*r) == request_contents(*request)[i as int],
{
    &request.resource_spans[i]
}

/// The attributes of the field `resource`: how many there are; none without a
/// resource.
#[verifier::external_body]
pub(crate) fn attribute_count(spans: &ResourceSpans) -> (r: usize)
    ensures
        r == resource_contents(*spans).attributes.len(),
{
    spans.resource.as_ref().map_or(0, |resource| resource.attributes.len())
}

/// The attributes of the field `resource`: one of them. Its value is told apart as a
/// text or another value, of which std's debug format gives the text.
#[verifier::external_body]
pub(crate) fn attribute_at(spans: &ResourceSpans, i: usize) -> (r: Attribute)
    requires
        i < resource_contents(*spans).attributes.len(),
    ensures
        r@ == resource_contents(*spans).attributes[i as int],
{
    let attribute = &spans.resource.as_ref().unwrap().attributes[i];
    let value = attribute.value.as_ref().and_then(|any| any.value.as_ref()).map(
        |value| match value {
            any_value::Value::StringValue(text) => AttributeValue::Text(text.clone()),
            other => AttributeValue::Other(format!("{other:?}")),
        },
    );
    Attribute { key: attribute.key.clone(), value }
}

/// `serde_json::to_string` on the field `resource`.
#[verifier::external_body]
pub(crate) fn resource_text(spans: &ResourceSpans) -> (r: Option<String>)
    ensures
        opt_text(r) == resource_contents(*spans).text,
{
    serde_json::to_string(&spans.resource).ok()
}

/// The field `scope_spans` of a resource: how many it has.
#[verifier::external_body]
pub(crate) fn scope_count(spans: &ResourceSpans) -> (r: usize)
    ensures
        r == resource_contents(*spans).scopes.len(),
{
    spans.scope_spans.len()
}

/// The field `scope_spans` of a resource: one of them.
#[verifier::external_body]
pub(crate) fn scope_at(spans: &ResourceSpans, i: usize) -> (r: &ScopeSpans)
    requires
        i < resource_contents(*spans).scopes.len(),
    ensures
        scope_contents(*r) == resource_contents(*spans).scopes[i as int],
{
    &spans.scope_spans[i]
}

/// The field `spans` of a scope: how many it has.
#[verifier::external_body]
pub(crate) fn span_count(spans: &ScopeSpans) -> (r: usize)
    ensures
        r == scope_contents(*spans).len(),
{
    spans.spans.len()
}

/// The field `spans` of a scope: one of them.
#[verifier::external_body]
pub(crate) fn span_at(spans: &ScopeSpans, i: usize) -> (r: &Span)
    requires
        i < scope_contents(*spans).len(),
    ensures
        span_contents(*r) == scope_contents(*spans)[i as int],
{
    &spans.spans[i]
}

/// The fields of a span; `serde_json::to_string` gives the texts of its attributes
/// and events.
#[verifier::external_body]
pub(crate) fn span_record(span: &Span) -> (r: SpanRecord)
    ensures
        r@ == span_contents(*span),
{
    SpanRecord {
        trace_id: span.trace_id.clone(),
        span_id: span.span_id.clone(),
        parent_span_id: span.parent_span_id.clone(),
        name: span.name.clone(),
        kind: span.kind,
        start_time_unix_nano: span.start_time_unix_nano,
        end_time_unix_nano: span.end_time_unix_nano,
        status: span.status.as_ref().map(|status| (status.code, status.message.clone())),
        attributes: serde_json::to_string(&span.attributes).ok(),
        events: serde_json::to_string(&span.events).ok(),
    }
}

/// The hexadecimal text of bytes: two digits in lower case for each.
pub open spec fn hex_of(bytes: Seq<u8>) -> Seq<char>
    decreases bytes.len(),
{
    if bytes.len() == 0 {
        Seq::empty()
    } else {
        hex_of(bytes.drop_last()) + hex_digits(bytes.last() as nat, 2)
    }
}

/// `hex::encode` writes each byte as two hexadecimal digits in lower case.
#[verifier::external_body]
pub(crate) fn hex_encode(bytes: &Vec<u8>) -> (r: String)
    ensures
        r@ == hex_of(bytes@),
{
    hex::encode(bytes)
}

// Storing spans.

/// The text of the value of an attribute.
pub open spec fn attribute_text(value: AttributeValueView) -> Seq<char> {
    match value {
        AttributeValueView::Text(s) => s,
        AttributeValueView::Other(s) => s,
    }
}

/// The name of the service of a resource: the text of the first attribute
/// `service.name` that has a value; empty where there is none.
pub open spec fn service_name(attributes: Seq<AttributeView>) -> Seq<char>
    decreases attributes.len(),
{
    if attributes.len() == 0 {
        ""@
    } else if attributes[0].key == "service.name"@ && attributes[0].value is Some {
        attribute_text(attributes[0].value->0)
    } else {
        service_name(attributes.drop_first())
    }
}

/// The name of the service of a resource.
pub fn extract_service_name(spans: &ResourceSpans) -> (r: String)
    ensures
        r@ == service_name(resource_contents(*spans).attributes),
{
    let ghost all = resource_contents(*spans).attributes;
    let count = attribute_count(spans);
    let mut i: usize = 0;
    assert(all.skip(0) =~= all);
    while i < count
        invariant
            i <= count,
            count == all.len(),
            all == resource_contents(*spans).attributes,
            service_name(all.skip(i as int)) == service_name(all),
        decreases count - i,
    {
        let ghost rest = all.skip(i as int);
        let attribute = attribute_at(spans, i);
        assert(rest[0] == attribute@);
        assert(rest.drop_first() =~= all.skip(i + 1));
        if same(attribute.key.as_str(), "service.name") {
            match attribute.value {
                Some(value) => {
                    return match value {
                        AttributeValue::Text(s) => s,
                        AttributeValue::Other(s) => s,
                    };
                },
                None => {},
            }
        }
        i += 1;
    }
    "".to_string()
}

/// The difference of two integers, or the integer of 64 bits that is closest to it.
pub open spec fn clamped_difference(end: i64, start: i64) -> i64 {
    if end - start > i64::MAX {
        i64::MAX
    } else if end - start < i64::MIN {
        i64::MIN
    } else {
        (end - start) as i64
    }
}

fn difference(end: i64, start: i64) -> (r: i64)
    ensures
        r == clamped_difference(end, start),
{
    let d: i128 = end as i128 - start as i128;
    if d > i64::MAX as i128 {
        i64::MAX
    } else if d < i64::MIN as i128 {
        i64::MIN
    } else {
        d as i64
    }
}

/// Statement that stores a trace, or widens the one that is there by a span.
pub const UPSERT_TRACE: &'static str =
    "INSERT INTO traces (
                        trace_id, service_name, root_span_name,
                        start_time_ns, end_time_ns, duration_ns,
                        status_code, span_count, resource, updated_at
                    ) VALUES (?1, ?2, ?3, ?4, ?5, ?6, ?7, 1, ?8, datetime('now'))
                    ON CONFLICT(trace_id) DO UPDATE SET
                        start_time_ns = MIN(traces.start_time_ns, excluded.start_time_ns),
                        end_time_ns   = MAX(traces.end_time_ns,   excluded.end_time_ns),
                        duration_ns   = MAX(traces.end_time_ns, excluded.end_time_ns)
                                      - MIN(traces.start_time_ns, excluded.start_time_ns),
                        span_count    = traces.span_count + 1,
                        status_code   = CASE WHEN excluded.status_code > traces.status_code
                                        THEN excluded.status_code ELSE traces.status_code END,
                        updated_at    = datetime('now')";

/// Statement that stores a span, in place of the one with its id.
pub const INSERT_SPAN: &'static str =
    "INSERT OR REPLACE INTO spans (
                        trace_id, span_id, parent_span_id, name, kind,
                        service_name, start_time_ns, end_time_ns, duration_ns,
                        status_code, status_message, attributes, events
                    ) VALUES (?1, ?2, ?3, ?4, ?5, ?6, ?7, ?8, ?9, ?10, ?11, ?12, ?13)";

/// The code of the status of a span; zero without a status.
pub open spec fn status_code(span: SpanView) -> i64 {
    match span.status {
        Some(status) => status.0 as i64,
        None => 0,
    }
}

/// The message of the status of a span; empty without a status.
pub open spec fn status_message(span: SpanView) -> Seq<char> {
    match span.status {
        Some(status) => status.1,
        None => ""@,
    }
}

/// The statement that stores the trace of a span.
pub open spec fn trace_statement(service: Seq<char>, resource: Seq<char>, span: SpanView) -> StatementView {
    let start = span.start_time_unix_nano as i64;
    let end = span.end_time_unix_nano as i64;
    StatementView::of(UPSERT_TRACE@).text(hex_of(span.trace_id)).text(service).text(
        span.name,
    ).integer(start).integer(end).integer(clamped_difference(end, start)).integer(
        status_code(span),
    ).text(resource)
}

/// The statement that stores a span.
pub open spec fn span_statement(service: Seq<char>, span: SpanView) -> StatementView {
    let start = span.start_time_unix_nano as i64;
    let end = span.end_time_unix_nano as i64;
    StatementView::of(INSERT_SPAN@).text(hex_of(span.trace_id)).text(hex_of(span.span_id)).text(
        hex_of(span.parent_span_id),
    ).text(span.name).integer(span.kind as i64).text(service).integer(start).integer(end).integer(
        clamped_difference(end, start),
    ).integer(status_code(span)).text(status_message(span)).text(
        text_or(span.attributes, "[]"@),
    ).text(text_or(span.events, "[]"@))
}

/// What each of a list of statements holds.
pub open spec fn statements(items: Seq<Statement>) -> Seq<StatementView> {
    items.map_values(|item: Statement| item@)
}

/// The statements that store the spans of a scope: two for each.
pub open spec fn scope_statements(
    service: Seq<char>,
    resource: Seq<char>,
    spans: Seq<SpanView>,
) -> Seq<StatementView>
    decreases spans.len(),
{
    if spans.len() == 0 {
        Seq::empty()
    } else {
        scope_statements(service, resource, spans.drop_last()).push(
            trace_statement(service, resource, spans.last()),
        ).push(span_statement(service, spans.last()))
    }
}

/// The statements that store the spans of the scopes of a resource.
pub open spec fn resource_statements(
    service: Seq<char>,
    resource: Seq<char>,
    scopes: Seq<Seq<SpanView>>,
) -> Seq<StatementView>
    decreases scopes.len(),
{
    if scopes.len() == 0 {
        Seq::empty()
    } else {
        resource_statements(service, resource, scopes.drop_last()) + scope_statements(
            service,
            resource,
            scopes.last(),
        )
    }
}

/// The statements that store the spans of a request.
pub open spec fn request_statements(resources: Seq<ResourceView>) -> Seq<StatementView>
    decreases resources.len(),
{
    if resources.len() == 0 {
        Seq::empty()
    } else {
        let last = resources.last();
        request_statements(resources.drop_last()) + resource_statements(
            service_name(last.attributes),
            text_or(last.text, "{}"@),
            last.scopes,
        )
    }
}

fn put_span(items: &mut Vec<Statement>, service: &str, resource: &str, span: &Span)
    ensures
        statements(final(items)@) == statements(old(items)@).push(
            trace_statement(service@, resource@, span_contents(*span)),
        ).push(span_statement(service@, span_contents(*span))),
{
    let ghost before = statements(items@);
    let record = span_record(span);
    let trace_id = hex_encode(&record.trace_id);
    let span_id = hex_encode(&record.span_id);
    let parent_span_id = hex_encode(&record.parent_span_id);
    let start: i64 = record.start_time_unix_nano as i64;
    let end: i64 = record.end_time_unix_nano as i64;
    let duration = difference(end, start);
    let code: i64 = match &record.status {
        Some(status) => status.0 as i64,
        None => 0,
    };
    let message = match &record.status {
        Some(status) => status.1.as_str(),
        None => "",
    };
    let attributes = match &record.attributes {
        Some(s) => s.as_str(),
        None => "[]",
    };
    let events = match &record.events {
        Some(s) => s.as_str(),
        None => "[]",
    };
    let trace = Statement::of(UPSERT_TRACE).text(trace_id.as_str()).text(service).text(
        record.name.as_str(),
    ).integer(start).integer(end).integer(duration).integer(code).text(resource);
    let stored = Statement::of(INSERT_SPAN).text(trace_id.as_str()).text(span_id.as_str()).text(
        parent_span_id.as_str(),
    ).text(record.name.as_str()).integer(record.kind as i64).text(service).integer(start).integer(
        end,
    ).integer(duration).integer(code).text(message).text(attributes).text(events);
    items.push(trace);
    items.push(stored);
    assert(statements(items@) =~= before.push(trace@).push(stored@));
}

/// The statements that store the spans that a request exports: for each span its
/// trace and the span itself, in order.
pub fn store_trace_data(request: &ExportTraceServiceRequest) -> (r: Vec<Statement>)
    ensures
        statements(r@) == request_statements(request_contents(*request)),
{
    let mut items: Vec<Statement> = Vec::new();
    let ghost resources = request_contents(*request);
    let resource_total = resource_count(request);
    let mut i: usize = 0;
    assert(statements(items@) =~= request_statements(resources.take(0)));
    while i < resource_total
        invariant
            i <= resource_total,
            resource_total == resources.len(),
            resources == request_contents(*request),
            statements(items@) == request_statements(resources.take(i as int)),
        decreases resource_total - i,
    {
        let ghost before = statements(items@);
        let resource_spans = resource_at(request, i);
        let ghost resource = resource_contents(*resource_spans);
        let service = extract_service_name(resource_spans);
        let text = match resource_text(resource_spans) {
            Some(s) => s,
            None => "{}".to_string(),
        };
        let scope_total = scope_count(resource_spans);
        let mut j: usize = 0;
        assert(before + resource_statements(service@, text@, resource.scopes.take(0)) =~= before);
        while j < scope_total
            invariant
                j <= scope_total,
                scope_total == resource.scopes.len(),
                resource == resource_contents(*resource_spans),
                statements(items@) == before + resource_statements(
                    service@,
                    text@,
                    resource.scopes.take(j as int),
                ),
            decreases scope_total - j,
        {
            let ghost inner = statements(items@);
            let scope_spans = scope_at(resource_spans, j);
            let ghost spans = scope_contents(*scope_spans);
            let span_total = span_count(scope_spans);
            let mut k: usize = 0;
            assert(inner + scope_statements(service@, text@, spans.take(0)) =~= inner);
            while k < span_total
                invariant
                    k <= span_total,
                    span_total == spans.len(),
                    spans == scope_contents(*scope_spans),
                    statements(items@) == inner + scope_statements(
                        service@,
                        text@,
                        spans.take(k as int),
                    ),
                decreases span_total - k,
            {
                let span = span_at(scope_spans, k);
                put_span(&mut items, service.as_str(), text.as_str(), span);
                proof {
                    assert(spans.take(k + 1).drop_last() =~= spans.take(k as int));
                    assert(statements(items@) =~= inner + scope_statements(
                        service@,
                        text@,
                        spans.take(k + 1),
                    ));
                }
                k += 1;
            }
            proof {
                assert(spans.take(k as int) =~= spans);
                assert(resource.scopes.take(j + 1).drop_last() =~= resource.scopes.take(j as int));
                assert(statements(items@) =~= before + resource_statements(
                    service@,
                    text@,
                    resource.scopes.take(j + 1),
                ));
            }
            j += 1;
        }
        proof {
            assert(resource.scopes.take(j as int) =~= resource.scopes);
            assert(resources.take(i + 1).drop_last() =~= resources.take(i as int));
            assert(statements(items@) =~= request_statements(resources.take(i + 1)));
        }
        i += 1;
    }
    assert(resources.take(i as int) =~= resources);
    items
}

// Asking for traces.

/// A condition on the service of a trace. Each quote in the name is doubled.
pub open spec fn service_condition(service: Seq<char>) -> Seq<char> {
    "service_name = '"@ + replaced(service, '\'', "''"@) + "'"@
}

/// The conditions on traces. An empty name of a service is no condition.
pub open spec fn trace_conditions(
    service: Option<Seq<char>>,
    status: Option<i32>,
    min_duration_ms: Option<u64>,
) -> Seq<Seq<char>> {
    let a = match service {
        Some(name) => if name.len() == 0 {
            Seq::<Seq<char>>::empty()
        } else {
            Seq::<Seq<char>>::empty().push(service_condition(name))
        },
        None => Seq::<Seq<char>>::empty(),
    };
    let b = match status {
        Some(code) => a.push("status_code = "@ + decimal_int(code as int)),
        None => a,
    };
    match min_duration_ms {
        Some(ms) => b.push("duration_ns >= "@ + decimal((ms * 1000000) as nat)),
        None => b,
    }
}

/// The part of a query with the conditions on traces.
pub open spec fn where_clause(conditions: Seq<Seq<char>>) -> Seq<char> {
    if conditions.len() == 0 {
        ""@
    } else {
        "WHERE "@ + joined(conditions, " AND "@)
    }
}

/// Beginning of the query for traces.
pub const SELECT_TRACES: &'static str =
    "SELECT trace_id, service_name, root_span_name,
                start_time_ns, end_time_ns, duration_ns,
                status_code, span_count, resource, updated_at
         FROM traces ";

/// The query that counts traces, and the one that lists a page of them, newest
/// first.
pub fn list_traces(
    service: Option<&str>,
    status: Option<i32>,
    min_duration_ms: Option<u64>,
    limit: u32,
    offset: u32,
) -> (r: (Statement, Statement))
    requires
        min_duration_ms matches Some(ms) ==> ms * 1000000 <= u64::MAX,
    ensures
        ({
            let clause = where_clause(
                trace_conditions(opt_str(service), status, min_duration_ms),
            );
            &&& r.0@ == StatementView::of("SELECT COUNT(*) FROM traces "@ + clause)
            &&& r.1@ == StatementView::of(
                SELECT_TRACES@ + clause + "\n         ORDER BY start_time_ns DESC\n         LIMIT "@
                    + decimal(limit as nat) + " OFFSET "@ + decimal(offset as nat),
            )
        }),
{
    let mut conditions: Vec<String> = Vec::new();
    assert(texts(conditions@) =~= Seq::<Seq<char>>::empty());
    match service {
        Some(name) => if !name.is_empty() {
            let quoted = replace(name, '\'', "''");
            let ghost before = texts(conditions@);
            let condition = concat3("service_name = '", quoted.as_str(), "'");
            conditions.push(condition);
            assert(texts(conditions@) =~= before.push(service_condition(name@)));
        },
        None => {},
    }
    match status {
        Some(code) => {
            let number = decimal_int_text(code as i64);
            let ghost before = texts(conditions@);
            let condition = concat2("status_code = ", number.as_str());
            conditions.push(condition);
            assert(texts(conditions@) =~= before.push(condition@));
        },
        None => {},
    }
    match min_duration_ms {
        Some(ms) => {
            let number = decimal_text(ms * 1000000);
            let ghost before = texts(conditions@);
            let condition = concat2("duration_ns >= ", number.as_str());
            conditions.push(condition);
            assert(texts(conditions@) =~= before.push(condition@));
        },
        None => {},
    }
    assert(texts(conditions@).len() == conditions@.len());
    let clause = if conditions.len() == 0 {
        "".to_string()
    } else {
        let all = join(&conditions, " AND ");
        concat2("WHERE ", all.as_str())
    };
    let count = concat2("SELECT COUNT(*) FROM traces ", clause.as_str());
    let limit_text = decimal_text(limit as u64);
    let offset_text = decimal_text(offset as u64);
    let head = concat4(
        SELECT_TRACES,
        clause.as_str(),
        "\n         ORDER BY start_time_ns DESC\n         LIMIT ",
        limit_text.as_str(),
    );
    let data = concat3(head.as_str(), " OFFSET ", offset_text.as_str());
    (Statement::of(count.as_str()), Statement::of(data.as_str()))
}

/// A text with one quote in place of each pair of quotes.
pub open spec fn unquoted(s: Seq<char>) -> Seq<char>
    decreases s.len(),
{
    if s.len() == 0 {
        Seq::empty()
    } else if s.last() == '\'' && s.len() >= 2 {
        unquoted(s.take(s.len() - 2)).push('\'')
    } else {
        unquoted(s.drop_last()).push(s.last())
    }
}

/// The name of a service reads back from its condition, so that no two services
/// have the same condition.
pub proof fn law_quotes_read_back(service: Seq<char>)
    ensures
        unquoted(replaced(service, '\'', "''"@)) == service,
    decreases service.len(),
{
    reveal_strlit("''");
    if service.len() > 0 {
        let rest = service.drop_last();
        law_quotes_read_back(rest);
        let head = replaced(rest, '\'', "''"@);
        let whole = replaced(service, '\'', "''"@);
        if service.last() == '\'' {
            assert(whole =~= head + "''"@);
            assert(whole.take(whole.len() - 2) =~= head);
        } else {
            assert(whole =~= head.push(service.last()));
            assert(whole.drop_last() =~= head);
        }
        assert(rest.push(service.last()) =~= service);
    }
}

/// The columns of a row of traces.
pub open spec fn trace_shape() -> Seq<Column> {
    seq![
        Column::Text,
        Column::Text,
        Column::Text,
        Column::Integer,
        Column::Integer,
        Column::Integer,
        Column::Integer,
        Column::Integer,
        Column::Text,
        Column::Text,
    ]
}

/// The columns of a row of traces.
pub fn trace_columns() -> (r: Vec<Column>)
    ensures
        r@ == trace_shape(),
{
    let r = vec![
        Column::Text,
        Column::Text,
        Column::Text,
        Column::Integer,
        Column::Integer,
        Column::Integer,
        Column::Integer,
        Column::Integer,
        Column::Text,
        Column::Text,
    ];
    assert(r@ =~= trace_shape());
    r
}

/// The columns of a row of spans.
pub open spec fn span_shape() -> Seq<Column> {
    seq![
        Column::Text,
        Column::Text,
        Column::Text,
        Column::Text,
        Column::Integer,
        Column::Text,
        Column::Integer,
        Column::Integer,
        Column::Integer,
        Column::Integer,
        Column::Text,
        Column::Text,
        Column::Text,
    ]
}

/// The columns of a row of spans.
pub fn span_columns() -> (r: Vec<Column>)
    ensures
        r@ == span_shape(),
{
    let r = vec![
        Column::Text,
        Column::Text,
        Column::Text,
        Column::Text,
        Column::Integer,
        Column::Text,
        Column::Integer,
        Column::Integer,
        Column::Integer,
        Column::Integer,
        Column::Text,
        Column::Text,
        Column::Text,
    ];
    assert(r@ =~= span_shape());
    r
}

/// Whether each cell of a row holds something.
pub open spec fn no_nulls(row: Seq<SqlCell>) -> bool {
    forall|i: int| 0 <= i < row.len() ==> !(#[trigger] row[i] is Null)
}

/// Whether each cell of a row holds something.
fn is_full(row: &Vec<SqlValue>) -> (r: bool)
    ensures
        r == no_nulls(cells(row@)),
{
    let mut i: usize = 0;
    while i < row.len()
        invariant
            i <= row@.len(),
            forall|k: int| 0 <= k < i ==> !(#[trigger] cells(row@)[k] is Null),
        decreases row@.len() - i,
    {
        match &row[i] {
            SqlValue::Null => {
                assert(cells(row@)[i as int] is Null);
                return false;
            },
            _ => {},
        }
        i += 1;
    }
    true
}

/// The text of a cell of a full row.
pub open spec fn text_at(row: Seq<SqlCell>, i: int) -> Seq<char> {
    cell_text(row[i])->0
}

/// The integer of a cell of a full row as JSON.
pub open spec fn integer_at(row: Seq<SqlCell>, i: int) -> JsonTree {
    int_tree(cell_integer(row[i])->0)
}

fn full_text(value: &SqlValue) -> (r: &str)
    requires
        value@ is Text,
    ensures
        Some(r@) == cell_text(value@),
{
    match value {
        SqlValue::Text(s) => s.as_str(),
        _ => "",
    }
}

fn full_integer(value: &SqlValue) -> (r: Value)
    requires
        value@ is Integer,
    ensures
        value_tree(r) == int_tree(cell_integer(value@)->0),
{
    match value {
        SqlValue::Integer(n) => signed(*n),
        _ => signed(0),
    }
}

/// A trace as JSON.
pub open spec fn trace_json(row: Seq<SqlCell>) -> JsonTree {
    JsonTree::empty().text("trace_id"@, text_at(row, 0)).text(
        "service_name"@,
        text_at(row, 1),
    ).text("root_span_name"@, text_at(row, 2)).with("start_time_ns"@, integer_at(row, 3)).with(
        "end_time_ns"@,
        integer_at(row, 4),
    ).with("duration_ns"@, integer_at(row, 5)).with("status_code"@, integer_at(row, 6)).with(
        "span_count"@,
        integer_at(row, 7),
    ).with("resource"@, parsed_or(text_at(row, 8), JsonTree::empty())).text(
        "updated_at"@,
        text_at(row, 9),
    )
}

/// Error of a cell that must hold something and holds nothing.
pub const NULL_VALUE: &'static str = "Null value";

/// Reads a trace from the cells of a row, or the error where one of them holds
/// nothing.
pub fn trace_row_to_json(row: &Vec<SqlValue>) -> (r: Result<Value, String>)
    requires
        row_fits(cells(row@), trace_shape()),
    ensures
        match r {
            Ok(value) => no_nulls(cells(row@)) && value_tree(value) == trace_json(cells(row@)),
            Err(message) => !no_nulls(cells(row@)) && message@ == NULL_VALUE@,
        },
{
    if !is_full(row) {
        return Err(NULL_VALUE.to_string());
    }
    let ghost all = cells(row@);
    assert(row@.len() == 10);
    assert(forall|i: int| 0 <= i < 10 ==> #[trigger] all[i] == row@[i]@);
    assert(all[0] is Text && all[1] is Text && all[2] is Text && all[8] is Text && all[9] is Text);
    assert(all[3] is Integer && all[4] is Integer && all[5] is Integer && all[6] is Integer
        && all[7] is Integer);
    Ok(
        Fields::new().text("trace_id", full_text(&row[0])).text(
            "service_name",
            full_text(&row[1]),
        ).text("root_span_name", full_text(&row[2])).with(
            "start_time_ns",
            full_integer(&row[3]),
        ).with("end_time_ns", full_integer(&row[4])).with(
            "duration_ns",
            full_integer(&row[5]),
        ).with("status_code", full_integer(&row[6])).with("span_count", full_integer(&row[7])).with(
            "resource",
            parse_or_object(full_text(&row[8])),
        ).text("updated_at", full_text(&row[9])).done(),
    )
}

/// A span as JSON.
pub open spec fn span_json(row: Seq<SqlCell>) -> JsonTree {
    JsonTree::empty().text("span_id"@, text_at(row, 0)).text("trace_id"@, text_at(row, 1)).text(
        "parent_span_id"@,
        text_at(row, 2),
    ).text("name"@, text_at(row, 3)).with("kind"@, integer_at(row, 4)).text(
        "service_name"@,
        text_at(row, 5),
    ).with("start_time_ns"@, integer_at(row, 6)).with("end_time_ns"@, integer_at(row, 7)).with(
        "duration_ns"@,
        integer_at(row, 8),
    ).with("status_code"@, integer_at(row, 9)).text("status_message"@, text_at(row, 10)).with(
        "attributes"@,
        parsed_or(text_at(row, 11), JsonTree::List(Seq::empty())),
    ).with("events"@, parsed_or(text_at(row, 12), JsonTree::List(Seq::empty())))
}

/// Reads a span from the cells of a row, or the error where one of them holds
/// nothing.
pub fn span_row_to_json(row: &Vec<SqlValue>) -> (r: Result<Value, String>)
    requires
        row_fits(cells(row@), span_shape()),
    ensures
        match r {
            Ok(value) => no_nulls(cells(row@)) && value_tree(value) == span_json(cells(row@)),
            Err(message) => !no_nulls(cells(row@)) && message@ == NULL_VALUE@,
        },
{
    if !is_full(row) {
        return Err(NULL_VALUE.to_string());
    }
    let ghost all = cells(row@);
    assert(row@.len() == 13);
    assert(forall|i: int| 0 <= i < 13 ==> #[trigger] all[i] == row@[i]@);
    assert(all[0] is Text && all[1] is Text && all[2] is Text && all[3] is Text && all[5] is Text);
    assert(all[10] is Text && all[11] is Text && all[12] is Text);
    assert(all[4] is Integer && all[6] is Integer && all[7] is Integer && all[8] is Integer
        && all[9] is Integer);
    Ok(
        Fields::new().text("span_id", full_text(&row[0])).text(
            "trace_id",
            full_text(&row[1]),
        ).text("parent_span_id", full_text(&row[2])).text("name", full_text(&row[3])).with(
            "kind",
            full_integer(&row[4]),
        ).text("service_name", full_text(&row[5])).with(
            "start_time_ns",
            full_integer(&row[6]),
        ).with("end_time_ns", full_integer(&row[7])).with(
            "duration_ns",
            full_integer(&row[8]),
        ).with("status_code", full_integer(&row[9])).text(
            "status_message",
            full_text(&row[10]),
        ).with("attributes", parse_or_list(full_text(&row[11]))).with(
            "events",
            parse_or_list(full_text(&row[12])),
        ).done(),
    )
}

/// Statement that asks for a trace.
pub const GET_TRACE: &'static str =
    "SELECT trace_id, service_name, root_span_name,
                    start_time_ns, end_time_ns, duration_ns,
                    status_code, span_count, resource, updated_at
             FROM traces WHERE trace_id = ?1";

/// Statement that asks for the spans of a trace.
pub const GET_TRACE_SPANS: &'static str =
    "SELECT span_id, trace_id, parent_span_id, name, kind,
                    service_name, start_time_ns, end_time_ns, duration_ns,
                    status_code, status_message, attributes, events
             FROM spans WHERE trace_id = ?1
             ORDER BY start_time_ns ASC";

/// Asks for a trace, and for its spans from the first to the last.
pub fn get_trace_detail(trace_id: &str) -> (r: (Statement, Statement))
    ensures
        r.0@ == StatementView::of(GET_TRACE@).text(trace_id@),
        r.1@ == StatementView::of(GET_TRACE_SPANS@).text(trace_id@),
{
    (Statement::of(GET_TRACE).text(trace_id), Statement::of(GET_TRACE_SPANS).text(trace_id))
}

/// Statement that deletes spans that began before a time.
pub const DELETE_OLD_SPANS: &'static str = "DELETE FROM spans WHERE start_time_ns < ?1";

/// Statement that deletes traces that began before a time.
pub const DELETE_OLD_TRACES: &'static str = "DELETE FROM traces WHERE start_time_ns < ?1";

/// Most days that traces can be kept for: the calendar holds the time so many days
/// before 1970, and no earlier one.
pub const MAX_RETENTION_DAYS: u32 = 96_465_292;

/// The nanoseconds from 1970 to a number of days before a time, where they fit 64
/// bits, else zero.
pub open spec fn nanos_before(now: Instant, days: u32) -> i64 {
    let nanos = (now.secs - days * 86400) * 1_000_000_000 + now.nanos;
    if i64::MIN <= nanos <= i64::MAX {
        nanos as i64
    } else {
        0
    }
}

/// The nanoseconds from 1970 to a number of days before a time, where they fit 64
/// bits, else zero.
pub fn cutoff_nanos(now: Instant, days: u32) -> (r: i64)
    ensures
        r == nanos_before(now, days),
{
    let secs: i128 = now.secs as i128 - (days as i128) * 86400;
    let nanos: i128 = secs * 1_000_000_000 + now.nanos as i128;
    if i64::MIN as i128 <= nanos && nanos <= i64::MAX as i128 {
        nanos as i64
    } else {
        0
    }
}

/// Deletes the spans and then the traces that began more than a number of days ago.
pub fn cleanup_old_traces(retention_days: u32) -> (r: (Statement, Statement))
    requires
        retention_days <= MAX_RETENTION_DAYS,
    ensures
        exists|now: Instant| #[trigger]
            now.valid() && now.secs >= 0 && r.0@ == StatementView::of(DELETE_OLD_SPANS@).integer(
                nanos_before(now, retention_days),
            ) && r.1@ == StatementView::of(DELETE_OLD_TRACES@).integer(
                nanos_before(now, retention_days),
            ),
{
    let now = clock();
    assert(now.valid());
    let cutoff = cutoff_nanos(now, retention_days);
    (
        Statement::of(DELETE_OLD_SPANS).integer(cutoff),
        Statement::of(DELETE_OLD_TRACES).integer(cutoff),
    )
}

/// A span that ends after it begins has the time between as its duration, and no
/// duration overflows.
pub proof fn law_durations(end: i64, start: i64)
    ensures
        0 <= start <= end ==> clamped_difference(end, start) == end - start,
        end >= start <==> clamped_difference(end, start) >= 0,
{
}

/// Number of spans of a list of scopes.
pub open spec fn span_total(scopes: Seq<Seq<SpanView>>) -> nat
    decreases scopes.len(),
{
    if scopes.len() == 0 {
        0
    } else {
        span_total(scopes.drop_last()) + scopes.last().len()
    }
}

/// Every span of a resource is stored by two statements.
pub proof fn law_two_statements_for_each_span(
    service: Seq<char>,
    resource: Seq<char>,
    scopes: Seq<Seq<SpanView>>,
)
    ensures
        resource_statements(service, resource, scopes).len() == 2 * span_total(scopes),
    decreases scopes.len(),
{
    if scopes.len() > 0 {
        law_two_statements_for_each_span(service, resource, scopes.drop_last());
        lemma_scope_count(service, resource, scopes.last());
    }
}

proof fn lemma_scope_count(service: Seq<char>, resource: Seq<char>, spans: Seq<SpanView>)
    ensures
        scope_statements(service, resource, spans).len() == 2 * spans.len(),
    decreases spans.len(),
{
    if spans.len() > 0 {
        lemma_scope_count(service, resource, spans.drop_last());
    }
}

} // verus!
