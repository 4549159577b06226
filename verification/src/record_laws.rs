//! What is stored of records, and what is read of them: each column has the value of
//! the field of its name, and so has each member of the JSON.

use crate::history::{
    AgentHistoryRow, AgentHistoryView, SocketEventRow, SocketEventView, change_json,
    change_statement, change_trees, event_json, event_of, event_trees, history_of,
    list_agent_history_statement, record_event_statement, record_registration_statement,
};
use crate::json::{JsonTree, int_tree, opt_text_tree, parsed_or, real_tree};
use crate::memory_db::{
    MemoryRow, MemoryTierRow, MemoryTierView, MemoryView, TaskMemoryView,
    bind_task_memory_statement, count_memories_by_scope_statement, create_memory_statement,
    delete_tier_statement, find_tier_statement, get_memory_by_key_statement, get_memory_statement,
    get_tier_statement, get_tiers_statement, list_memories_for_task_statement,
    list_tasks_for_memory_statement, memory_of, scope_count_of, task_memory_of, tier_of,
    touch_memory_statement, unbind_task_memory_statement, upsert_tier_statement,
};
use crate::records::{
    agent_json, agent_trees, brief_tier_json, brief_tier_trees, cron_json, cron_trees, history_json,
    history_trees, log_json, log_trees, memory_json, memory_trees, pipeline_json, pipeline_trees,
    tags_tree, task_json, task_trees, tier_json, tier_trees,
};
use crate::sql::{SqlCell, cell_decimal, cell_text, integer_or, row_fits};
use crate::task_db::{
    AgentMetadataView, AgentRow, AgentView, ConfigHistoryRow, ConfigHistoryView, CronJobRow,
    CronJobView, PipelineRow, PipelineView, SetupKind, SetupOutcome, TaskLogRow, TaskLogView,
    TaskRow, TaskView, agent_of, config_history_of, count_subtasks_statement,
    count_task_logs_statement, create_pipeline_stage_statement, create_task_log_statement,
    create_task_statement, cron_job_of, delete_task_statement, get_agent_model_statement,
    get_agent_statement, get_cron_job_id_statement, get_stage_retry_count_statement,
    list_agents_statement, list_config_history_statement, list_cron_jobs_statement,
    list_log_texts_statement, list_task_logs_statement, log_config_change_statement,
    mark_agent_crashed_by_role_statement, mark_agent_failed_with_statement, pipeline_of,
    register_agent_statement, retry_pipeline_stage_statement, set_agent_model_statement, setup,
    setup_outcome, task_log_of, task_of, update_cron_with_statement, update_stage_with_statement,
    upsert_agent_with_statement, upsert_cron_with_statement,
};
use crate::text::{has_part, occurs_at, text_or};
use crate::trace_db::{
    SpanView, hex_of, no_nulls, span_json, span_shape, span_statement, trace_json, trace_shape,
    trace_statement,
};
use vstd::prelude::*;

verus! {

/// The names of the columns of spans and traces are distinct.
proof fn lemma_trace_columns()
    ensures
        "span_id"@ != "trace_id"@,
        "span_id"@ != "parent_span_id"@,
        "span_id"@ != "name"@,
        "span_id"@ != "kind"@,
        "span_id"@ != "service_name"@,
        "span_id"@ != "start_time_ns"@,
        "span_id"@ != "end_time_ns"@,
        "span_id"@ != "duration_ns"@,
        "span_id"@ != "status_code"@,
        "span_id"@ != "status_message"@,
        "span_id"@ != "attributes"@,
        "span_id"@ != "events"@,
        "span_id"@ != "root_span_name"@,
        "span_id"@ != "span_count"@,
        "span_id"@ != "resource"@,
        "span_id"@ != "updated_at"@,
        "trace_id"@ != "parent_span_id"@,
        "trace_id"@ != "name"@,
        "trace_id"@ != "kind"@,
        "trace_id"@ != "service_name"@,
        "trace_id"@ != "start_time_ns"@,
        "trace_id"@ != "end_time_ns"@,
        "trace_id"@ != "duration_ns"@,
        "trace_id"@ != "status_code"@,
        "trace_id"@ != "status_message"@,
        "trace_id"@ != "attributes"@,
        "trace_id"@ != "events"@,
        "trace_id"@ != "root_span_name"@,
        "trace_id"@ != "span_count"@,
        "trace_id"@ != "resource"@,
        "trace_id"@ != "updated_at"@,
        "parent_span_id"@ != "name"@,
        "parent_span_id"@ != "kind"@,
        "parent_span_id"@ != "service_name"@,
        "parent_span_id"@ != "start_time_ns"@,
        "parent_span_id"@ != "end_time_ns"@,
        "parent_span_id"@ != "duration_ns"@,
        "parent_span_id"@ != "status_code"@,
        "parent_span_id"@ != "status_message"@,
        "parent_span_id"@ != "attributes"@,
        "parent_span_id"@ != "events"@,
        "parent_span_id"@ != "root_span_name"@,
        "parent_span_id"@ != "span_count"@,
        "parent_span_id"@ != "resource"@,
        "parent_span_id"@ != "updated_at"@,
        "name"@ != "kind"@,
        "name"@ != "service_name"@,
        "name"@ != "start_time_ns"@,
        "name"@ != "end_time_ns"@,
        "name"@ != "duration_ns"@,
        "name"@ != "status_code"@,
        "name"@ != "status_message"@,
        "name"@ != "attributes"@,
        "name"@ != "events"@,
        "name"@ != "root_span_name"@,
        "name"@ != "span_count"@,
        "name"@ != "resource"@,
        "name"@ != "updated_at"@,
        "kind"@ != "service_name"@,
        "kind"@ != "start_time_ns"@,
        "kind"@ != "end_time_ns"@,
        "kind"@ != "duration_ns"@,
        "kind"@ != "status_code"@,
        "kind"@ != "status_message"@,
        "kind"@ != "attributes"@,
        "kind"@ != "events"@,
        "kind"@ != "root_span_name"@,
        "kind"@ != "span_count"@,
        "kind"@ != "resource"@,
        "kind"@ != "updated_at"@,
        "service_name"@ != "start_time_ns"@,
        "service_name"@ != "end_time_ns"@,
        "service_name"@ != "duration_ns"@,
        "service_name"@ != "status_code"@,
        "service_name"@ != "status_message"@,
        "service_name"@ != "attributes"@,
        "service_name"@ != "events"@,
        "service_name"@ != "root_span_name"@,
        "service_name"@ != "span_count"@,
        "service_name"@ != "resource"@,
        "service_name"@ != "updated_at"@,
        "start_time_ns"@ != "end_time_ns"@,
        "start_time_ns"@ != "duration_ns"@,
        "start_time_ns"@ != "status_code"@,
        "start_time_ns"@ != "status_message"@,
        "start_time_ns"@ != "attributes"@,
        "start_time_ns"@ != "events"@,
        "start_time_ns"@ != "root_span_name"@,
        "start_time_ns"@ != "span_count"@,
        "start_time_ns"@ != "resource"@,
        "start_time_ns"@ != "updated_at"@,
        "end_time_ns"@ != "duration_ns"@,
        "end_time_ns"@ != "status_code"@,
        "end_time_ns"@ != "status_message"@,
        "end_time_ns"@ != "attributes"@,
        "end_time_ns"@ != "events"@,
        "end_time_ns"@ != "root_span_name"@,
        "end_time_ns"@ != "span_count"@,
        "end_time_ns"@ != "resource"@,
        "end_time_ns"@ != "updated_at"@,
        "duration_ns"@ != "status_code"@,
        "duration_ns"@ != "status_message"@,
        "duration_ns"@ != "attributes"@,
        "duration_ns"@ != "events"@,
        "duration_ns"@ != "root_span_name"@,
        "duration_ns"@ != "span_count"@,
        "duration_ns"@ != "resource"@,
        "duration_ns"@ != "updated_at"@,
        "status_code"@ != "status_message"@,
        "status_code"@ != "attributes"@,
        "status_code"@ != "events"@,
        "status_code"@ != "root_span_name"@,
        "status_code"@ != "span_count"@,
        "status_code"@ != "resource"@,
        "status_code"@ != "updated_at"@,
        "status_message"@ != "attributes"@,
        "status_message"@ != "events"@,
        "status_message"@ != "root_span_name"@,
        "status_message"@ != "span_count"@,
        "status_message"@ != "resource"@,
        "status_message"@ != "updated_at"@,
        "attributes"@ != "events"@,
        "attributes"@ != "root_span_name"@,
        "attributes"@ != "span_count"@,
        "attributes"@ != "resource"@,
        "attributes"@ != "updated_at"@,
        "events"@ != "root_span_name"@,
        "events"@ != "span_count"@,
        "events"@ != "resource"@,
        "events"@ != "updated_at"@,
        "root_span_name"@ != "span_count"@,
        "root_span_name"@ != "resource"@,
        "root_span_name"@ != "updated_at"@,
        "span_count"@ != "resource"@,
        "span_count"@ != "updated_at"@,
        "resource"@ != "updated_at"@,
{
    reveal_strlit("span_id");
    reveal_strlit("trace_id");
    reveal_strlit("parent_span_id");
    reveal_strlit("name");
    reveal_strlit("kind");
    reveal_strlit("service_name");
    reveal_strlit("start_time_ns");
    reveal_strlit("end_time_ns");
    reveal_strlit("duration_ns");
    reveal_strlit("status_code");
    reveal_strlit("status_message");
    reveal_strlit("attributes");
    reveal_strlit("events");
    reveal_strlit("root_span_name");
    reveal_strlit("span_count");
    reveal_strlit("resource");
    reveal_strlit("updated_at");
    assert("span_id"@.len() != "trace_id"@.len());
    assert("span_id"@.len() != "parent_span_id"@.len());
    assert("span_id"@.len() != "name"@.len());
    assert("span_id"@.len() != "kind"@.len());
    assert("span_id"@.len() != "service_name"@.len());
    assert("span_id"@.len() != "start_time_ns"@.len());
    assert("span_id"@.len() != "end_time_ns"@.len());
    assert("span_id"@.len() != "duration_ns"@.len());
    assert("span_id"@.len() != "status_code"@.len());
    assert("span_id"@.len() != "status_message"@.len());
    assert("span_id"@.len() != "attributes"@.len());
    assert("span_id"@.len() != "events"@.len());
    assert("span_id"@.len() != "root_span_name"@.len());
    assert("span_id"@.len() != "span_count"@.len());
    assert("span_id"@.len() != "resource"@.len());
    assert("span_id"@.len() != "updated_at"@.len());
    assert("trace_id"@.len() != "parent_span_id"@.len());
    assert("trace_id"@.len() != "name"@.len());
    assert("trace_id"@.len() != "kind"@.len());
    assert("trace_id"@.len() != "service_name"@.len());
    assert("trace_id"@.len() != "start_time_ns"@.len());
    assert("trace_id"@.len() != "end_time_ns"@.len());
    assert("trace_id"@.len() != "duration_ns"@.len());
    assert("trace_id"@.len() != "status_code"@.len());
    assert("trace_id"@.len() != "status_message"@.len());
    assert("trace_id"@.len() != "attributes"@.len());
    assert("trace_id"@.len() != "events"@.len());
    assert("trace_id"@.len() != "root_span_name"@.len());
    assert("trace_id"@.len() != "span_count"@.len());
    assert("trace_id"@[0] == 't' && "resource"@[0] == 'r');
    assert("trace_id"@.len() != "updated_at"@.len());
    assert("parent_span_id"@.len() != "name"@.len());
    assert("parent_span_id"@.len() != "kind"@.len());
    assert("parent_span_id"@.len() != "service_name"@.len());
    assert("parent_span_id"@.len() != "start_time_ns"@.len());
    assert("parent_span_id"@.len() != "end_time_ns"@.len());
    assert("parent_span_id"@.len() != "duration_ns"@.len());
    assert("parent_span_id"@.len() != "status_code"@.len());
    assert("parent_span_id"@[0] == 'p' && "status_message"@[0] == 's');
    assert("parent_span_id"@.len() != "attributes"@.len());
    assert("parent_span_id"@.len() != "events"@.len());
    assert("parent_span_id"@[0] == 'p' && "root_span_name"@[0] == 'r');
    assert("parent_span_id"@.len() != "span_count"@.len());
    assert("parent_span_id"@.len() != "resource"@.len());
    assert("parent_span_id"@.len() != "updated_at"@.len());
    assert("name"@[0] == 'n' && "kind"@[0] == 'k');
    assert("name"@.len() != "service_name"@.len());
    assert("name"@.len() != "start_time_ns"@.len());
    assert("name"@.len() != "end_time_ns"@.len());
    assert("name"@.len() != "duration_ns"@.len());
    assert("name"@.len() != "status_code"@.len());
    assert("name"@.len() != "status_message"@.len());
    assert("name"@.len() != "attributes"@.len());
    assert("name"@.len() != "events"@.len());
    assert("name"@.len() != "root_span_name"@.len());
    assert("name"@.len() != "span_count"@.len());
    assert("name"@.len() != "resource"@.len());
    assert("name"@.len() != "updated_at"@.len());
    assert("kind"@.len() != "service_name"@.len());
    assert("kind"@.len() != "start_time_ns"@.len());
    assert("kind"@.len() != "end_time_ns"@.len());
    assert("kind"@.len() != "duration_ns"@.len());
    assert("kind"@.len() != "status_code"@.len());
    assert("kind"@.len() != "status_message"@.len());
    assert("kind"@.len() != "attributes"@.len());
    assert("kind"@.len() != "events"@.len());
    assert("kind"@.len() != "root_span_name"@.len());
    assert("kind"@.len() != "span_count"@.len());
    assert("kind"@.len() != "resource"@.len());
    assert("kind"@.len() != "updated_at"@.len());
    assert("service_name"@.len() != "start_time_ns"@.len());
    assert("service_name"@.len() != "end_time_ns"@.len());
    assert("service_name"@.len() != "duration_ns"@.len());
    assert("service_name"@.len() != "status_code"@.len());
    assert("service_name"@.len() != "status_message"@.len());
    assert("service_name"@.len() != "attributes"@.len());
    assert("service_name"@.len() != "events"@.len());
    assert("service_name"@.len() != "root_span_name"@.len());
    assert("service_name"@.len() != "span_count"@.len());
    assert("service_name"@.len() != "resource"@.len());
    assert("service_name"@.len() != "updated_at"@.len());
    assert("start_time_ns"@.len() != "end_time_ns"@.len());
    assert("start_time_ns"@.len() != "duration_ns"@.len());
    assert("start_time_ns"@.len() != "status_code"@.len());
    assert("start_time_ns"@.len() != "status_message"@.len());
    assert("start_time_ns"@.len() != "attributes"@.len());
    assert("start_time_ns"@.len() != "events"@.len());
    assert("start_time_ns"@.len() != "root_span_name"@.len());
    assert("start_time_ns"@.len() != "span_count"@.len());
    assert("start_time_ns"@.len() != "resource"@.len());
    assert("start_time_ns"@.len() != "updated_at"@.len());
    assert("end_time_ns"@[0] == 'e' && "duration_ns"@[0] == 'd');
    assert("end_time_ns"@[0] == 'e' && "status_code"@[0] == 's');
    assert("end_time_ns"@.len() != "status_message"@.len());
    assert("end_time_ns"@.len() != "attributes"@.len());
    assert("end_time_ns"@.len() != "events"@.len());
    assert("end_time_ns"@.len() != "root_span_name"@.len());
    assert("end_time_ns"@.len() != "span_count"@.len());
    assert("end_time_ns"@.len() != "resource"@.len());
    assert("end_time_ns"@.len() != "updated_at"@.len());
    assert("duration_ns"@[0] == 'd' && "status_code"@[0] == 's');
    assert("duration_ns"@.len() != "status_message"@.len());
    assert("duration_ns"@.len() != "attributes"@.len());
    assert("duration_ns"@.len() != "events"@.len());
    assert("duration_ns"@.len() != "root_span_name"@.len());
    assert("duration_ns"@.len() != "span_count"@.len());
    assert("duration_ns"@.len() != "resource"@.len());
    assert("duration_ns"@.len() != "updated_at"@.len());
    assert("status_code"@.len() != "status_message"@.len());
    assert("status_code"@.len() != "attributes"@.len());
    assert("status_code"@.len() != "events"@.len());
    assert("status_code"@.len() != "root_span_name"@.len());
    assert("status_code"@.len() != "span_count"@.len());
    assert("status_code"@.len() != "resource"@.len());
    assert("status_code"@.len() != "updated_at"@.len());
    assert("status_message"@.len() != "attributes"@.len());
    assert("status_message"@.len() != "events"@.len());
    assert("status_message"@[0] == 's' && "root_span_name"@[0] == 'r');
    assert("status_message"@.len() != "span_count"@.len());
    assert("status_message"@.len() != "resource"@.len());
    assert("status_message"@.len() != "updated_at"@.len());
    assert("attributes"@.len() != "events"@.len());
    assert("attributes"@.len() != "root_span_name"@.len());
    assert("attributes"@[0] == 'a' && "span_count"@[0] == 's');
    assert("attributes"@.len() != "resource"@.len());
    assert("attributes"@[0] == 'a' && "updated_at"@[0] == 'u');
    assert("events"@.len() != "root_span_name"@.len());
    assert("events"@.len() != "span_count"@.len());
    assert("events"@.len() != "resource"@.len());
    assert("events"@.len() != "updated_at"@.len());
    assert("root_span_name"@.len() != "span_count"@.len());
    assert("root_span_name"@.len() != "resource"@.len());
    assert("root_span_name"@.len() != "updated_at"@.len());
    assert("span_count"@.len() != "resource"@.len());
    assert("span_count"@[0] == 's' && "updated_at"@[0] == 'u');
    assert("resource"@.len() != "updated_at"@.len());
}

/// A stored span is read back: in the row that is given for the parameters of the
/// statement that stores it, each member of the JSON is the field of the span of that
/// name. So the duration of a span that ends after it begins is the time between the
/// two.
#[verifier::rlimit(60)]
pub proof fn law_spans_read_back(service: Seq<char>, span: SpanView)
    ensures
        crate::trace_db::GET_TRACE_SPANS@ == "SELECT span_id, trace_id, parent_span_id, name, kind,
                    service_name, start_time_ns, end_time_ns, duration_ns,
                    status_code, status_message, attributes, events
             FROM spans WHERE trace_id = ?1
             ORDER BY start_time_ns ASC"@,
        span_statement(service, span).sql == "INSERT OR REPLACE INTO spans (
                        trace_id, span_id, parent_span_id, name, kind,
                        service_name, start_time_ns, end_time_ns, duration_ns,
                        status_code, status_message, attributes, events
                    ) VALUES (?1, ?2, ?3, ?4, ?5, ?6, ?7, ?8, ?9, ?10, ?11, ?12, ?13)"@,
        span_statement(service, span).params.len() == 13,
        ({
            let s = span_statement(service, span);
            let kept = map![
                "trace_id"@ => s.params[0],
                "span_id"@ => s.params[1],
                "parent_span_id"@ => s.params[2],
                "name"@ => s.params[3],
                "kind"@ => s.params[4],
                "service_name"@ => s.params[5],
                "start_time_ns"@ => s.params[6],
                "end_time_ns"@ => s.params[7],
                "duration_ns"@ => s.params[8],
                "status_code"@ => s.params[9],
                "status_message"@ => s.params[10],
                "attributes"@ => s.params[11],
                "events"@ => s.params[12],
            ];
            let row = seq![
                kept["span_id"@],
                kept["trace_id"@],
                kept["parent_span_id"@],
                kept["name"@],
                kept["kind"@],
                kept["service_name"@],
                kept["start_time_ns"@],
                kept["end_time_ns"@],
                kept["duration_ns"@],
                kept["status_code"@],
                kept["status_message"@],
                kept["attributes"@],
                kept["events"@],
            ];
            let json = span_json(row);
            let start = span.start_time_unix_nano as i64;
            let end = span.end_time_unix_nano as i64;
            &&& row_fits(row, span_shape())
            &&& no_nulls(row)
            &&& json.get("span_id"@) == Some(JsonTree::Text(hex_of(span.span_id)))
            &&& json.get("trace_id"@) == Some(JsonTree::Text(hex_of(span.trace_id)))
            &&& json.get("parent_span_id"@) == Some(JsonTree::Text(hex_of(span.parent_span_id)))
            &&& json.get("name"@) == Some(JsonTree::Text(span.name))
            &&& json.get("kind"@) == Some(int_tree(span.kind as i64))
            &&& json.get("service_name"@) == Some(JsonTree::Text(service))
            &&& json.get("start_time_ns"@) == Some(int_tree(start))
            &&& json.get("end_time_ns"@) == Some(int_tree(end))
            &&& json.get("status_code"@) == Some(int_tree(
                match span.status {
                    Some(status) => status.0 as i64,
                    None => 0,
                },
            ))
            &&& json.get("status_message"@) == Some(JsonTree::Text(
                match span.status {
                    Some(status) => status.1,
                    None => ""@,
                },
            ))
            &&& json.get("attributes"@)
                == Some(parsed_or(text_or(span.attributes, "[]"@), JsonTree::List(Seq::empty())))
            &&& json.get("events"@)
                == Some(parsed_or(text_or(span.events, "[]"@), JsonTree::List(Seq::empty())))
            &&& 0 <= start <= end ==> {
                &&& json.get_uint("start_time_ns"@) == Some(start as u64)
                &&& json.get_uint("end_time_ns"@) == Some(end as u64)
                &&& json.get_uint("duration_ns"@) == Some((end - start) as u64)
            }
            &&& start <= end && end - start <= i64::MAX ==> json.get("duration_ns"@) == Some(
                int_tree((end - start) as i64),
            )
            &&& end < start && end - start >= i64::MIN ==> json.get("duration_ns"@) == Some(
                int_tree((end - start) as i64),
            )
            &&& end - start > i64::MAX ==> json.get("duration_ns"@) == Some(int_tree(i64::MAX))
            &&& end - start < i64::MIN ==> json.get("duration_ns"@) == Some(int_tree(i64::MIN))
        }),
{
    lemma_trace_columns();
}

/// A trace that is stored for its first span is read back: each member of the JSON is
/// the field of the span, or of the service, of that name.
#[verifier::rlimit(60)]
pub proof fn law_traces_read_back(
    service: Seq<char>,
    resource: Seq<char>,
    span: SpanView,
    now: Seq<char>,
)
    ensures
        crate::trace_db::GET_TRACE@ == "SELECT trace_id, service_name, root_span_name,
                    start_time_ns, end_time_ns, duration_ns,
                    status_code, span_count, resource, updated_at
             FROM traces WHERE trace_id = ?1"@,
        trace_statement(service, resource, span).sql == "INSERT INTO traces (
                        trace_id, service_name, root_span_name,
                        start_time_ns, end_time_ns, duration_ns,
                        status_code, span_count, resource, updated_at
                    ) VALUES (?1, ?2, ?3, ?4, ?5, ?6, ?7, 1, ?8, datetime('now'))
                    ON CONFLICT(trace_id) DO UPDATE SET
                        start_time_ns = MIN(traces.start_time_ns, excluded.start_time_ns),
                        end_time_ns   = MAX(traces.end_time_ns,   excluded.end_time_ns),
                        duration_ns   = MAX(traces.end_time_ns, excluded.end_time_ns)
                                      - MIN(traces.start_time_ns, excluded.start_time_ns),
                        span_count    = traces.span_count + 1,
                        status_code   = CASE WHEN excluded.status_code > traces.status_code
                                        THEN excluded.status_code ELSE traces.status_code END,
                        updated_at    = datetime('now')"@,
        trace_statement(service, resource, span).params.len() == 8,
        ({
            let s = trace_statement(service, resource, span);
            let kept = map![
                "trace_id"@ => s.params[0],
                "service_name"@ => s.params[1],
                "root_span_name"@ => s.params[2],
                "start_time_ns"@ => s.params[3],
                "end_time_ns"@ => s.params[4],
                "duration_ns"@ => s.params[5],
                "status_code"@ => s.params[6],
                "span_count"@ => SqlCell::Integer(1),
                "resource"@ => s.params[7],
                "updated_at"@ => SqlCell::Text(now),
            ];
            let row = seq![
                kept["trace_id"@],
                kept["service_name"@],
                kept["root_span_name"@],
                kept["start_time_ns"@],
                kept["end_time_ns"@],
                kept["duration_ns"@],
                kept["status_code"@],
                kept["span_count"@],
                kept["resource"@],
                kept["updated_at"@],
            ];
            let json = trace_json(row);
            let start = span.start_time_unix_nano as i64;
            let end = span.end_time_unix_nano as i64;
            &&& row_fits(row, trace_shape())
            &&& no_nulls(row)
            &&& json.get("trace_id"@) == Some(JsonTree::Text(hex_of(span.trace_id)))
            &&& json.get("service_name"@) == Some(JsonTree::Text(service))
            &&& json.get("root_span_name"@) == Some(JsonTree::Text(span.name))
            &&& json.get("start_time_ns"@) == Some(int_tree(start))
            &&& json.get("end_time_ns"@) == Some(int_tree(end))
            &&& json.get("status_code"@) == Some(int_tree(
                match span.status {
                    Some(status) => status.0 as i64,
                    None => 0,
                },
            ))
            &&& json.get("span_count"@) == Some(JsonTree::UInt(1))
            &&& json.get("resource"@) == Some(parsed_or(resource, JsonTree::empty()))
            &&& json.get("updated_at"@) == Some(JsonTree::Text(now))
            &&& 0 <= start <= end ==> {
                &&& json.get_uint("start_time_ns"@) == Some(start as u64)
                &&& json.get_uint("end_time_ns"@) == Some(end as u64)
                &&& json.get_uint("duration_ns"@) == Some((end - start) as u64)
            }
        }),
{
    lemma_trace_columns();
}

/// Each field of a task that is read from a row is from the column of its name.
pub proof fn law_task_rows_are_read_by_name(kept: Map<Seq<char>, SqlCell>)
    ensures
        crate::task_db::TASK_COLS@
            == "id, task_type, status, agent_id, payload, run_id, current_stage, summary, parent_id, created_at, updated_at"@,
        ({
            let row = seq![
                kept["id"@],
                kept["task_type"@],
                kept["status"@],
                kept["agent_id"@],
                kept["payload"@],
                kept["run_id"@],
                kept["current_stage"@],
                kept["summary"@],
                kept["parent_id"@],
                kept["created_at"@],
                kept["updated_at"@],
            ];
            &&& task_of(row) is Ok
                <==> kept["id"@] is Text && kept["task_type"@] is Text && kept["status"@] is Text
                    && kept["agent_id"@] is Text && kept["payload"@] is Text
                        && kept["created_at"@] is Text && kept["updated_at"@] is Text
            &&& task_of(row) matches Ok(item) ==> {
                &&& kept["id"@] == SqlCell::Text(item.id)
                &&& kept["task_type"@] == SqlCell::Text(item.task_type)
                &&& kept["status"@] == SqlCell::Text(item.status)
                &&& kept["agent_id"@] == SqlCell::Text(item.agent_id)
                &&& kept["payload"@] == SqlCell::Text(item.payload)
                &&& item.run_id == text_or(cell_text(kept["run_id"@]), ""@)
                &&& item.current_stage == text_or(cell_text(kept["current_stage"@]), ""@)
                &&& item.summary == text_or(cell_text(kept["summary"@]), ""@)
                &&& item.parent_id == text_or(cell_text(kept["parent_id"@]), ""@)
                &&& kept["created_at"@] == SqlCell::Text(item.created_at)
                &&& kept["updated_at"@] == SqlCell::Text(item.updated_at)
            }
        }),
{
}

/// Each field of a log entry that is read from a row is from the column of its name.
pub proof fn law_log_rows_are_read_by_name(kept: Map<Seq<char>, SqlCell>)
    ensures
        crate::task_db::LIST_TASK_LOGS@ == "SELECT id, task_id, level, message, detail, agent_id, stage, created_at
             FROM task_logs WHERE task_id = ?1
             ORDER BY created_at ASC LIMIT ?2 OFFSET ?3"@,
        ({
            let row = seq![
                kept["id"@],
                kept["task_id"@],
                kept["level"@],
                kept["message"@],
                kept["detail"@],
                kept["agent_id"@],
                kept["stage"@],
                kept["created_at"@],
            ];
            &&& task_log_of(row) is Ok
                <==> kept["id"@] is Text && kept["task_id"@] is Text && kept["level"@] is Text
                    && kept["message"@] is Text && kept["created_at"@] is Text
            &&& task_log_of(row) matches Ok(item) ==> {
                &&& kept["id"@] == SqlCell::Text(item.id)
                &&& kept["task_id"@] == SqlCell::Text(item.task_id)
                &&& kept["level"@] == SqlCell::Text(item.level)
                &&& kept["message"@] == SqlCell::Text(item.message)
                &&& item.detail == text_or(cell_text(kept["detail"@]), ""@)
                &&& item.agent_id == text_or(cell_text(kept["agent_id"@]), ""@)
                &&& item.stage == text_or(cell_text(kept["stage"@]), ""@)
                &&& kept["created_at"@] == SqlCell::Text(item.created_at)
            }
        }),
{
}

/// Each field of a stage that is read from a row is from the column of its name.
pub proof fn law_stage_rows_are_read_by_name(kept: Map<Seq<char>, SqlCell>)
    ensures
        crate::task_db::PIPELINE_COLS@
            == "id, run_id, stage, artifact_id, status, agent_id, result, error, created_at, updated_at, input_metadata"@,
        ({
            let row = seq![
                kept["id"@],
                kept["run_id"@],
                kept["stage"@],
                kept["artifact_id"@],
                kept["status"@],
                kept["agent_id"@],
                kept["result"@],
                kept["error"@],
                kept["created_at"@],
                kept["updated_at"@],
                kept["input_metadata"@],
            ];
            &&& pipeline_of(row) is Ok
                <==> kept["id"@] is Text && kept["run_id"@] is Text && kept["stage"@] is Text
                    && kept["artifact_id"@] is Text && kept["status"@] is Text
                        && kept["created_at"@] is Text && kept["updated_at"@] is Text
            &&& pipeline_of(row) matches Ok(item) ==> {
                &&& kept["id"@] == SqlCell::Text(item.id)
                &&& kept["run_id"@] == SqlCell::Text(item.run_id)
                &&& kept["stage"@] == SqlCell::Text(item.stage)
                &&& kept["artifact_id"@] == SqlCell::Text(item.artifact_id)
                &&& kept["status"@] == SqlCell::Text(item.status)
                &&& item.agent_id == text_or(cell_text(kept["agent_id"@]), ""@)
                &&& item.result == cell_text(kept["result"@])
                &&& item.error == cell_text(kept["error"@])
                &&& kept["created_at"@] == SqlCell::Text(item.created_at)
                &&& kept["updated_at"@] == SqlCell::Text(item.updated_at)
                &&& item.input_metadata == text_or(cell_text(kept["input_metadata"@]), "{}"@)
            }
        }),
{
}

/// Each field of a cron job that is read from a row is from the column of its name.
pub proof fn law_cron_rows_are_read_by_name(kept: Map<Seq<char>, SqlCell>)
    ensures
        crate::task_db::LIST_CRON_JOBS@ == "SELECT id, name, schedule, enabled, last_run_at, next_run_at,
                    last_status, last_error, created_at
             FROM cron_jobs ORDER BY name"@,
        ({
            let row = seq![
                kept["id"@],
                kept["name"@],
                kept["schedule"@],
                kept["enabled"@],
                kept["last_run_at"@],
                kept["next_run_at"@],
                kept["last_status"@],
                kept["last_error"@],
                kept["created_at"@],
            ];
            &&& cron_job_of(row) is Ok
                <==> kept["id"@] is Text && kept["name"@] is Text && kept["schedule"@] is Text
                    && kept["created_at"@] is Text
            &&& cron_job_of(row) matches Ok(item) ==> {
                &&& kept["id"@] == SqlCell::Text(item.id)
                &&& kept["name"@] == SqlCell::Text(item.name)
                &&& kept["schedule"@] == SqlCell::Text(item.schedule)
                &&& item.enabled == (integer_or(kept["enabled"@], 1) != 0)
                &&& item.last_run_at == cell_text(kept["last_run_at"@])
                &&& item.next_run_at == cell_text(kept["next_run_at"@])
                &&& item.last_status == cell_text(kept["last_status"@])
                &&& item.last_error == cell_text(kept["last_error"@])
                &&& kept["created_at"@] == SqlCell::Text(item.created_at)
            }
        }),
{
}

/// Each field of an agent that is read from a row is from the column of its name.
pub proof fn law_agent_rows_are_read_by_name(kept: Map<Seq<char>, SqlCell>)
    ensures
        crate::task_db::LIST_AGENTS@ == "SELECT agent_id, role, status, last_heartbeat, capabilities, skills, pid, preferred_model,
              soul_content, binary_path, version, first_registered_at, registration_count,
              crash_count, socket_id
             FROM agent_status ORDER BY agent_id"@,
        crate::task_db::GET_AGENT@ == "SELECT agent_id, role, status, last_heartbeat, capabilities, skills, pid, preferred_model,
              soul_content, binary_path, version, first_registered_at, registration_count,
              crash_count, socket_id
             FROM agent_status WHERE agent_id = ?1"@,
        ({
            let row = seq![
                kept["agent_id"@],
                kept["role"@],
                kept["status"@],
                kept["last_heartbeat"@],
                kept["capabilities"@],
                kept["skills"@],
                kept["pid"@],
                kept["preferred_model"@],
                kept["soul_content"@],
                kept["binary_path"@],
                kept["version"@],
                kept["first_registered_at"@],
                kept["registration_count"@],
                kept["crash_count"@],
                kept["socket_id"@],
            ];
            &&& agent_of(row) is Ok
                <==> kept["agent_id"@] is Text && kept["role"@] is Text
                    && kept["status"@] is Text && kept["last_heartbeat"@] is Text
            &&& agent_of(row) matches Ok(item) ==> {
                &&& kept["agent_id"@] == SqlCell::Text(item.agent_id)
                &&& kept["role"@] == SqlCell::Text(item.role)
                &&& kept["status"@] == SqlCell::Text(item.status)
                &&& kept["last_heartbeat"@] == SqlCell::Text(item.last_heartbeat)
                &&& item.capabilities == text_or(cell_text(kept["capabilities"@]), "[]"@)
                &&& item.skills == text_or(cell_text(kept["skills"@]), "[]"@)
                &&& item.pid == integer_or(kept["pid"@], 0)
                &&& item.preferred_model == text_or(cell_text(kept["preferred_model"@]), ""@)
                &&& item.soul_content == text_or(cell_text(kept["soul_content"@]), ""@)
                &&& item.binary_path == text_or(cell_text(kept["binary_path"@]), ""@)
                &&& item.version == text_or(cell_text(kept["version"@]), ""@)
                &&& item.first_registered_at
                    == text_or(cell_text(kept["first_registered_at"@]), ""@)
                &&& item.registration_count == integer_or(kept["registration_count"@], 0)
                &&& item.crash_count == integer_or(kept["crash_count"@], 0)
                &&& item.socket_id == text_or(cell_text(kept["socket_id"@]), ""@)
            }
        }),
{
}

/// Each field of a change of the config that is read from a row is from the column of its name.
pub proof fn law_config_rows_are_read_by_name(kept: Map<Seq<char>, SqlCell>)
    ensures
        crate::task_db::LIST_CONFIG_HISTORY@ == "SELECT id, config_hash, action, backup_path, timestamp
             FROM config_history ORDER BY timestamp DESC LIMIT ?1"@,
        ({
            let row = seq![
                kept["id"@],
                kept["config_hash"@],
                kept["action"@],
                kept["backup_path"@],
                kept["timestamp"@],
            ];
            &&& config_history_of(row) is Ok
                <==> kept["id"@] is Text && kept["config_hash"@] is Text
                    && kept["action"@] is Text && kept["timestamp"@] is Text
            &&& config_history_of(row) matches Ok(item) ==> {
                &&& kept["id"@] == SqlCell::Text(item.id)
                &&& kept["config_hash"@] == SqlCell::Text(item.config_hash)
                &&& kept["action"@] == SqlCell::Text(item.action)
                &&& item.backup_path == text_or(cell_text(kept["backup_path"@]), ""@)
                &&& kept["timestamp"@] == SqlCell::Text(item.timestamp)
            }
        }),
{
}

/// Each field of a memory that is read from a row is from the column of its name.
pub proof fn law_memory_rows_are_read_by_name(kept: Map<Seq<char>, SqlCell>)
    ensures
        crate::memory_db::GET_MEMORY@ == "SELECT id, scope, category, key, metadata, tags, agent_id, run_id, skill_id, relevance_score, access_count, created_at, updated_at
             FROM memories WHERE id = ?1"@,
        crate::memory_db::GET_MEMORY_BY_KEY@ == "SELECT id, scope, category, key, metadata, tags, agent_id, run_id, skill_id, relevance_score, access_count, created_at, updated_at
             FROM memories WHERE key = ?1"@,
        crate::memory_db::LIST_MEMORIES@ == "SELECT id, scope, category, key, metadata, tags, agent_id, run_id, skill_id, relevance_score, access_count, created_at, updated_at
         FROM memories WHERE 1=1"@,
        crate::memory_db::SEARCH_MEMORIES@ == "SELECT DISTINCT m.id, m.scope, m.category, m.key, m.metadata, m.tags, m.agent_id, m.run_id, m.skill_id, m.relevance_score, m.access_count, m.created_at, m.updated_at
         FROM memories m
         INNER JOIN memory_tiers mt ON m.id = mt.memory_id
         WHERE 1=1"@,
        crate::memory_db::LIST_MEMORIES_FOR_TASK@ == "SELECT m.id, m.scope, m.category, m.key, m.metadata, m.tags, m.agent_id, m.run_id, m.skill_id, m.relevance_score, m.access_count, m.created_at, m.updated_at
             FROM memories m
             INNER JOIN task_memories tm ON m.id = tm.memory_id
             WHERE tm.task_id = ?1
             ORDER BY m.relevance_score DESC, m.updated_at DESC
             LIMIT ?2"@,
        ({
            let row = seq![
                kept["id"@],
                kept["scope"@],
                kept["category"@],
                kept["key"@],
                kept["metadata"@],
                kept["tags"@],
                kept["agent_id"@],
                kept["run_id"@],
                kept["skill_id"@],
                kept["relevance_score"@],
                kept["access_count"@],
                kept["created_at"@],
                kept["updated_at"@],
            ];
            &&& memory_of(row) is Ok
                <==> kept["id"@] is Text && kept["scope"@] is Text && kept["category"@] is Text
                    && kept["key"@] is Text && kept["created_at"@] is Text
                        && kept["updated_at"@] is Text
            &&& memory_of(row) matches Ok(item) ==> {
                &&& kept["id"@] == SqlCell::Text(item.id)
                &&& kept["scope"@] == SqlCell::Text(item.scope)
                &&& kept["category"@] == SqlCell::Text(item.category)
                &&& kept["key"@] == SqlCell::Text(item.key)
                &&& item.metadata == text_or(cell_text(kept["metadata"@]), "{}"@)
                &&& item.tags == text_or(cell_text(kept["tags"@]), ""@)
                &&& item.agent_id == text_or(cell_text(kept["agent_id"@]), ""@)
                &&& item.run_id == text_or(cell_text(kept["run_id"@]), ""@)
                &&& item.skill_id == text_or(cell_text(kept["skill_id"@]), ""@)
                &&& item.relevance_score == text_or(cell_decimal(kept["relevance_score"@]), "0"@)
                &&& item.access_count == integer_or(kept["access_count"@], 0)
                &&& kept["created_at"@] == SqlCell::Text(item.created_at)
                &&& kept["updated_at"@] == SqlCell::Text(item.updated_at)
            }
        }),
{
}

/// Each field of a tier of a memory that is read from a row is from the column of its name.
pub proof fn law_tier_rows_are_read_by_name(kept: Map<Seq<char>, SqlCell>)
    ensures
        crate::memory_db::GET_TIERS@ == "SELECT id, memory_id, tier, content, created_at, updated_at
             FROM memory_tiers WHERE memory_id = ?1 ORDER BY tier"@,
        crate::memory_db::GET_TIER@ == "SELECT id, memory_id, tier, content, created_at, updated_at
             FROM memory_tiers WHERE memory_id = ?1 AND tier = ?2"@,
        ({
            let row = seq![
                kept["id"@],
                kept["memory_id"@],
                kept["tier"@],
                kept["content"@],
                kept["created_at"@],
                kept["updated_at"@],
            ];
            &&& tier_of(row) is Ok
                <==> kept["id"@] is Text && kept["memory_id"@] is Text && kept["tier"@] is Text
                    && kept["created_at"@] is Text && kept["updated_at"@] is Text
            &&& tier_of(row) matches Ok(item) ==> {
                &&& kept["id"@] == SqlCell::Text(item.id)
                &&& kept["memory_id"@] == SqlCell::Text(item.memory_id)
                &&& kept["tier"@] == SqlCell::Text(item.tier)
                &&& item.content == text_or(cell_text(kept["content"@]), ""@)
                &&& kept["created_at"@] == SqlCell::Text(item.created_at)
                &&& kept["updated_at"@] == SqlCell::Text(item.updated_at)
            }
        }),
{
}

/// Each field of a memory of a task that is read from a row is from the column of its name.
pub proof fn law_binding_rows_are_read_by_name(kept: Map<Seq<char>, SqlCell>)
    ensures
        ({
            let row = seq![
                kept["id"@],
                kept["task_id"@],
                kept["memory_id"@],
                kept["created_at"@],
            ];
            &&& task_memory_of(row) is Ok
                <==> kept["id"@] is Text && kept["task_id"@] is Text
                    && kept["memory_id"@] is Text && kept["created_at"@] is Text
            &&& task_memory_of(row) matches Ok(item) ==> {
                &&& kept["id"@] == SqlCell::Text(item.id)
                &&& kept["task_id"@] == SqlCell::Text(item.task_id)
                &&& kept["memory_id"@] == SqlCell::Text(item.memory_id)
                &&& kept["created_at"@] == SqlCell::Text(item.created_at)
            }
        }),
{
}

/// Each field of the number of memories of a scope that is read from a row is from the column of its name.
pub proof fn law_scope_counts_are_read_by_name(kept: Map<Seq<char>, SqlCell>)
    ensures
        crate::memory_db::COUNT_MEMORIES_BY_SCOPE@
            == "SELECT scope, COUNT(*) as cnt FROM memories GROUP BY scope ORDER BY cnt DESC"@,
        ({
            let row = seq![
                kept["scope"@],
                kept["COUNT(*)"@],
            ];
            &&& scope_count_of(row) is Ok
                <==> kept["scope"@] is Text && kept["COUNT(*)"@] is Integer
            &&& scope_count_of(row) matches Ok(item) ==> {
                &&& kept["scope"@] == SqlCell::Text(item.scope)
                &&& kept["COUNT(*)"@] == SqlCell::Integer(item.count)
            }
        }),
{
}

/// Each field of a change of the status of an agent that is read from a row is from the column of its name.
pub proof fn law_change_rows_are_read_by_name(kept: Map<Seq<char>, SqlCell>)
    ensures
        crate::history::LIST_AGENT_HISTORY@ == "SELECT id, agent_id, prev_status, new_status, trigger, detail, pid, created_at
         FROM agent_history WHERE agent_id = ?1 ORDER BY created_at DESC LIMIT ?2 OFFSET ?3"@,
        ({
            let row = seq![
                kept["id"@],
                kept["agent_id"@],
                kept["prev_status"@],
                kept["new_status"@],
                kept["trigger"@],
                kept["detail"@],
                kept["pid"@],
                kept["created_at"@],
            ];
            &&& history_of(row) is Ok
                <==> kept["id"@] is Text && kept["agent_id"@] is Text
                    && kept["new_status"@] is Text && kept["created_at"@] is Text
            &&& history_of(row) matches Ok(item) ==> {
                &&& kept["id"@] == SqlCell::Text(item.id)
                &&& kept["agent_id"@] == SqlCell::Text(item.agent_id)
                &&& item.prev_status == text_or(cell_text(kept["prev_status"@]), ""@)
                &&& kept["new_status"@] == SqlCell::Text(item.new_status)
                &&& item.trigger == text_or(cell_text(kept["trigger"@]), ""@)
                &&& item.detail == text_or(cell_text(kept["detail"@]), ""@)
                &&& item.pid == integer_or(kept["pid"@], 0)
                &&& kept["created_at"@] == SqlCell::Text(item.created_at)
            }
        }),
{
}

/// Each field of an event that is read from a row is from the column of its name.
pub proof fn law_event_rows_are_read_by_name(kept: Map<Seq<char>, SqlCell>)
    ensures
        crate::history::LIST_SOCKET_EVENTS@ == "SELECT id, event_name, direction, agent_id, socket_id, room, payload, created_at
         FROM socket_events WHERE 1=1"@,
        ({
            let row = seq![
                kept["id"@],
                kept["event_name"@],
                kept["direction"@],
                kept["agent_id"@],
                kept["socket_id"@],
                kept["room"@],
                kept["payload"@],
                kept["created_at"@],
            ];
            &&& event_of(row) is Ok
                <==> kept["id"@] is Text && kept["event_name"@] is Text
                    && kept["created_at"@] is Text
            &&& event_of(row) matches Ok(item) ==> {
                &&& kept["id"@] == SqlCell::Text(item.id)
                &&& kept["event_name"@] == SqlCell::Text(item.event_name)
                &&& item.direction == text_or(cell_text(kept["direction"@]), "inbound"@)
                &&& item.agent_id == text_or(cell_text(kept["agent_id"@]), ""@)
                &&& item.socket_id == text_or(cell_text(kept["socket_id"@]), ""@)
                &&& item.room == text_or(cell_text(kept["room"@]), ""@)
                &&& item.payload == text_or(cell_text(kept["payload"@]), "{}"@)
                &&& kept["created_at"@] == SqlCell::Text(item.created_at)
            }
        }),
{
}

/// The names of the members are distinct.
proof fn lemma_task_json_names()
    ensures
        "id"@ != "task_type"@,
        "id"@ != "status"@,
        "id"@ != "agent_id"@,
        "id"@ != "payload"@,
        "id"@ != "run_id"@,
        "id"@ != "current_stage"@,
        "id"@ != "summary"@,
        "id"@ != "parent_id"@,
        "id"@ != "created_at"@,
        "id"@ != "updated_at"@,
        "task_type"@ != "status"@,
        "task_type"@ != "agent_id"@,
        "task_type"@ != "payload"@,
        "task_type"@ != "run_id"@,
        "task_type"@ != "current_stage"@,
        "task_type"@ != "summary"@,
        "task_type"@ != "parent_id"@,
        "task_type"@ != "created_at"@,
        "task_type"@ != "updated_at"@,
        "status"@ != "agent_id"@,
        "status"@ != "payload"@,
        "status"@ != "run_id"@,
        "status"@ != "current_stage"@,
        "status"@ != "summary"@,
        "status"@ != "parent_id"@,
        "status"@ != "created_at"@,
        "status"@ != "updated_at"@,
        "agent_id"@ != "payload"@,
        "agent_id"@ != "run_id"@,
        "agent_id"@ != "current_stage"@,
        "agent_id"@ != "summary"@,
        "agent_id"@ != "parent_id"@,
        "agent_id"@ != "created_at"@,
        "agent_id"@ != "updated_at"@,
        "payload"@ != "run_id"@,
        "payload"@ != "current_stage"@,
        "payload"@ != "summary"@,
        "payload"@ != "parent_id"@,
        "payload"@ != "created_at"@,
        "payload"@ != "updated_at"@,
        "run_id"@ != "current_stage"@,
        "run_id"@ != "summary"@,
        "run_id"@ != "parent_id"@,
        "run_id"@ != "created_at"@,
        "run_id"@ != "updated_at"@,
        "current_stage"@ != "summary"@,
        "current_stage"@ != "parent_id"@,
        "current_stage"@ != "created_at"@,
        "current_stage"@ != "updated_at"@,
        "summary"@ != "parent_id"@,
        "summary"@ != "created_at"@,
        "summary"@ != "updated_at"@,
        "parent_id"@ != "created_at"@,
        "parent_id"@ != "updated_at"@,
        "created_at"@ != "updated_at"@,
{
    reveal_strlit("id");
    reveal_strlit("task_type");
    reveal_strlit("status");
    reveal_strlit("agent_id");
    reveal_strlit("payload");
    reveal_strlit("run_id");
    reveal_strlit("current_stage");
    reveal_strlit("summary");
    reveal_strlit("parent_id");
    reveal_strlit("created_at");
    reveal_strlit("updated_at");
    assert("id"@.len() != "task_type"@.len());
    assert("id"@.len() != "status"@.len());
    assert("id"@.len() != "agent_id"@.len());
    assert("id"@.len() != "payload"@.len());
    assert("id"@.len() != "run_id"@.len());
    assert("id"@.len() != "current_stage"@.len());
    assert("id"@.len() != "summary"@.len());
    assert("id"@.len() != "parent_id"@.len());
    assert("id"@.len() != "created_at"@.len());
    assert("id"@.len() != "updated_at"@.len());
    assert("task_type"@.len() != "status"@.len());
    assert("task_type"@.len() != "agent_id"@.len());
    assert("task_type"@.len() != "payload"@.len());
    assert("task_type"@.len() != "run_id"@.len());
    assert("task_type"@.len() != "current_stage"@.len());
    assert("task_type"@.len() != "summary"@.len());
    assert("task_type"@[0] == 't' && "parent_id"@[0] == 'p');
    assert("task_type"@.len() != "created_at"@.len());
    assert("task_type"@.len() != "updated_at"@.len());
    assert("status"@.len() != "agent_id"@.len());
    assert("status"@.len() != "payload"@.len());
    assert("status"@[0] == 's' && "run_id"@[0] == 'r');
    assert("status"@.len() != "current_stage"@.len());
    assert("status"@.len() != "summary"@.len());
    assert("status"@.len() != "parent_id"@.len());
    assert("status"@.len() != "created_at"@.len());
    assert("status"@.len() != "updated_at"@.len());
    assert("agent_id"@.len() != "payload"@.len());
    assert("agent_id"@.len() != "run_id"@.len());
    assert("agent_id"@.len() != "current_stage"@.len());
    assert("agent_id"@.len() != "summary"@.len());
    assert("agent_id"@.len() != "parent_id"@.len());
    assert("agent_id"@.len() != "created_at"@.len());
    assert("agent_id"@.len() != "updated_at"@.len());
    assert("payload"@.len() != "run_id"@.len());
    assert("payload"@.len() != "current_stage"@.len());
    assert("payload"@[0] == 'p' && "summary"@[0] == 's');
    assert("payload"@.len() != "parent_id"@.len());
    assert("payload"@.len() != "created_at"@.len());
    assert("payload"@.len() != "updated_at"@.len());
    assert("run_id"@.len() != "current_stage"@.len());
    assert("run_id"@.len() != "summary"@.len());
    assert("run_id"@.len() != "parent_id"@.len());
    assert("run_id"@.len() != "created_at"@.len());
    assert("run_id"@.len() != "updated_at"@.len());
    assert("current_stage"@.len() != "summary"@.len());
    assert("current_stage"@.len() != "parent_id"@.len());
    assert("current_stage"@.len() != "created_at"@.len());
    assert("current_stage"@.len() != "updated_at"@.len());
    assert("summary"@.len() != "parent_id"@.len());
    assert("summary"@.len() != "created_at"@.len());
    assert("summary"@.len() != "updated_at"@.len());
    assert("parent_id"@.len() != "created_at"@.len());
    assert("parent_id"@.len() != "updated_at"@.len());
    assert("created_at"@[0] == 'c' && "updated_at"@[0] == 'u');
}

/// Each member of a task as JSON is the field of its name, and there are no others.
pub proof fn law_task_json(row: TaskView)
    ensures
        ({
            let json = task_json(row);
            &&& json.get("id"@) == Some(JsonTree::Text(row.id))
            &&& json.get("task_type"@) == Some(JsonTree::Text(row.task_type))
            &&& json.get("status"@) == Some(JsonTree::Text(row.status))
            &&& json.get("agent_id"@) == Some(JsonTree::Text(row.agent_id))
            &&& json.get("payload"@) == Some(parsed_or(row.payload, JsonTree::empty()))
            &&& json.get("run_id"@) == Some(JsonTree::Text(row.run_id))
            &&& json.get("current_stage"@) == Some(JsonTree::Text(row.current_stage))
            &&& json.get("summary"@) == Some(JsonTree::Text(row.summary))
            &&& json.get("parent_id"@) == Some(JsonTree::Text(row.parent_id))
            &&& json.get("created_at"@) == Some(JsonTree::Text(row.created_at))
            &&& json.get("updated_at"@) == Some(JsonTree::Text(row.updated_at))
            &&& forall|key: Seq<char>| #[trigger] json.get(key) is Some
                ==> key == "id"@ || key == "task_type"@ || key == "status"@ || key == "agent_id"@
                    || key == "payload"@ || key == "run_id"@ || key == "current_stage"@
                        || key == "summary"@ || key == "parent_id"@ || key == "created_at"@
                            || key == "updated_at"@
        }),
{
    lemma_task_json_names();
}

/// The names of the members are distinct.
proof fn lemma_log_json_names()
    ensures
        "id"@ != "task_id"@,
        "id"@ != "level"@,
        "id"@ != "message"@,
        "id"@ != "detail"@,
        "id"@ != "agent_id"@,
        "id"@ != "stage"@,
        "id"@ != "created_at"@,
        "task_id"@ != "level"@,
        "task_id"@ != "message"@,
        "task_id"@ != "detail"@,
        "task_id"@ != "agent_id"@,
        "task_id"@ != "stage"@,
        "task_id"@ != "created_at"@,
        "level"@ != "message"@,
        "level"@ != "detail"@,
        "level"@ != "agent_id"@,
        "level"@ != "stage"@,
        "level"@ != "created_at"@,
        "message"@ != "detail"@,
        "message"@ != "agent_id"@,
        "message"@ != "stage"@,
        "message"@ != "created_at"@,
        "detail"@ != "agent_id"@,
        "detail"@ != "stage"@,
        "detail"@ != "created_at"@,
        "agent_id"@ != "stage"@,
        "agent_id"@ != "created_at"@,
        "stage"@ != "created_at"@,
{
    reveal_strlit("id");
    reveal_strlit("task_id");
    reveal_strlit("level");
    reveal_strlit("message");
    reveal_strlit("detail");
    reveal_strlit("agent_id");
    reveal_strlit("stage");
    reveal_strlit("created_at");
    assert("id"@.len() != "task_id"@.len());
    assert("id"@.len() != "level"@.len());
    assert("id"@.len() != "message"@.len());
    assert("id"@.len() != "detail"@.len());
    assert("id"@.len() != "agent_id"@.len());
    assert("id"@.len() != "stage"@.len());
    assert("id"@.len() != "created_at"@.len());
    assert("task_id"@.len() != "level"@.len());
    assert("task_id"@[0] == 't' && "message"@[0] == 'm');
    assert("task_id"@.len() != "detail"@.len());
    assert("task_id"@.len() != "agent_id"@.len());
    assert("task_id"@.len() != "stage"@.len());
    assert("task_id"@.len() != "created_at"@.len());
    assert("level"@.len() != "message"@.len());
    assert("level"@.len() != "detail"@.len());
    assert("level"@.len() != "agent_id"@.len());
    assert("level"@[0] == 'l' && "stage"@[0] == 's');
    assert("level"@.len() != "created_at"@.len());
    assert("message"@.len() != "detail"@.len());
    assert("message"@.len() != "agent_id"@.len());
    assert("message"@.len() != "stage"@.len());
    assert("message"@.len() != "created_at"@.len());
    assert("detail"@.len() != "agent_id"@.len());
    assert("detail"@.len() != "stage"@.len());
    assert("detail"@.len() != "created_at"@.len());
    assert("agent_id"@.len() != "stage"@.len());
    assert("agent_id"@.len() != "created_at"@.len());
    assert("stage"@.len() != "created_at"@.len());
}

/// Each member of a log entry as JSON is the field of its name, and there are no others.
pub proof fn law_log_json(row: TaskLogView)
    ensures
        ({
            let json = log_json(row);
            &&& json.get("id"@) == Some(JsonTree::Text(row.id))
            &&& json.get("task_id"@) == Some(JsonTree::Text(row.task_id))
            &&& json.get("level"@) == Some(JsonTree::Text(row.level))
            &&& json.get("message"@) == Some(JsonTree::Text(row.message))
            &&& json.get("detail"@) == Some(JsonTree::Text(row.detail))
            &&& json.get("agent_id"@) == Some(JsonTree::Text(row.agent_id))
            &&& json.get("stage"@) == Some(JsonTree::Text(row.stage))
            &&& json.get("created_at"@) == Some(JsonTree::Text(row.created_at))
            &&& forall|key: Seq<char>| #[trigger] json.get(key) is Some
                ==> key == "id"@ || key == "task_id"@ || key == "level"@ || key == "message"@
                    || key == "detail"@ || key == "agent_id"@ || key == "stage"@
                        || key == "created_at"@
        }),
{
    lemma_log_json_names();
}

/// The names of the members are distinct.
proof fn lemma_stage_json_names()
    ensures
        "id"@ != "run_id"@,
        "id"@ != "stage"@,
        "id"@ != "artifact_id"@,
        "id"@ != "status"@,
        "id"@ != "agent_id"@,
        "id"@ != "result"@,
        "id"@ != "error"@,
        "id"@ != "created_at"@,
        "id"@ != "updated_at"@,
        "run_id"@ != "stage"@,
        "run_id"@ != "artifact_id"@,
        "run_id"@ != "status"@,
        "run_id"@ != "agent_id"@,
        "run_id"@ != "result"@,
        "run_id"@ != "error"@,
        "run_id"@ != "created_at"@,
        "run_id"@ != "updated_at"@,
        "stage"@ != "artifact_id"@,
        "stage"@ != "status"@,
        "stage"@ != "agent_id"@,
        "stage"@ != "result"@,
        "stage"@ != "error"@,
        "stage"@ != "created_at"@,
        "stage"@ != "updated_at"@,
        "artifact_id"@ != "status"@,
        "artifact_id"@ != "agent_id"@,
        "artifact_id"@ != "result"@,
        "artifact_id"@ != "error"@,
        "artifact_id"@ != "created_at"@,
        "artifact_id"@ != "updated_at"@,
        "status"@ != "agent_id"@,
        "status"@ != "result"@,
        "status"@ != "error"@,
        "status"@ != "created_at"@,
        "status"@ != "updated_at"@,
        "agent_id"@ != "result"@,
        "agent_id"@ != "error"@,
        "agent_id"@ != "created_at"@,
        "agent_id"@ != "updated_at"@,
        "result"@ != "error"@,
        "result"@ != "created_at"@,
        "result"@ != "updated_at"@,
        "error"@ != "created_at"@,
        "error"@ != "updated_at"@,
        "created_at"@ != "updated_at"@,
{
    reveal_strlit("id");
    reveal_strlit("run_id");
    reveal_strlit("stage");
    reveal_strlit("artifact_id");
    reveal_strlit("status");
    reveal_strlit("agent_id");
    reveal_strlit("result");
    reveal_strlit("error");
    reveal_strlit("created_at");
    reveal_strlit("updated_at");
    assert("id"@.len() != "run_id"@.len());
    assert("id"@.len() != "stage"@.len());
    assert("id"@.len() != "artifact_id"@.len());
    assert("id"@.len() != "status"@.len());
    assert("id"@.len() != "agent_id"@.len());
    assert("id"@.len() != "result"@.len());
    assert("id"@.len() != "error"@.len());
    assert("id"@.len() != "created_at"@.len());
    assert("id"@.len() != "updated_at"@.len());
    assert("run_id"@.len() != "stage"@.len());
    assert("run_id"@.len() != "artifact_id"@.len());
    assert("run_id"@[0] == 'r' && "status"@[0] == 's');
    assert("run_id"@.len() != "agent_id"@.len());
    assert("run_id"@[1] == 'u' && "result"@[1] == 'e');
    assert("run_id"@.len() != "error"@.len());
    assert("run_id"@.len() != "created_at"@.len());
    assert("run_id"@.len() != "updated_at"@.len());
    assert("stage"@.len() != "artifact_id"@.len());
    assert("stage"@.len() != "status"@.len());
    assert("stage"@.len() != "agent_id"@.len());
    assert("stage"@.len() != "result"@.len());
    assert("stage"@[0] == 's' && "error"@[0] == 'e');
    assert("stage"@.len() != "created_at"@.len());
    assert("stage"@.len() != "updated_at"@.len());
    assert("artifact_id"@.len() != "status"@.len());
    assert("artifact_id"@.len() != "agent_id"@.len());
    assert("artifact_id"@.len() != "result"@.len());
    assert("artifact_id"@.len() != "error"@.len());
    assert("artifact_id"@.len() != "created_at"@.len());
    assert("artifact_id"@.len() != "updated_at"@.len());
    assert("status"@.len() != "agent_id"@.len());
    assert("status"@[0] == 's' && "result"@[0] == 'r');
    assert("status"@.len() != "error"@.len());
    assert("status"@.len() != "created_at"@.len());
    assert("status"@.len() != "updated_at"@.len());
    assert("agent_id"@.len() != "result"@.len());
    assert("agent_id"@.len() != "error"@.len());
    assert("agent_id"@.len() != "created_at"@.len());
    assert("agent_id"@.len() != "updated_at"@.len());
    assert("result"@.len() != "error"@.len());
    assert("result"@.len() != "created_at"@.len());
    assert("result"@.len() != "updated_at"@.len());
    assert("error"@.len() != "created_at"@.len());
    assert("error"@.len() != "updated_at"@.len());
    assert("created_at"@[0] == 'c' && "updated_at"@[0] == 'u');
}

/// Each member of a stage as JSON is the field of its name, and there are no others.
pub proof fn law_stage_json(row: PipelineView)
    ensures
        ({
            let json = pipeline_json(row);
            &&& json.get("id"@) == Some(JsonTree::Text(row.id))
            &&& json.get("run_id"@) == Some(JsonTree::Text(row.run_id))
            &&& json.get("stage"@) == Some(JsonTree::Text(row.stage))
            &&& json.get("artifact_id"@) == Some(JsonTree::Text(row.artifact_id))
            &&& json.get("status"@) == Some(JsonTree::Text(row.status))
            &&& json.get("agent_id"@) == Some(JsonTree::Text(row.agent_id))
            &&& json.get("result"@) == Some(match row.result {
                    Some(s) => parsed_or(s, JsonTree::Null),
                    None => JsonTree::Null,
                })
            &&& json.get("error"@) == Some(opt_text_tree(row.error))
            &&& json.get("created_at"@) == Some(JsonTree::Text(row.created_at))
            &&& json.get("updated_at"@) == Some(JsonTree::Text(row.updated_at))
            &&& forall|key: Seq<char>| #[trigger] json.get(key) is Some
                ==> key == "id"@ || key == "run_id"@ || key == "stage"@ || key == "artifact_id"@
                    || key == "status"@ || key == "agent_id"@ || key == "result"@
                        || key == "error"@ || key == "created_at"@ || key == "updated_at"@
        }),
{
    lemma_stage_json_names();
}

/// The names of the members are distinct.
proof fn lemma_cron_json_names()
    ensures
        "id"@ != "name"@,
        "id"@ != "schedule"@,
        "id"@ != "enabled"@,
        "id"@ != "last_run_at"@,
        "id"@ != "next_run_at"@,
        "id"@ != "last_status"@,
        "id"@ != "last_error"@,
        "id"@ != "created_at"@,
        "name"@ != "schedule"@,
        "name"@ != "enabled"@,
        "name"@ != "last_run_at"@,
        "name"@ != "next_run_at"@,
        "name"@ != "last_status"@,
        "name"@ != "last_error"@,
        "name"@ != "created_at"@,
        "schedule"@ != "enabled"@,
        "schedule"@ != "last_run_at"@,
        "schedule"@ != "next_run_at"@,
        "schedule"@ != "last_status"@,
        "schedule"@ != "last_error"@,
        "schedule"@ != "created_at"@,
        "enabled"@ != "last_run_at"@,
        "enabled"@ != "next_run_at"@,
        "enabled"@ != "last_status"@,
        "enabled"@ != "last_error"@,
        "enabled"@ != "created_at"@,
        "last_run_at"@ != "next_run_at"@,
        "last_run_at"@ != "last_status"@,
        "last_run_at"@ != "last_error"@,
        "last_run_at"@ != "created_at"@,
        "next_run_at"@ != "last_status"@,
        "next_run_at"@ != "last_error"@,
        "next_run_at"@ != "created_at"@,
        "last_status"@ != "last_error"@,
        "last_status"@ != "created_at"@,
        "last_error"@ != "created_at"@,
{
    reveal_strlit("id");
    reveal_strlit("name");
    reveal_strlit("schedule");
    reveal_strlit("enabled");
    reveal_strlit("last_run_at");
    reveal_strlit("next_run_at");
    reveal_strlit("last_status");
    reveal_strlit("last_error");
    reveal_strlit("created_at");
    assert("id"@.len() != "name"@.len());
    assert("id"@.len() != "schedule"@.len());
    assert("id"@.len() != "enabled"@.len());
    assert("id"@.len() != "last_run_at"@.len());
    assert("id"@.len() != "next_run_at"@.len());
    assert("id"@.len() != "last_status"@.len());
    assert("id"@.len() != "last_error"@.len());
    assert("id"@.len() != "created_at"@.len());
    assert("name"@.len() != "schedule"@.len());
    assert("name"@.len() != "enabled"@.len());
    assert("name"@.len() != "last_run_at"@.len());
    assert("name"@.len() != "next_run_at"@.len());
    assert("name"@.len() != "last_status"@.len());
    assert("name"@.len() != "last_error"@.len());
    assert("name"@.len() != "created_at"@.len());
    assert("schedule"@.len() != "enabled"@.len());
    assert("schedule"@.len() != "last_run_at"@.len());
    assert("schedule"@.len() != "next_run_at"@.len());
    assert("schedule"@.len() != "last_status"@.len());
    assert("schedule"@.len() != "last_error"@.len());
    assert("schedule"@.len() != "created_at"@.len());
    assert("enabled"@.len() != "last_run_at"@.len());
    assert("enabled"@.len() != "next_run_at"@.len());
    assert("enabled"@.len() != "last_status"@.len());
    assert("enabled"@.len() != "last_error"@.len());
    assert("enabled"@.len() != "created_at"@.len());
    assert("last_run_at"@[0] == 'l' && "next_run_at"@[0] == 'n');
    assert("last_run_at"@[5] == 'r' && "last_status"@[5] == 's');
    assert("last_run_at"@.len() != "last_error"@.len());
    assert("last_run_at"@.len() != "created_at"@.len());
    assert("next_run_at"@[0] == 'n' && "last_status"@[0] == 'l');
    assert("next_run_at"@.len() != "last_error"@.len());
    assert("next_run_at"@.len() != "created_at"@.len());
    assert("last_status"@.len() != "last_error"@.len());
    assert("last_status"@.len() != "created_at"@.len());
    assert("last_error"@[0] == 'l' && "created_at"@[0] == 'c');
}

/// Each member of a cron job as JSON is the field of its name, and there are no others.
pub proof fn law_cron_json(row: CronJobView)
    ensures
        ({
            let json = cron_json(row);
            &&& json.get("id"@) == Some(JsonTree::Text(row.id))
            &&& json.get("name"@) == Some(JsonTree::Text(row.name))
            &&& json.get("schedule"@) == Some(JsonTree::Text(row.schedule))
            &&& json.get("enabled"@) == Some(JsonTree::Bool(row.enabled))
            &&& json.get("last_run_at"@) == Some(opt_text_tree(row.last_run_at))
            &&& json.get("next_run_at"@) == Some(opt_text_tree(row.next_run_at))
            &&& json.get("last_status"@) == Some(opt_text_tree(row.last_status))
            &&& json.get("last_error"@) == Some(opt_text_tree(row.last_error))
            &&& json.get("created_at"@) == Some(JsonTree::Text(row.created_at))
            &&& forall|key: Seq<char>| #[trigger] json.get(key) is Some
                ==> key == "id"@ || key == "name"@ || key == "schedule"@ || key == "enabled"@
                    || key == "last_run_at"@ || key == "next_run_at"@ || key == "last_status"@
                        || key == "last_error"@ || key == "created_at"@
        }),
{
    lemma_cron_json_names();
}

/// The names of the members are distinct.
proof fn lemma_agent_json_names()
    ensures
        "agent_id"@ != "role"@,
        "agent_id"@ != "status"@,
        "agent_id"@ != "last_heartbeat"@,
        "agent_id"@ != "capabilities"@,
        "agent_id"@ != "skills"@,
        "agent_id"@ != "pid"@,
        "agent_id"@ != "preferred_model"@,
        "agent_id"@ != "soul_content"@,
        "agent_id"@ != "binary_path"@,
        "agent_id"@ != "version"@,
        "agent_id"@ != "first_registered_at"@,
        "agent_id"@ != "registration_count"@,
        "agent_id"@ != "crash_count"@,
        "agent_id"@ != "socket_id"@,
        "role"@ != "status"@,
        "role"@ != "last_heartbeat"@,
        "role"@ != "capabilities"@,
        "role"@ != "skills"@,
        "role"@ != "pid"@,
        "role"@ != "preferred_model"@,
        "role"@ != "soul_content"@,
        "role"@ != "binary_path"@,
        "role"@ != "version"@,
        "role"@ != "first_registered_at"@,
        "role"@ != "registration_count"@,
        "role"@ != "crash_count"@,
        "role"@ != "socket_id"@,
        "status"@ != "last_heartbeat"@,
        "status"@ != "capabilities"@,
        "status"@ != "skills"@,
        "status"@ != "pid"@,
        "status"@ != "preferred_model"@,
        "status"@ != "soul_content"@,
        "status"@ != "binary_path"@,
        "status"@ != "version"@,
        "status"@ != "first_registered_at"@,
        "status"@ != "registration_count"@,
        "status"@ != "crash_count"@,
        "status"@ != "socket_id"@,
        "last_heartbeat"@ != "capabilities"@,
        "last_heartbeat"@ != "skills"@,
        "last_heartbeat"@ != "pid"@,
        "last_heartbeat"@ != "preferred_model"@,
        "last_heartbeat"@ != "soul_content"@,
        "last_heartbeat"@ != "binary_path"@,
        "last_heartbeat"@ != "version"@,
        "last_heartbeat"@ != "first_registered_at"@,
        "last_heartbeat"@ != "registration_count"@,
        "last_heartbeat"@ != "crash_count"@,
        "last_heartbeat"@ != "socket_id"@,
        "capabilities"@ != "skills"@,
        "capabilities"@ != "pid"@,
        "capabilities"@ != "preferred_model"@,
        "capabilities"@ != "soul_content"@,
        "capabilities"@ != "binary_path"@,
        "capabilities"@ != "version"@,
        "capabilities"@ != "first_registered_at"@,
        "capabilities"@ != "registration_count"@,
        "capabilities"@ != "crash_count"@,
        "capabilities"@ != "socket_id"@,
        "skills"@ != "pid"@,
        "skills"@ != "preferred_model"@,
        "skills"@ != "soul_content"@,
        "skills"@ != "binary_path"@,
        "skills"@ != "version"@,
        "skills"@ != "first_registered_at"@,
        "skills"@ != "registration_count"@,
        "skills"@ != "crash_count"@,
        "skills"@ != "socket_id"@,
        "pid"@ != "preferred_model"@,
        "pid"@ != "soul_content"@,
        "pid"@ != "binary_path"@,
        "pid"@ != "version"@,
        "pid"@ != "first_registered_at"@,
        "pid"@ != "registration_count"@,
        "pid"@ != "crash_count"@,
        "pid"@ != "socket_id"@,
        "preferred_model"@ != "soul_content"@,
        "preferred_model"@ != "binary_path"@,
        "preferred_model"@ != "version"@,
        "preferred_model"@ != "first_registered_at"@,
        "preferred_model"@ != "registration_count"@,
        "preferred_model"@ != "crash_count"@,
        "preferred_model"@ != "socket_id"@,
        "soul_content"@ != "binary_path"@,
        "soul_content"@ != "version"@,
        "soul_content"@ != "first_registered_at"@,
        "soul_content"@ != "registration_count"@,
        "soul_content"@ != "crash_count"@,
        "soul_content"@ != "socket_id"@,
        "binary_path"@ != "version"@,
        "binary_path"@ != "first_registered_at"@,
        "binary_path"@ != "registration_count"@,
        "binary_path"@ != "crash_count"@,
        "binary_path"@ != "socket_id"@,
        "version"@ != "first_registered_at"@,
        "version"@ != "registration_count"@,
        "version"@ != "crash_count"@,
        "version"@ != "socket_id"@,
        "first_registered_at"@ != "registration_count"@,
        "first_registered_at"@ != "crash_count"@,
        "first_registered_at"@ != "socket_id"@,
        "registration_count"@ != "crash_count"@,
        "registration_count"@ != "socket_id"@,
        "crash_count"@ != "socket_id"@,
{
    reveal_strlit("agent_id");
    reveal_strlit("role");
    reveal_strlit("status");
    reveal_strlit("last_heartbeat");
    reveal_strlit("capabilities");
    reveal_strlit("skills");
    reveal_strlit("pid");
    reveal_strlit("preferred_model");
    reveal_strlit("soul_content");
    reveal_strlit("binary_path");
    reveal_strlit("version");
    reveal_strlit("first_registered_at");
    reveal_strlit("registration_count");
    reveal_strlit("crash_count");
    reveal_strlit("socket_id");
    assert("agent_id"@.len() != "role"@.len());
    assert("agent_id"@.len() != "status"@.len());
    assert("agent_id"@.len() != "last_heartbeat"@.len());
    assert("agent_id"@.len() != "capabilities"@.len());
    assert("agent_id"@.len() != "skills"@.len());
    assert("agent_id"@.len() != "pid"@.len());
    assert("agent_id"@.len() != "preferred_model"@.len());
    assert("agent_id"@.len() != "soul_content"@.len());
    assert("agent_id"@.len() != "binary_path"@.len());
    assert("agent_id"@.len() != "version"@.len());
    assert("agent_id"@.len() != "first_registered_at"@.len());
    assert("agent_id"@.len() != "registration_count"@.len());
    assert("agent_id"@.len() != "crash_count"@.len());
    assert("agent_id"@.len() != "socket_id"@.len());
    assert("role"@.len() != "status"@.len());
    assert("role"@.len() != "last_heartbeat"@.len());
    assert("role"@.len() != "capabilities"@.len());
    assert("role"@.len() != "skills"@.len());
    assert("role"@.len() != "pid"@.len());
    assert("role"@.len() != "preferred_model"@.len());
    assert("role"@.len() != "soul_content"@.len());
    assert("role"@.len() != "binary_path"@.len());
    assert("role"@.len() != "version"@.len());
    assert("role"@.len() != "first_registered_at"@.len());
    assert("role"@.len() != "registration_count"@.len());
    assert("role"@.len() != "crash_count"@.len());
    assert("role"@.len() != "socket_id"@.len());
    assert("status"@.len() != "last_heartbeat"@.len());
    assert("status"@.len() != "capabilities"@.len());
    assert("status"@[1] == 't' && "skills"@[1] == 'k');
    assert("status"@.len() != "pid"@.len());
    assert("status"@.len() != "preferred_model"@.len());
    assert("status"@.len() != "soul_content"@.len());
    assert("status"@.len() != "binary_path"@.len());
    assert("status"@.len() != "version"@.len());
    assert("status"@.len() != "first_registered_at"@.len());
    assert("status"@.len() != "registration_count"@.len());
    assert("status"@.len() != "crash_count"@.len());
    assert("status"@.len() != "socket_id"@.len());
    assert("last_heartbeat"@.len() != "capabilities"@.len());
    assert("last_heartbeat"@.len() != "skills"@.len());
    assert("last_heartbeat"@.len() != "pid"@.len());
    assert("last_heartbeat"@.len() != "preferred_model"@.len());
    assert("last_heartbeat"@.len() != "soul_content"@.len());
    assert("last_heartbeat"@.len() != "binary_path"@.len());
    assert("last_heartbeat"@.len() != "version"@.len());
    assert("last_heartbeat"@.len() != "first_registered_at"@.len());
    assert("last_heartbeat"@.len() != "registration_count"@.len());
    assert("last_heartbeat"@.len() != "crash_count"@.len());
    assert("last_heartbeat"@.len() != "socket_id"@.len());
    assert("capabilities"@.len() != "skills"@.len());
    assert("capabilities"@.len() != "pid"@.len());
    assert("capabilities"@.len() != "preferred_model"@.len());
    assert("capabilities"@[0] == 'c' && "soul_content"@[0] == 's');
    assert("capabilities"@.len() != "binary_path"@.len());
    assert("capabilities"@.len() != "version"@.len());
    assert("capabilities"@.len() != "first_registered_at"@.len());
    assert("capabilities"@.len() != "registration_count"@.len());
    assert("capabilities"@.len() != "crash_count"@.len());
    assert("capabilities"@.len() != "socket_id"@.len());
    assert("skills"@.len() != "pid"@.len());
    assert("skills"@.len() != "preferred_model"@.len());
    assert("skills"@.len() != "soul_content"@.len());
    assert("skills"@.len() != "binary_path"@.len());
    assert("skills"@.len() != "version"@.len());
    assert("skills"@.len() != "first_registered_at"@.len());
    assert("skills"@.len() != "registration_count"@.len());
    assert("skills"@.len() != "crash_count"@.len());
    assert("skills"@.len() != "socket_id"@.len());
    assert("pid"@.len() != "preferred_model"@.len());
    assert("pid"@.len() != "soul_content"@.len());
    assert("pid"@.len() != "binary_path"@.len());
    assert("pid"@.len() != "version"@.len());
    assert("pid"@.len() != "first_registered_at"@.len());
    assert("pid"@.len() != "registration_count"@.len());
    assert("pid"@.len() != "crash_count"@.len());
    assert("pid"@.len() != "socket_id"@.len());
    assert("preferred_model"@.len() != "soul_content"@.len());
    assert("preferred_model"@.len() != "binary_path"@.len());
    assert("preferred_model"@.len() != "version"@.len());
    assert("preferred_model"@.len() != "first_registered_at"@.len());
    assert("preferred_model"@.len() != "registration_count"@.len());
    assert("preferred_model"@.len() != "crash_count"@.len());
    assert("preferred_model"@.len() != "socket_id"@.len());
    assert("soul_content"@.len() != "binary_path"@.len());
    assert("soul_content"@.len() != "version"@.len());
    assert("soul_content"@.len() != "first_registered_at"@.len());
    assert("soul_content"@.len() != "registration_count"@.len());
    assert("soul_content"@.len() != "crash_count"@.len());
    assert("soul_content"@.len() != "socket_id"@.len());
    assert("binary_path"@.len() != "version"@.len());
    assert("binary_path"@.len() != "first_registered_at"@.len());
    assert("binary_path"@.len() != "registration_count"@.len());
    assert("binary_path"@[0] == 'b' && "crash_count"@[0] == 'c');
    assert("binary_path"@.len() != "socket_id"@.len());
    assert("version"@.len() != "first_registered_at"@.len());
    assert("version"@.len() != "registration_count"@.len());
    assert("version"@.len() != "crash_count"@.len());
    assert("version"@.len() != "socket_id"@.len());
    assert("first_registered_at"@.len() != "registration_count"@.len());
    assert("first_registered_at"@.len() != "crash_count"@.len());
    assert("first_registered_at"@.len() != "socket_id"@.len());
    assert("registration_count"@.len() != "crash_count"@.len());
    assert("registration_count"@.len() != "socket_id"@.len());
    assert("crash_count"@.len() != "socket_id"@.len());
}

/// Each member of an agent as JSON is the field of its name, and there are no others.
pub proof fn law_agent_json(row: AgentView)
    ensures
        ({
            let json = agent_json(row);
            &&& json.get("agent_id"@) == Some(JsonTree::Text(row.agent_id))
            &&& json.get("role"@) == Some(JsonTree::Text(row.role))
            &&& json.get("status"@) == Some(JsonTree::Text(row.status))
            &&& json.get("last_heartbeat"@) == Some(JsonTree::Text(row.last_heartbeat))
            &&& json.get("capabilities"@)
                == Some(parsed_or(row.capabilities, JsonTree::List(Seq::empty())))
            &&& json.get("skills"@) == Some(parsed_or(row.skills, JsonTree::List(Seq::empty())))
            &&& json.get("pid"@) == Some(int_tree(row.pid))
            &&& json.get("preferred_model"@) == Some(JsonTree::Text(row.preferred_model))
            &&& json.get("soul_content"@) == Some(JsonTree::Text(row.soul_content))
            &&& json.get("binary_path"@) == Some(JsonTree::Text(row.binary_path))
            &&& json.get("version"@) == Some(JsonTree::Text(row.version))
            &&& json.get("first_registered_at"@) == Some(JsonTree::Text(row.first_registered_at))
            &&& json.get("registration_count"@) == Some(int_tree(row.registration_count))
            &&& json.get("crash_count"@) == Some(int_tree(row.crash_count))
            &&& json.get("socket_id"@) == Some(JsonTree::Text(row.socket_id))
            &&& forall|key: Seq<char>| #[trigger] json.get(key) is Some
                ==> key == "agent_id"@ || key == "role"@ || key == "status"@
                    || key == "last_heartbeat"@ || key == "capabilities"@ || key == "skills"@
                        || key == "pid"@ || key == "preferred_model"@ || key == "soul_content"@
                            || key == "binary_path"@ || key == "version"@
                                || key == "first_registered_at"@ || key == "registration_count"@
                                    || key == "crash_count"@ || key == "socket_id"@
        }),
{
    lemma_agent_json_names();
}

/// The names of the members are distinct.
proof fn lemma_config_json_names()
    ensures
        "id"@ != "config_hash"@,
        "id"@ != "action"@,
        "id"@ != "backup_path"@,
        "id"@ != "timestamp"@,
        "config_hash"@ != "action"@,
        "config_hash"@ != "backup_path"@,
        "config_hash"@ != "timestamp"@,
        "action"@ != "backup_path"@,
        "action"@ != "timestamp"@,
        "backup_path"@ != "timestamp"@,
{
    reveal_strlit("id");
    reveal_strlit("config_hash");
    reveal_strlit("action");
    reveal_strlit("backup_path");
    reveal_strlit("timestamp");
    assert("id"@.len() != "config_hash"@.len());
    assert("id"@.len() != "action"@.len());
    assert("id"@.len() != "backup_path"@.len());
    assert("id"@.len() != "timestamp"@.len());
    assert("config_hash"@.len() != "action"@.len());
    assert("config_hash"@[0] == 'c' && "backup_path"@[0] == 'b');
    assert("config_hash"@.len() != "timestamp"@.len());
    assert("action"@.len() != "backup_path"@.len());
    assert("action"@.len() != "timestamp"@.len());
    assert("backup_path"@.len() != "timestamp"@.len());
}

/// Each member of a change of the config as JSON is the field of its name, and there are no others.
pub proof fn law_config_json(row: ConfigHistoryView)
    ensures
        ({
            let json = history_json(row);
            &&& json.get("id"@) == Some(JsonTree::Text(row.id))
            &&& json.get("config_hash"@) == Some(JsonTree::Text(row.config_hash))
            &&& json.get("action"@) == Some(JsonTree::Text(row.action))
            &&& json.get("backup_path"@) == Some(JsonTree::Text(row.backup_path))
            &&& json.get("timestamp"@) == Some(JsonTree::Text(row.timestamp))
            &&& forall|key: Seq<char>| #[trigger] json.get(key) is Some
                ==> key == "id"@ || key == "config_hash"@ || key == "action"@
                    || key == "backup_path"@ || key == "timestamp"@
        }),
{
    lemma_config_json_names();
}

/// The names of the members are distinct.
proof fn lemma_memory_json_names()
    ensures
        "id"@ != "scope"@,
        "id"@ != "category"@,
        "id"@ != "key"@,
        "id"@ != "metadata"@,
        "id"@ != "tags"@,
        "id"@ != "agent_id"@,
        "id"@ != "run_id"@,
        "id"@ != "skill_id"@,
        "id"@ != "relevance_score"@,
        "id"@ != "access_count"@,
        "id"@ != "created_at"@,
        "id"@ != "updated_at"@,
        "scope"@ != "category"@,
        "scope"@ != "key"@,
        "scope"@ != "metadata"@,
        "scope"@ != "tags"@,
        "scope"@ != "agent_id"@,
        "scope"@ != "run_id"@,
        "scope"@ != "skill_id"@,
        "scope"@ != "relevance_score"@,
        "scope"@ != "access_count"@,
        "scope"@ != "created_at"@,
        "scope"@ != "updated_at"@,
        "category"@ != "key"@,
        "category"@ != "metadata"@,
        "category"@ != "tags"@,
        "category"@ != "agent_id"@,
        "category"@ != "run_id"@,
        "category"@ != "skill_id"@,
        "category"@ != "relevance_score"@,
        "category"@ != "access_count"@,
        "category"@ != "created_at"@,
        "category"@ != "updated_at"@,
        "key"@ != "metadata"@,
        "key"@ != "tags"@,
        "key"@ != "agent_id"@,
        "key"@ != "run_id"@,
        "key"@ != "skill_id"@,
        "key"@ != "relevance_score"@,
        "key"@ != "access_count"@,
        "key"@ != "created_at"@,
        "key"@ != "updated_at"@,
        "metadata"@ != "tags"@,
        "metadata"@ != "agent_id"@,
        "metadata"@ != "run_id"@,
        "metadata"@ != "skill_id"@,
        "metadata"@ != "relevance_score"@,
        "metadata"@ != "access_count"@,
        "metadata"@ != "created_at"@,
        "metadata"@ != "updated_at"@,
        "tags"@ != "agent_id"@,
        "tags"@ != "run_id"@,
        "tags"@ != "skill_id"@,
        "tags"@ != "relevance_score"@,
        "tags"@ != "access_count"@,
        "tags"@ != "created_at"@,
        "tags"@ != "updated_at"@,
        "agent_id"@ != "run_id"@,
        "agent_id"@ != "skill_id"@,
        "agent_id"@ != "relevance_score"@,
        "agent_id"@ != "access_count"@,
        "agent_id"@ != "created_at"@,
        "agent_id"@ != "updated_at"@,
        "run_id"@ != "skill_id"@,
        "run_id"@ != "relevance_score"@,
        "run_id"@ != "access_count"@,
        "run_id"@ != "created_at"@,
        "run_id"@ != "updated_at"@,
        "skill_id"@ != "relevance_score"@,
        "skill_id"@ != "access_count"@,
        "skill_id"@ != "created_at"@,
        "skill_id"@ != "updated_at"@,
        "relevance_score"@ != "access_count"@,
        "relevance_score"@ != "created_at"@,
        "relevance_score"@ != "updated_at"@,
        "access_count"@ != "created_at"@,
        "access_count"@ != "updated_at"@,
        "created_at"@ != "updated_at"@,
{
    reveal_strlit("id");
    reveal_strlit("scope");
    reveal_strlit("category");
    reveal_strlit("key");
    reveal_strlit("metadata");
    reveal_strlit("tags");
    reveal_strlit("agent_id");
    reveal_strlit("run_id");
    reveal_strlit("skill_id");
    reveal_strlit("relevance_score");
    reveal_strlit("access_count");
    reveal_strlit("created_at");
    reveal_strlit("updated_at");
    assert("id"@.len() != "scope"@.len());
    assert("id"@.len() != "category"@.len());
    assert("id"@.len() != "key"@.len());
    assert("id"@.len() != "metadata"@.len());
    assert("id"@.len() != "tags"@.len());
    assert("id"@.len() != "agent_id"@.len());
    assert("id"@.len() != "run_id"@.len());
    assert("id"@.len() != "skill_id"@.len());
    assert("id"@.len() != "relevance_score"@.len());
    assert("id"@.len() != "access_count"@.len());
    assert("id"@.len() != "created_at"@.len());
    assert("id"@.len() != "updated_at"@.len());
    assert("scope"@.len() != "category"@.len());
    assert("scope"@.len() != "key"@.len());
    assert("scope"@.len() != "metadata"@.len());
    assert("scope"@.len() != "tags"@.len());
    assert("scope"@.len() != "agent_id"@.len());
    assert("scope"@.len() != "run_id"@.len());
    assert("scope"@.len() != "skill_id"@.len());
    assert("scope"@.len() != "relevance_score"@.len());
    assert("scope"@.len() != "access_count"@.len());
    assert("scope"@.len() != "created_at"@.len());
    assert("scope"@.len() != "updated_at"@.len());
    assert("category"@.len() != "key"@.len());
    assert("category"@[0] == 'c' && "metadata"@[0] == 'm');
    assert("category"@.len() != "tags"@.len());
    assert("category"@[0] == 'c' && "agent_id"@[0] == 'a');
    assert("category"@.len() != "run_id"@.len());
    assert("category"@[0] == 'c' && "skill_id"@[0] == 's');
    assert("category"@.len() != "relevance_score"@.len());
    assert("category"@.len() != "access_count"@.len());
    assert("category"@.len() != "created_at"@.len());
    assert("category"@.len() != "updated_at"@.len());
    assert("key"@.len() != "metadata"@.len());
    assert("key"@.len() != "tags"@.len());
    assert("key"@.len() != "agent_id"@.len());
    assert("key"@.len() != "run_id"@.len());
    assert("key"@.len() != "skill_id"@.len());
    assert("key"@.len() != "relevance_score"@.len());
    assert("key"@.len() != "access_count"@.len());
    assert("key"@.len() != "created_at"@.len());
    assert("key"@.len() != "updated_at"@.len());
    assert("metadata"@.len() != "tags"@.len());
    assert("metadata"@[0] == 'm' && "agent_id"@[0] == 'a');
    assert("metadata"@.len() != "run_id"@.len());
    assert("metadata"@[0] == 'm' && "skill_id"@[0] == 's');
    assert("metadata"@.len() != "relevance_score"@.len());
    assert("metadata"@.len() != "access_count"@.len());
    assert("metadata"@.len() != "created_at"@.len());
    assert("metadata"@.len() != "updated_at"@.len());
    assert("tags"@.len() != "agent_id"@.len());
    assert("tags"@.len() != "run_id"@.len());
    assert("tags"@.len() != "skill_id"@.len());
    assert("tags"@.len() != "relevance_score"@.len());
    assert("tags"@.len() != "access_count"@.len());
    assert("tags"@.len() != "created_at"@.len());
    assert("tags"@.len() != "updated_at"@.len());
    assert("agent_id"@.len() != "run_id"@.len());
    assert("agent_id"@[0] == 'a' && "skill_id"@[0] == 's');
    assert("agent_id"@.len() != "relevance_score"@.len());
    assert("agent_id"@.len() != "access_count"@.len());
    assert("agent_id"@.len() != "created_at"@.len());
    assert("agent_id"@.len() != "updated_at"@.len());
    assert("run_id"@.len() != "skill_id"@.len());
    assert("run_id"@.len() != "relevance_score"@.len());
    assert("run_id"@.len() != "access_count"@.len());
    assert("run_id"@.len() != "created_at"@.len());
    assert("run_id"@.len() != "updated_at"@.len());
    assert("skill_id"@.len() != "relevance_score"@.len());
    assert("skill_id"@.len() != "access_count"@.len());
    assert("skill_id"@.len() != "created_at"@.len());
    assert("skill_id"@.len() != "updated_at"@.len());
    assert("relevance_score"@.len() != "access_count"@.len());
    assert("relevance_score"@.len() != "created_at"@.len());
    assert("relevance_score"@.len() != "updated_at"@.len());
    assert("access_count"@.len() != "created_at"@.len());
    assert("access_count"@.len() != "updated_at"@.len());
    assert("created_at"@[0] == 'c' && "updated_at"@[0] == 'u');
}

/// Each member of a memory as JSON is the field of its name, and there are no others.
pub proof fn law_memory_json(row: MemoryView, trim_tags: bool)
    ensures
        ({
            let json = memory_json(row, trim_tags);
            &&& json.get("id"@) == Some(JsonTree::Text(row.id))
            &&& json.get("scope"@) == Some(JsonTree::Text(row.scope))
            &&& json.get("category"@) == Some(JsonTree::Text(row.category))
            &&& json.get("key"@) == Some(JsonTree::Text(row.key))
            &&& json.get("metadata"@) == Some(parsed_or(row.metadata, JsonTree::empty()))
            &&& json.get("tags"@) == Some(tags_tree(row.tags, trim_tags))
            &&& json.get("agent_id"@) == Some(JsonTree::Text(row.agent_id))
            &&& json.get("run_id"@) == Some(JsonTree::Text(row.run_id))
            &&& json.get("skill_id"@) == Some(JsonTree::Text(row.skill_id))
            &&& json.get("relevance_score"@) == Some(real_tree(row.relevance_score))
            &&& json.get("access_count"@) == Some(int_tree(row.access_count))
            &&& json.get("created_at"@) == Some(JsonTree::Text(row.created_at))
            &&& json.get("updated_at"@) == Some(JsonTree::Text(row.updated_at))
            &&& forall|key: Seq<char>| #[trigger] json.get(key) is Some
                ==> key == "id"@ || key == "scope"@ || key == "category"@ || key == "key"@
                    || key == "metadata"@ || key == "tags"@ || key == "agent_id"@
                        || key == "run_id"@ || key == "skill_id"@ || key == "relevance_score"@
                            || key == "access_count"@ || key == "created_at"@
                                || key == "updated_at"@
        }),
{
    lemma_memory_json_names();
}

/// The names of the members are distinct.
proof fn lemma_tier_json_names()
    ensures
        "id"@ != "memory_id"@,
        "id"@ != "tier"@,
        "id"@ != "content"@,
        "id"@ != "created_at"@,
        "id"@ != "updated_at"@,
        "memory_id"@ != "tier"@,
        "memory_id"@ != "content"@,
        "memory_id"@ != "created_at"@,
        "memory_id"@ != "updated_at"@,
        "tier"@ != "content"@,
        "tier"@ != "created_at"@,
        "tier"@ != "updated_at"@,
        "content"@ != "created_at"@,
        "content"@ != "updated_at"@,
        "created_at"@ != "updated_at"@,
{
    reveal_strlit("id");
    reveal_strlit("memory_id");
    reveal_strlit("tier");
    reveal_strlit("content");
    reveal_strlit("created_at");
    reveal_strlit("updated_at");
    assert("id"@.len() != "memory_id"@.len());
    assert("id"@.len() != "tier"@.len());
    assert("id"@.len() != "content"@.len());
    assert("id"@.len() != "created_at"@.len());
    assert("id"@.len() != "updated_at"@.len());
    assert("memory_id"@.len() != "tier"@.len());
    assert("memory_id"@.len() != "content"@.len());
    assert("memory_id"@.len() != "created_at"@.len());
    assert("memory_id"@.len() != "updated_at"@.len());
    assert("tier"@.len() != "content"@.len());
    assert("tier"@.len() != "created_at"@.len());
    assert("tier"@.len() != "updated_at"@.len());
    assert("content"@.len() != "created_at"@.len());
    assert("content"@.len() != "updated_at"@.len());
    assert("created_at"@[0] == 'c' && "updated_at"@[0] == 'u');
}

/// Each member of a tier of a memory as JSON is the field of its name, and there are no others.
pub proof fn law_tier_json(row: MemoryTierView)
    ensures
        ({
            let json = tier_json(row);
            &&& json.get("id"@) == Some(JsonTree::Text(row.id))
            &&& json.get("memory_id"@) == Some(JsonTree::Text(row.memory_id))
            &&& json.get("tier"@) == Some(JsonTree::Text(row.tier))
            &&& json.get("content"@) == Some(JsonTree::Text(row.content))
            &&& json.get("created_at"@) == Some(JsonTree::Text(row.created_at))
            &&& json.get("updated_at"@) == Some(JsonTree::Text(row.updated_at))
            &&& forall|key: Seq<char>| #[trigger] json.get(key) is Some
                ==> key == "id"@ || key == "memory_id"@ || key == "tier"@ || key == "content"@
                    || key == "created_at"@ || key == "updated_at"@
        }),
{
    lemma_tier_json_names();
}

/// The names of the members are distinct.
proof fn lemma_brief_tier_json_names()
    ensures
        "id"@ != "tier"@,
        "id"@ != "content"@,
        "id"@ != "created_at"@,
        "id"@ != "updated_at"@,
        "tier"@ != "content"@,
        "tier"@ != "created_at"@,
        "tier"@ != "updated_at"@,
        "content"@ != "created_at"@,
        "content"@ != "updated_at"@,
        "created_at"@ != "updated_at"@,
{
    reveal_strlit("id");
    reveal_strlit("tier");
    reveal_strlit("content");
    reveal_strlit("created_at");
    reveal_strlit("updated_at");
    assert("id"@.len() != "tier"@.len());
    assert("id"@.len() != "content"@.len());
    assert("id"@.len() != "created_at"@.len());
    assert("id"@.len() != "updated_at"@.len());
    assert("tier"@.len() != "content"@.len());
    assert("tier"@.len() != "created_at"@.len());
    assert("tier"@.len() != "updated_at"@.len());
    assert("content"@.len() != "created_at"@.len());
    assert("content"@.len() != "updated_at"@.len());
    assert("created_at"@[0] == 'c' && "updated_at"@[0] == 'u');
}

/// Each member of a tier of a memory, without the id of the memory, as JSON is the field of its name, and there are no others.
pub proof fn law_brief_tier_json(row: MemoryTierView)
    ensures
        ({
            let json = brief_tier_json(row);
            &&& json.get("id"@) == Some(JsonTree::Text(row.id))
            &&& json.get("tier"@) == Some(JsonTree::Text(row.tier))
            &&& json.get("content"@) == Some(JsonTree::Text(row.content))
            &&& json.get("created_at"@) == Some(JsonTree::Text(row.created_at))
            &&& json.get("updated_at"@) == Some(JsonTree::Text(row.updated_at))
            &&& forall|key: Seq<char>| #[trigger] json.get(key) is Some
                ==> key == "id"@ || key == "tier"@ || key == "content"@ || key == "created_at"@
                    || key == "updated_at"@
        }),
{
    lemma_brief_tier_json_names();
}

/// The names of the members are distinct.
proof fn lemma_change_json_names()
    ensures
        "id"@ != "agent_id"@,
        "id"@ != "prev_status"@,
        "id"@ != "new_status"@,
        "id"@ != "trigger"@,
        "id"@ != "detail"@,
        "id"@ != "pid"@,
        "id"@ != "created_at"@,
        "agent_id"@ != "prev_status"@,
        "agent_id"@ != "new_status"@,
        "agent_id"@ != "trigger"@,
        "agent_id"@ != "detail"@,
        "agent_id"@ != "pid"@,
        "agent_id"@ != "created_at"@,
        "prev_status"@ != "new_status"@,
        "prev_status"@ != "trigger"@,
        "prev_status"@ != "detail"@,
        "prev_status"@ != "pid"@,
        "prev_status"@ != "created_at"@,
        "new_status"@ != "trigger"@,
        "new_status"@ != "detail"@,
        "new_status"@ != "pid"@,
        "new_status"@ != "created_at"@,
        "trigger"@ != "detail"@,
        "trigger"@ != "pid"@,
        "trigger"@ != "created_at"@,
        "detail"@ != "pid"@,
        "detail"@ != "created_at"@,
        "pid"@ != "created_at"@,
{
    reveal_strlit("id");
    reveal_strlit("agent_id");
    reveal_strlit("prev_status");
    reveal_strlit("new_status");
    reveal_strlit("trigger");
    reveal_strlit("detail");
    reveal_strlit("pid");
    reveal_strlit("created_at");
    assert("id"@.len() != "agent_id"@.len());
    assert("id"@.len() != "prev_status"@.len());
    assert("id"@.len() != "new_status"@.len());
    assert("id"@.len() != "trigger"@.len());
    assert("id"@.len() != "detail"@.len());
    assert("id"@.len() != "pid"@.len());
    assert("id"@.len() != "created_at"@.len());
    assert("agent_id"@.len() != "prev_status"@.len());
    assert("agent_id"@.len() != "new_status"@.len());
    assert("agent_id"@.len() != "trigger"@.len());
    assert("agent_id"@.len() != "detail"@.len());
    assert("agent_id"@.len() != "pid"@.len());
    assert("agent_id"@.len() != "created_at"@.len());
    assert("prev_status"@.len() != "new_status"@.len());
    assert("prev_status"@.len() != "trigger"@.len());
    assert("prev_status"@.len() != "detail"@.len());
    assert("prev_status"@.len() != "pid"@.len());
    assert("prev_status"@.len() != "created_at"@.len());
    assert("new_status"@.len() != "trigger"@.len());
    assert("new_status"@.len() != "detail"@.len());
    assert("new_status"@.len() != "pid"@.len());
    assert("new_status"@[0] == 'n' && "created_at"@[0] == 'c');
    assert("trigger"@.len() != "detail"@.len());
    assert("trigger"@.len() != "pid"@.len());
    assert("trigger"@.len() != "created_at"@.len());
    assert("detail"@.len() != "pid"@.len());
    assert("detail"@.len() != "created_at"@.len());
    assert("pid"@.len() != "created_at"@.len());
}

/// Each member of a change of the status of an agent as JSON is the field of its name, and there are no others.
pub proof fn law_change_json(row: AgentHistoryView)
    ensures
        ({
            let json = change_json(row);
            &&& json.get("id"@) == Some(JsonTree::Text(row.id))
            &&& json.get("agent_id"@) == Some(JsonTree::Text(row.agent_id))
            &&& json.get("prev_status"@) == Some(JsonTree::Text(row.prev_status))
            &&& json.get("new_status"@) == Some(JsonTree::Text(row.new_status))
            &&& json.get("trigger"@) == Some(JsonTree::Text(row.trigger))
            &&& json.get("detail"@) == Some(JsonTree::Text(row.detail))
            &&& json.get("pid"@) == Some(int_tree(row.pid))
            &&& json.get("created_at"@) == Some(JsonTree::Text(row.created_at))
            &&& forall|key: Seq<char>| #[trigger] json.get(key) is Some
                ==> key == "id"@ || key == "agent_id"@ || key == "prev_status"@
                    || key == "new_status"@ || key == "trigger"@ || key == "detail"@
                        || key == "pid"@ || key == "created_at"@
        }),
{
    lemma_change_json_names();
}

/// The names of the members are distinct.
proof fn lemma_event_json_names()
    ensures
        "id"@ != "event_name"@,
        "id"@ != "direction"@,
        "id"@ != "agent_id"@,
        "id"@ != "socket_id"@,
        "id"@ != "room"@,
        "id"@ != "payload"@,
        "id"@ != "created_at"@,
        "event_name"@ != "direction"@,
        "event_name"@ != "agent_id"@,
        "event_name"@ != "socket_id"@,
        "event_name"@ != "room"@,
        "event_name"@ != "payload"@,
        "event_name"@ != "created_at"@,
        "direction"@ != "agent_id"@,
        "direction"@ != "socket_id"@,
        "direction"@ != "room"@,
        "direction"@ != "payload"@,
        "direction"@ != "created_at"@,
        "agent_id"@ != "socket_id"@,
        "agent_id"@ != "room"@,
        "agent_id"@ != "payload"@,
        "agent_id"@ != "created_at"@,
        "socket_id"@ != "room"@,
        "socket_id"@ != "payload"@,
        "socket_id"@ != "created_at"@,
        "room"@ != "payload"@,
        "room"@ != "created_at"@,
        "payload"@ != "created_at"@,
{
    reveal_strlit("id");
    reveal_strlit("event_name");
    reveal_strlit("direction");
    reveal_strlit("agent_id");
    reveal_strlit("socket_id");
    reveal_strlit("room");
    reveal_strlit("payload");
    reveal_strlit("created_at");
    assert("id"@.len() != "event_name"@.len());
    assert("id"@.len() != "direction"@.len());
    assert("id"@.len() != "agent_id"@.len());
    assert("id"@.len() != "socket_id"@.len());
    assert("id"@.len() != "room"@.len());
    assert("id"@.len() != "payload"@.len());
    assert("id"@.len() != "created_at"@.len());
    assert("event_name"@.len() != "direction"@.len());
    assert("event_name"@.len() != "agent_id"@.len());
    assert("event_name"@.len() != "socket_id"@.len());
    assert("event_name"@.len() != "room"@.len());
    assert("event_name"@.len() != "payload"@.len());
    assert("event_name"@[0] == 'e' && "created_at"@[0] == 'c');
    assert("direction"@.len() != "agent_id"@.len());
    assert("direction"@[0] == 'd' && "socket_id"@[0] == 's');
    assert("direction"@.len() != "room"@.len());
    assert("direction"@.len() != "payload"@.len());
    assert("direction"@.len() != "created_at"@.len());
    assert("agent_id"@.len() != "socket_id"@.len());
    assert("agent_id"@.len() != "room"@.len());
    assert("agent_id"@.len() != "payload"@.len());
    assert("agent_id"@.len() != "created_at"@.len());
    assert("socket_id"@.len() != "room"@.len());
    assert("socket_id"@.len() != "payload"@.len());
    assert("socket_id"@.len() != "created_at"@.len());
    assert("room"@.len() != "payload"@.len());
    assert("room"@.len() != "created_at"@.len());
    assert("payload"@.len() != "created_at"@.len());
}

/// Each member of an event as JSON is the field of its name, and there are no others.
pub proof fn law_event_json(row: SocketEventView)
    ensures
        ({
            let json = event_json(row);
            &&& json.get("id"@) == Some(JsonTree::Text(row.id))
            &&& json.get("event_name"@) == Some(JsonTree::Text(row.event_name))
            &&& json.get("direction"@) == Some(JsonTree::Text(row.direction))
            &&& json.get("agent_id"@) == Some(JsonTree::Text(row.agent_id))
            &&& json.get("socket_id"@) == Some(JsonTree::Text(row.socket_id))
            &&& json.get("room"@) == Some(JsonTree::Text(row.room))
            &&& json.get("payload"@) == Some(JsonTree::Text(row.payload))
            &&& json.get("created_at"@) == Some(JsonTree::Text(row.created_at))
            &&& forall|key: Seq<char>| #[trigger] json.get(key) is Some
                ==> key == "id"@ || key == "event_name"@ || key == "direction"@
                    || key == "agent_id"@ || key == "socket_id"@ || key == "room"@
                        || key == "payload"@ || key == "created_at"@
        }),
{
    lemma_event_json_names();
}

/// Each column of a new task gets the field of its name.
pub proof fn law_tasks_are_stored_by_name(row: TaskView)
    ensures
        create_task_statement(row).sql == "INSERT INTO tasks (id, task_type, status, agent_id, payload, run_id, current_stage, summary, parent_id, created_at, updated_at)
         VALUES (?1, ?2, ?3, ?4, ?5, ?6, ?7, ?8, ?9, ?10, ?11)"@,
        create_task_statement(row).params == seq![
            SqlCell::Text(row.id),
            SqlCell::Text(row.task_type),
            SqlCell::Text(row.status),
            SqlCell::Text(row.agent_id),
            SqlCell::Text(row.payload),
            SqlCell::Text(row.run_id),
            SqlCell::Text(row.current_stage),
            SqlCell::Text(row.summary),
            SqlCell::Text(row.parent_id),
            SqlCell::Text(row.created_at),
            SqlCell::Text(row.updated_at),
        ],
{
}

/// Each column of a new log entry gets the field of its name.
pub proof fn law_logs_are_stored_by_name(row: TaskLogView)
    ensures
        create_task_log_statement(row).sql == "INSERT INTO task_logs (id, task_id, level, message, detail, agent_id, stage, created_at)
         VALUES (?1, ?2, ?3, ?4, ?5, ?6, ?7, ?8)"@,
        create_task_log_statement(row).params == seq![
            SqlCell::Text(row.id),
            SqlCell::Text(row.task_id),
            SqlCell::Text(row.level),
            SqlCell::Text(row.message),
            SqlCell::Text(row.detail),
            SqlCell::Text(row.agent_id),
            SqlCell::Text(row.stage),
            SqlCell::Text(row.created_at),
        ],
{
}

/// Each column of a new stage gets the field of its name; it is running.
pub proof fn law_stages_are_stored_by_name(row: PipelineView)
    ensures
        create_pipeline_stage_statement(row).sql == "INSERT INTO pipeline_runs (id, run_id, stage, artifact_id, status, agent_id, created_at, updated_at, input_metadata)
         VALUES (?1, ?2, ?3, ?4, 'running', '', ?5, ?6, ?7)"@,
        create_pipeline_stage_statement(row).params == seq![
            SqlCell::Text(row.id),
            SqlCell::Text(row.run_id),
            SqlCell::Text(row.stage),
            SqlCell::Text(row.artifact_id),
            SqlCell::Text(row.created_at),
            SqlCell::Text(row.updated_at),
            SqlCell::Text(row.input_metadata),
        ],
{
}

/// The outcome of a stage is stored in the columns of that name, for the stage with the
/// id.
pub proof fn law_stages_are_updated_by_name(
    now: Seq<char>,
    id: Seq<char>,
    status: Seq<char>,
    agent_id: Seq<char>,
    result: Seq<char>,
    error: Seq<char>,
)
    ensures
        update_stage_with_statement(now, id, status, agent_id, result, error).sql == "UPDATE pipeline_runs SET status = ?1, agent_id = ?2, result = ?3, error = ?4, updated_at = ?5
         WHERE id = ?6"@,
        update_stage_with_statement(now, id, status, agent_id, result, error).params == seq![
            SqlCell::Text(status),
            SqlCell::Text(agent_id),
            SqlCell::Text(result),
            SqlCell::Text(error),
            SqlCell::Text(now),
            SqlCell::Text(id),
        ],
{
}

/// A retry counts one more try of the stage with the id, and sets it running.
pub proof fn law_retries_are_stored(now: Seq<char>, id: Seq<char>)
    ensures
        retry_pipeline_stage_statement(now, id).sql
            == "UPDATE pipeline_runs SET status = 'running', retry_count = retry_count + 1, updated_at = ?1 WHERE id = ?2"@,
        retry_pipeline_stage_statement(now, id).params == seq![
            SqlCell::Text(now),
            SqlCell::Text(id),
        ],
{
}

/// Each column of a new memory gets the field of its name; it is changed when it is
/// created.
pub proof fn law_memories_are_stored_by_name(row: MemoryView)
    ensures
        create_memory_statement(row).sql == "INSERT INTO memories (id, scope, category, key, metadata, tags, agent_id, run_id, skill_id, relevance_score, access_count, created_at, updated_at)
         VALUES (?1, ?2, ?3, ?4, ?5, ?6, ?7, ?8, ?9, ?10, 0, ?11, ?11)"@,
        create_memory_statement(row).params == seq![
            SqlCell::Text(row.id),
            SqlCell::Text(row.scope),
            SqlCell::Text(row.category),
            SqlCell::Text(row.key),
            SqlCell::Text(row.metadata),
            SqlCell::Text(row.tags),
            SqlCell::Text(row.agent_id),
            SqlCell::Text(row.run_id),
            SqlCell::Text(row.skill_id),
            SqlCell::Real(row.relevance_score),
            SqlCell::Text(row.created_at),
        ],
{
}

/// A look at a memory is counted for the memory with the id.
pub proof fn law_memories_are_touched(now: Seq<char>, memory_id: Seq<char>)
    ensures
        touch_memory_statement(now, memory_id).sql
            == "UPDATE memories SET access_count = access_count + 1, updated_at = ?1 WHERE id = ?2"@,
        touch_memory_statement(now, memory_id).params == seq![
            SqlCell::Text(now),
            SqlCell::Text(memory_id),
        ],
{
}

/// Each column of a new tier gets the field of its name.
pub proof fn law_new_tiers_are_stored_by_name(row: MemoryTierView)
    ensures
        upsert_tier_statement(row, false).sql == "INSERT INTO memory_tiers (id, memory_id, tier, content, created_at, updated_at)
             VALUES (?1, ?2, ?3, ?4, ?5, ?5)"@,
        upsert_tier_statement(row, false).params == seq![
            SqlCell::Text(row.id),
            SqlCell::Text(row.memory_id),
            SqlCell::Text(row.tier),
            SqlCell::Text(row.content),
            SqlCell::Text(row.updated_at),
        ],
{
}

/// A tier that is there gets the new content; the id says which tier.
pub proof fn law_tiers_are_updated_by_name(row: MemoryTierView)
    ensures
        upsert_tier_statement(row, true).sql
            == "UPDATE memory_tiers SET content = ?1, updated_at = ?2 WHERE id = ?3"@,
        upsert_tier_statement(row, true).params == seq![
            SqlCell::Text(row.content),
            SqlCell::Text(row.updated_at),
            SqlCell::Text(row.id),
        ],
{
}

/// Each column of a memory of a task gets the field of its name.
pub proof fn law_bindings_are_stored_by_name(row: TaskMemoryView)
    ensures
        bind_task_memory_statement(row).sql == "INSERT OR IGNORE INTO task_memories (id, task_id, memory_id, created_at)
         VALUES (?1, ?2, ?3, ?4)"@,
        bind_task_memory_statement(row).params == seq![
            SqlCell::Text(row.id),
            SqlCell::Text(row.task_id),
            SqlCell::Text(row.memory_id),
            SqlCell::Text(row.created_at),
        ],
{
}

/// Each column of a change of the config gets the argument of its name.
pub proof fn law_config_changes_are_stored_by_name(
    id: Seq<char>,
    now: Seq<char>,
    config_hash: Seq<char>,
    action: Seq<char>,
    backup_path: Seq<char>,
)
    ensures
        log_config_change_statement(id, now, config_hash, action, backup_path).sql == "INSERT INTO config_history (id, config_hash, action, backup_path, timestamp)
         VALUES (?1, ?2, ?3, ?4, ?5)"@,
        log_config_change_statement(id, now, config_hash, action, backup_path).params == seq![
            SqlCell::Text(id),
            SqlCell::Text(config_hash),
            SqlCell::Text(action),
            SqlCell::Text(backup_path),
            SqlCell::Text(now),
        ],
{
}

/// Each column of an agent that reports gets the argument of its name.
pub proof fn law_heartbeats_are_stored_by_name(
    now: Seq<char>,
    agent_id: Seq<char>,
    role: Seq<char>,
    status: Seq<char>,
    capabilities: Seq<char>,
    skills: Seq<char>,
    pid: i64,
)
    ensures
        upsert_agent_with_statement(now, agent_id, role, status, capabilities, skills, pid).sql == "INSERT INTO agent_status (agent_id, role, status, last_heartbeat, capabilities, skills, pid)
         VALUES (?1, ?2, ?3, ?4, ?5, ?6, ?7)
         ON CONFLICT(agent_id) DO UPDATE SET
             role           = CASE WHEN ?2 = '' THEN role ELSE ?2 END,
             status         = ?3,
             last_heartbeat = ?4,
             capabilities   = CASE WHEN ?5 = '[]' AND capabilities != '[]' THEN capabilities ELSE ?5 END,
             skills         = CASE WHEN ?6 = '[]' AND skills != '[]' THEN skills ELSE ?6 END,
             pid            = CASE WHEN ?7 = 0 THEN pid ELSE ?7 END"@,
        upsert_agent_with_statement(now, agent_id, role, status, capabilities, skills,
            pid).params == seq![
            SqlCell::Text(agent_id),
            SqlCell::Text(role),
            SqlCell::Text(status),
            SqlCell::Text(now),
            SqlCell::Text(capabilities),
            SqlCell::Text(skills),
            SqlCell::Integer(pid),
        ],
{
}

/// Each column of an agent that registers gets the field of its name; it is online.
pub proof fn law_registrations_are_stored_by_name(now: Seq<char>, agent: AgentMetadataView)
    ensures
        register_agent_statement(now, agent).sql == "INSERT INTO agent_status (agent_id, role, status, last_heartbeat, capabilities, skills, pid,
              soul_content, binary_path, version, socket_id, first_registered_at, registration_count)
         VALUES (?1, ?2, ?3, ?4, ?5, ?6, ?7, ?8, ?9, ?10, ?11, ?4, 1)
         ON CONFLICT(agent_id) DO UPDATE SET
             role                = CASE WHEN ?2 = '' THEN role ELSE ?2 END,
             status              = ?3,
             last_heartbeat      = ?4,
             capabilities        = CASE WHEN ?5 = '[]' AND capabilities != '[]' THEN capabilities ELSE ?5 END,
             skills              = CASE WHEN ?6 = '[]' AND skills != '[]' THEN skills ELSE ?6 END,
             pid                 = CASE WHEN ?7 = 0 THEN pid ELSE ?7 END,
             soul_content        = CASE WHEN ?8 = '' THEN soul_content ELSE ?8 END,
             binary_path         = CASE WHEN ?9 = '' THEN binary_path ELSE ?9 END,
             version             = CASE WHEN ?10 = '' THEN version ELSE ?10 END,
             socket_id           = ?11,
             first_registered_at = CASE WHEN first_registered_at = '' THEN ?4 ELSE first_registered_at END,
             registration_count  = registration_count + 1"@,
        register_agent_statement(now, agent).params == seq![
            SqlCell::Text(agent.agent_id),
            SqlCell::Text(agent.role),
            SqlCell::Text("online"@),
            SqlCell::Text(now),
            SqlCell::Text(agent.capabilities),
            SqlCell::Text(agent.skills),
            SqlCell::Integer(agent.pid as i64),
            SqlCell::Text(agent.soul_content),
            SqlCell::Text(agent.binary_path),
            SqlCell::Text(agent.version),
            SqlCell::Text(agent.socket_id),
        ],
{
}

/// A crash is stored for the agents whose role holds the hint.
pub proof fn law_crashes_are_stored(now: Seq<char>, role_hint: Seq<char>)
    ensures
        mark_agent_crashed_by_role_statement(now, role_hint).sql == "UPDATE agent_status SET status = 'crashed', last_heartbeat = ?1,
              crash_count = crash_count + 1
         WHERE role LIKE '%' || ?2 || '%' AND status != 'crashed'"@,
        mark_agent_crashed_by_role_statement(now, role_hint).params == seq![
            SqlCell::Text(now),
            SqlCell::Text(role_hint),
        ],
{
}

/// A failure is stored with its note for the agents whose role holds the hint.
pub proof fn law_failures_are_stored(now: Seq<char>, role_hint: Seq<char>, note: Seq<char>)
    ensures
        mark_agent_failed_with_statement(now, role_hint, note).sql == "UPDATE agent_status SET status = 'failed', last_heartbeat = ?1,
              capabilities = ?2
         WHERE role LIKE '%' || ?3 || '%' AND status != 'failed'"@,
        mark_agent_failed_with_statement(now, role_hint, note).params == seq![
            SqlCell::Text(now),
            SqlCell::Text(note),
            SqlCell::Text(role_hint),
        ],
{
}

/// The model is set for the agent with the id.
pub proof fn law_models_are_set(agent_id: Seq<char>, model: Seq<char>)
    ensures
        set_agent_model_statement(agent_id, model).sql
            == "UPDATE agent_status SET preferred_model = ?1 WHERE agent_id = ?2"@,
        set_agent_model_statement(agent_id, model).params == seq![
            SqlCell::Text(model),
            SqlCell::Text(agent_id),
        ],
{
}

/// Each column of a cron job gets the argument of its name.
pub proof fn law_cron_jobs_are_stored_by_name(
    id: Seq<char>,
    now: Seq<char>,
    name: Seq<char>,
    schedule: Seq<char>,
    enabled: i64,
)
    ensures
        upsert_cron_with_statement(id, now, name, schedule, enabled).sql == "INSERT INTO cron_jobs (id, name, schedule, enabled, created_at)
         VALUES (?1, ?2, ?3, ?4, ?5)
         ON CONFLICT(name) DO UPDATE SET
             schedule = cron_jobs.schedule,
             enabled  = cron_jobs.enabled"@,
        upsert_cron_with_statement(id, now, name, schedule, enabled).params == seq![
            SqlCell::Text(id),
            SqlCell::Text(name),
            SqlCell::Text(schedule),
            SqlCell::Integer(enabled),
            SqlCell::Text(now),
        ],
{
}

/// The outcome of a run is stored in the columns of that name, for the job of that name.
pub proof fn law_cron_runs_are_stored_by_name(
    now: Seq<char>,
    name: Seq<char>,
    status: Seq<char>,
    error: Seq<char>,
    next_run_at: Seq<char>,
)
    ensures
        update_cron_with_statement(now, name, status, error, next_run_at).sql == "UPDATE cron_jobs SET
             last_run_at = ?1,
             last_status = ?2,
             last_error  = ?3,
             next_run_at = CASE WHEN ?4 = '' THEN next_run_at ELSE ?4 END
         WHERE name = ?5"@,
        update_cron_with_statement(now, name, status, error, next_run_at).params == seq![
            SqlCell::Text(now),
            SqlCell::Text(status),
            SqlCell::Text(error),
            SqlCell::Text(next_run_at),
            SqlCell::Text(name),
        ],
{
}

/// A change of status is stored with its detail for the agents whose role holds the
/// hint and which had the status before, where one is given.
pub proof fn law_changes_are_stored_by_name(
    id: Seq<char>,
    now: Seq<char>,
    role_hint: Seq<char>,
    new_status: Seq<char>,
    detail: Seq<char>,
    from: Seq<char>,
)
    ensures
        change_statement(id, now, role_hint, new_status, detail, from).sql == "INSERT INTO agent_history (id, agent_id, prev_status, new_status, trigger, detail, pid, created_at)
         SELECT ?1 || ':' || agent_id, agent_id, status, ?2, ?3, ?4, pid, ?5
             FROM agent_status
             WHERE role LIKE '%' || ?6 || '%' AND status != ?2 AND (?7 = '' OR status = ?7)"@,
        change_statement(id, now, role_hint, new_status, detail, from).params == seq![
            SqlCell::Text(id),
            SqlCell::Text(new_status),
            SqlCell::Text("monitor"@),
            SqlCell::Text(detail),
            SqlCell::Text(now),
            SqlCell::Text(role_hint),
            SqlCell::Text(from),
        ],
{
}

/// A registration is recorded for the agent, with its process.
pub proof fn law_registrations_are_recorded_by_name(
    id: Seq<char>,
    now: Seq<char>,
    agent_id: Seq<char>,
    pid: u32,
)
    ensures
        record_registration_statement(id, now, agent_id, pid).sql == "INSERT INTO agent_history (id, agent_id, prev_status, new_status, trigger, detail, pid, created_at)
         SELECT ?1, ?2, prev, 'online', 'register', '', ?3, ?4
             FROM (SELECT COALESCE((SELECT status FROM agent_status WHERE agent_id = ?2), '') AS prev)
             WHERE prev != 'online'"@,
        record_registration_statement(id, now, agent_id, pid).params == seq![
            SqlCell::Text(id),
            SqlCell::Text(agent_id),
            SqlCell::Integer(pid as i64),
            SqlCell::Text(now),
        ],
{
}

/// Each column of an event gets the field of its name.
pub proof fn law_events_are_stored_by_name(row: SocketEventView)
    ensures
        record_event_statement(row).sql == "INSERT INTO socket_events (id, event_name, direction, agent_id, socket_id, room, payload, created_at)
         VALUES (?1, ?2, ?3, ?4, ?5, ?6, ?7, ?8)"@,
        record_event_statement(row).params == seq![
            SqlCell::Text(row.id),
            SqlCell::Text(row.event_name),
            SqlCell::Text(row.direction),
            SqlCell::Text(row.agent_id),
            SqlCell::Text(row.socket_id),
            SqlCell::Text(row.room),
            SqlCell::Text(row.payload),
            SqlCell::Text(row.created_at),
        ],
{
}

/// A memory is asked for by its id.
pub proof fn law_a_memory_is_asked_for_by_id(memory_id: Seq<char>)
    ensures
        get_memory_statement(memory_id).sql == "SELECT id, scope, category, key, metadata, tags, agent_id, run_id, skill_id, relevance_score, access_count, created_at, updated_at
             FROM memories WHERE id = ?1"@,
        get_memory_statement(memory_id).params == seq![
            SqlCell::Text(memory_id),
        ],
{
}

/// A memory is asked for by its key.
pub proof fn law_a_memory_is_asked_for_by_key(key: Seq<char>)
    ensures
        get_memory_by_key_statement(key).sql == "SELECT id, scope, category, key, metadata, tags, agent_id, run_id, skill_id, relevance_score, access_count, created_at, updated_at
             FROM memories WHERE key = ?1"@,
        get_memory_by_key_statement(key).params == seq![
            SqlCell::Text(key),
        ],
{
}

/// A tier is looked for by its memory and its name.
pub proof fn law_a_tier_is_looked_for(memory_id: Seq<char>, tier: Seq<char>)
    ensures
        find_tier_statement(memory_id, tier).sql
            == "SELECT id FROM memory_tiers WHERE memory_id = ?1 AND tier = ?2"@,
        find_tier_statement(memory_id, tier).params == seq![
            SqlCell::Text(memory_id),
            SqlCell::Text(tier),
        ],
{
}

/// The tiers of a memory are asked for in the order of their names.
pub proof fn law_tiers_are_asked_for_by_memory(memory_id: Seq<char>)
    ensures
        get_tiers_statement(memory_id).sql == "SELECT id, memory_id, tier, content, created_at, updated_at
             FROM memory_tiers WHERE memory_id = ?1 ORDER BY tier"@,
        get_tiers_statement(memory_id).params == seq![
            SqlCell::Text(memory_id),
        ],
{
}

/// A tier is asked for by its memory and its name.
pub proof fn law_a_tier_is_asked_for(memory_id: Seq<char>, tier: Seq<char>)
    ensures
        get_tier_statement(memory_id, tier).sql == "SELECT id, memory_id, tier, content, created_at, updated_at
             FROM memory_tiers WHERE memory_id = ?1 AND tier = ?2"@,
        get_tier_statement(memory_id, tier).params == seq![
            SqlCell::Text(memory_id),
            SqlCell::Text(tier),
        ],
{
}

/// A tier is deleted by its memory and its name.
pub proof fn law_a_tier_is_deleted(memory_id: Seq<char>, tier: Seq<char>)
    ensures
        delete_tier_statement(memory_id, tier).sql
            == "DELETE FROM memory_tiers WHERE memory_id = ?1 AND tier = ?2"@,
        delete_tier_statement(memory_id, tier).params == seq![
            SqlCell::Text(memory_id),
            SqlCell::Text(tier),
        ],
{
}

/// A memory is taken from a task by the ids of both.
pub proof fn law_a_binding_is_deleted(task_id: Seq<char>, memory_id: Seq<char>)
    ensures
        unbind_task_memory_statement(task_id, memory_id).sql
            == "DELETE FROM task_memories WHERE task_id = ?1 AND memory_id = ?2"@,
        unbind_task_memory_statement(task_id, memory_id).params == seq![
            SqlCell::Text(task_id),
            SqlCell::Text(memory_id),
        ],
{
}

/// The memories of a task are asked for, the most relevant first, up to a number.
pub proof fn law_memories_are_asked_for_by_task(task_id: Seq<char>, limit: u32)
    ensures
        list_memories_for_task_statement(task_id, limit).sql == "SELECT m.id, m.scope, m.category, m.key, m.metadata, m.tags, m.agent_id, m.run_id, m.skill_id, m.relevance_score, m.access_count, m.created_at, m.updated_at
             FROM memories m
             INNER JOIN task_memories tm ON m.id = tm.memory_id
             WHERE tm.task_id = ?1
             ORDER BY m.relevance_score DESC, m.updated_at DESC
             LIMIT ?2"@,
        list_memories_for_task_statement(task_id, limit).params == seq![
            SqlCell::Text(task_id),
            SqlCell::Integer(limit as i64),
        ],
{
}

/// The tasks of a memory are asked for, the newest first.
pub proof fn law_tasks_are_asked_for_by_memory(memory_id: Seq<char>)
    ensures
        list_tasks_for_memory_statement(memory_id).sql
            == "SELECT task_id FROM task_memories WHERE memory_id = ?1 ORDER BY created_at DESC"@,
        list_tasks_for_memory_statement(memory_id).params == seq![
            SqlCell::Text(memory_id),
        ],
{
}

/// The memories of each scope are counted, the scope with the most first.
pub proof fn law_memories_are_counted_by_scope()
    ensures
        count_memories_by_scope_statement().sql
            == "SELECT scope, COUNT(*) as cnt FROM memories GROUP BY scope ORDER BY cnt DESC"@,
        count_memories_by_scope_statement().params.len() == 0,
{
}

/// The agents are asked for in the order of their ids.
pub proof fn law_agents_are_asked_for()
    ensures
        list_agents_statement().sql == "SELECT agent_id, role, status, last_heartbeat, capabilities, skills, pid, preferred_model,
              soul_content, binary_path, version, first_registered_at, registration_count,
              crash_count, socket_id
             FROM agent_status ORDER BY agent_id"@,
        list_agents_statement().params.len() == 0,
{
}

/// An agent is asked for by its id.
pub proof fn law_an_agent_is_asked_for_by_id(agent_id: Seq<char>)
    ensures
        get_agent_statement(agent_id).sql == "SELECT agent_id, role, status, last_heartbeat, capabilities, skills, pid, preferred_model,
              soul_content, binary_path, version, first_registered_at, registration_count,
              crash_count, socket_id
             FROM agent_status WHERE agent_id = ?1"@,
        get_agent_statement(agent_id).params == seq![
            SqlCell::Text(agent_id),
        ],
{
}

/// The model of an agent is asked for by the id of the agent.
pub proof fn law_the_model_of_an_agent_is_asked_for(agent_id: Seq<char>)
    ensures
        get_agent_model_statement(agent_id).sql
            == "SELECT preferred_model FROM agent_status WHERE agent_id = ?1"@,
        get_agent_model_statement(agent_id).params == seq![
            SqlCell::Text(agent_id),
        ],
{
}

/// The changes of the config are asked for, the newest first, up to a number.
pub proof fn law_config_changes_are_asked_for(limit: u32)
    ensures
        list_config_history_statement(limit).sql == "SELECT id, config_hash, action, backup_path, timestamp
             FROM config_history ORDER BY timestamp DESC LIMIT ?1"@,
        list_config_history_statement(limit).params == seq![
            SqlCell::Integer(limit as i64),
        ],
{
}

/// A task is deleted by its id.
pub proof fn law_a_task_is_deleted_by_id(task_id: Seq<char>)
    ensures
        delete_task_statement(task_id).sql == "DELETE FROM tasks WHERE id = ?1"@,
        delete_task_statement(task_id).params == seq![
            SqlCell::Text(task_id),
        ],
{
}

/// The subtasks of a task are counted, and those of them that are completed.
pub proof fn law_subtasks_are_counted(parent_id: Seq<char>)
    ensures
        count_subtasks_statement(parent_id).sql == "SELECT COUNT(*), SUM(CASE WHEN status = 'completed' THEN 1 ELSE 0 END)
             FROM tasks WHERE parent_id = ?1"@,
        count_subtasks_statement(parent_id).params == seq![
            SqlCell::Text(parent_id),
        ],
{
}

/// The log of a task is asked for a page at a time, the oldest entry first.
pub proof fn law_logs_are_asked_for_by_task(task_id: Seq<char>, limit: u32, offset: u32)
    ensures
        list_task_logs_statement(task_id, limit, offset).sql == "SELECT id, task_id, level, message, detail, agent_id, stage, created_at
             FROM task_logs WHERE task_id = ?1
             ORDER BY created_at ASC LIMIT ?2 OFFSET ?3"@,
        list_task_logs_statement(task_id, limit, offset).params == seq![
            SqlCell::Text(task_id),
            SqlCell::Integer(limit as i64),
            SqlCell::Integer(offset as i64),
        ],
{
}

/// The entries of the log of a task are counted.
pub proof fn law_logs_are_counted_by_task(task_id: Seq<char>)
    ensures
        count_task_logs_statement(task_id).sql
            == "SELECT COUNT(*) FROM task_logs WHERE task_id = ?1"@,
        count_task_logs_statement(task_id).params == seq![
            SqlCell::Text(task_id),
        ],
{
}

/// The texts of the log of a task are asked for, the oldest first.
pub proof fn law_log_texts_are_asked_for_by_task(task_id: Seq<char>)
    ensures
        list_log_texts_statement(task_id).sql
            == "SELECT message, detail FROM task_logs WHERE task_id = ?1 ORDER BY created_at ASC"@,
        list_log_texts_statement(task_id).params == seq![
            SqlCell::Text(task_id),
        ],
{
}

/// The number of tries is asked for of the newest record of a stage of a run.
pub proof fn law_tries_are_asked_for_by_stage(run_id: Seq<char>, stage: Seq<char>)
    ensures
        get_stage_retry_count_statement(run_id, stage).sql
            == "SELECT retry_count FROM pipeline_runs WHERE run_id = ?1 AND stage = ?2 ORDER BY created_at DESC LIMIT 1"@,
        get_stage_retry_count_statement(run_id, stage).params == seq![
            SqlCell::Text(run_id),
            SqlCell::Text(stage),
        ],
{
}

/// The id of a cron job is asked for by its name.
pub proof fn law_a_job_is_asked_for_by_name(name: Seq<char>)
    ensures
        get_cron_job_id_statement(name).sql == "SELECT id FROM cron_jobs WHERE name = ?1"@,
        get_cron_job_id_statement(name).params == seq![
            SqlCell::Text(name),
        ],
{
}

/// The cron jobs are asked for in the order of their names.
pub proof fn law_jobs_are_asked_for()
    ensures
        list_cron_jobs_statement().sql == "SELECT id, name, schedule, enabled, last_run_at, next_run_at,
                    last_status, last_error, created_at
             FROM cron_jobs ORDER BY name"@,
        list_cron_jobs_statement().params.len() == 0,
{
}

/// The changes of an agent are asked for a page at a time.
pub proof fn law_changes_are_asked_for_by_agent(agent_id: Seq<char>, limit: u32, offset: u32)
    ensures
        list_agent_history_statement(agent_id, limit, offset).sql == "SELECT id, agent_id, prev_status, new_status, trigger, detail, pid, created_at
         FROM agent_history WHERE agent_id = ?1 ORDER BY created_at DESC LIMIT ?2 OFFSET ?3"@,
        list_agent_history_statement(agent_id, limit, offset).params == seq![
            SqlCell::Text(agent_id),
            SqlCell::Integer(limit as i64),
            SqlCell::Integer(offset as i64),
        ],
{
}

/// The tables are made with the columns of their records, and a failure to make one is told
/// by its name.
pub proof fn law_tables_are_made()
    ensures
        setup()[0].sql == "PRAGMA journal_mode=WAL; PRAGMA busy_timeout=5000;"@,
        setup()[0].context == "Failed to set WAL + busy_timeout pragmas"@,
        setup()[1].sql == "CREATE TABLE IF NOT EXISTS tasks (
            id          TEXT PRIMARY KEY,
            task_type   TEXT NOT NULL,
            status      TEXT NOT NULL DEFAULT 'pending',
            agent_id    TEXT NOT NULL DEFAULT '',
            payload     TEXT NOT NULL DEFAULT '{}',
            created_at  TEXT NOT NULL,
            updated_at  TEXT NOT NULL
        )"@,
        setup()[1].context == "create tasks table"@,
        setup()[2].sql == "CREATE TABLE IF NOT EXISTS pipeline_runs (
            id          TEXT PRIMARY KEY,
            stage       TEXT NOT NULL,
            artifact_id TEXT NOT NULL DEFAULT '',
            status      TEXT NOT NULL DEFAULT 'pending',
            result      TEXT,
            created_at  TEXT NOT NULL,
            updated_at  TEXT NOT NULL
        )"@,
        setup()[2].context == "create pipeline_runs table"@,
        setup()[3].sql == "CREATE TABLE IF NOT EXISTS agent_status (
            agent_id            TEXT PRIMARY KEY,
            role                TEXT NOT NULL DEFAULT '',
            status              TEXT NOT NULL DEFAULT 'offline',
            last_heartbeat      TEXT NOT NULL,
            preferred_model     TEXT NOT NULL DEFAULT '',
            soul_content        TEXT NOT NULL DEFAULT '',
            binary_path         TEXT NOT NULL DEFAULT '',
            version             TEXT NOT NULL DEFAULT '',
            first_registered_at TEXT NOT NULL DEFAULT '',
            registration_count  INTEGER NOT NULL DEFAULT 0,
            crash_count         INTEGER NOT NULL DEFAULT 0,
            socket_id           TEXT NOT NULL DEFAULT ''
        )"@,
        setup()[3].context == "create agent_status table"@,
        setup()[4].sql == "CREATE TABLE IF NOT EXISTS config_history (
            id          TEXT PRIMARY KEY,
            config_hash TEXT NOT NULL,
            action      TEXT NOT NULL,
            backup_path TEXT NOT NULL DEFAULT '',
            timestamp   TEXT NOT NULL
        )"@,
        setup()[4].context == "create config_history table"@,
        setup()[5].sql == "CREATE TABLE IF NOT EXISTS cron_jobs (
            id          TEXT PRIMARY KEY,
            name        TEXT NOT NULL UNIQUE,
            schedule    TEXT NOT NULL,
            enabled     INTEGER NOT NULL DEFAULT 1,
            last_run_at TEXT,
            next_run_at TEXT,
            last_status TEXT,
            last_error  TEXT,
            created_at  TEXT NOT NULL
        )"@,
        setup()[5].context == "create cron_jobs table"@,
        setup()[6].sql == "CREATE TABLE IF NOT EXISTS task_logs (
            id         TEXT PRIMARY KEY,
            task_id    TEXT NOT NULL,
            level      TEXT NOT NULL DEFAULT 'info',
            message    TEXT NOT NULL,
            detail     TEXT NOT NULL DEFAULT '',
            agent_id   TEXT NOT NULL DEFAULT '',
            stage      TEXT NOT NULL DEFAULT '',
            created_at TEXT NOT NULL
        )"@,
        setup()[6].context == "create task_logs table"@,
        setup()[7].sql == "CREATE TABLE IF NOT EXISTS memories (
            id              TEXT PRIMARY KEY,
            scope           TEXT NOT NULL DEFAULT 'system',
            category        TEXT NOT NULL DEFAULT 'general',
            key             TEXT NOT NULL DEFAULT '',
            metadata        TEXT NOT NULL DEFAULT '{}',
            tags            TEXT NOT NULL DEFAULT '',
            agent_id        TEXT NOT NULL DEFAULT '',
            run_id          TEXT NOT NULL DEFAULT '',
            skill_id        TEXT NOT NULL DEFAULT '',
            relevance_score REAL NOT NULL DEFAULT 0.0,
            access_count    INTEGER NOT NULL DEFAULT 0,
            created_at      TEXT NOT NULL,
            updated_at      TEXT NOT NULL
        )"@,
        setup()[7].context == "create memories table"@,
        setup()[8].sql == "CREATE TABLE IF NOT EXISTS memory_tiers (
            id         TEXT PRIMARY KEY,
            memory_id  TEXT NOT NULL,
            tier       TEXT NOT NULL,
            content    TEXT NOT NULL DEFAULT '',
            created_at TEXT NOT NULL,
            updated_at TEXT NOT NULL
        )"@,
        setup()[8].context == "create memory_tiers table"@,
        setup()[9].sql == "CREATE TABLE IF NOT EXISTS task_memories (
            id         TEXT PRIMARY KEY,
            task_id    TEXT NOT NULL,
            memory_id  TEXT NOT NULL,
            created_at TEXT NOT NULL
        )"@,
        setup()[9].context == "create task_memories table"@,
        setup()[10].sql == "CREATE INDEX IF NOT EXISTS idx_memories_scope ON memories(scope);
         CREATE INDEX IF NOT EXISTS idx_memories_category ON memories(category);
         CREATE INDEX IF NOT EXISTS idx_memories_agent_id ON memories(agent_id);
         CREATE INDEX IF NOT EXISTS idx_memories_run_id ON memories(run_id);
         CREATE INDEX IF NOT EXISTS idx_memories_key ON memories(key);
         CREATE INDEX IF NOT EXISTS idx_memories_created_at ON memories(created_at);
         CREATE INDEX IF NOT EXISTS idx_memory_tiers_memory_id ON memory_tiers(memory_id);
         CREATE INDEX IF NOT EXISTS idx_memory_tiers_tier ON memory_tiers(tier);
         CREATE INDEX IF NOT EXISTS idx_task_memories_task_id ON task_memories(task_id);
         CREATE INDEX IF NOT EXISTS idx_task_memories_memory_id ON task_memories(memory_id);
         CREATE UNIQUE INDEX IF NOT EXISTS idx_task_memories_unique ON task_memories(task_id, memory_id);"@,
        setup()[10].context == "create memory indexes"@,
        setup()[11].sql == "CREATE TABLE IF NOT EXISTS agent_history (
            id          TEXT PRIMARY KEY,
            agent_id    TEXT NOT NULL,
            prev_status TEXT NOT NULL DEFAULT '',
            new_status  TEXT NOT NULL,
            trigger     TEXT NOT NULL DEFAULT '',
            detail      TEXT NOT NULL DEFAULT '',
            pid         INTEGER NOT NULL DEFAULT 0,
            created_at  TEXT NOT NULL
        )"@,
        setup()[11].context == "create agent_history table"@,
        setup()[12].sql == "CREATE TABLE IF NOT EXISTS socket_events (
            id          TEXT PRIMARY KEY,
            event_name  TEXT NOT NULL,
            direction   TEXT NOT NULL DEFAULT 'inbound',
            agent_id    TEXT NOT NULL DEFAULT '',
            socket_id   TEXT NOT NULL DEFAULT '',
            room        TEXT NOT NULL DEFAULT '',
            payload     TEXT NOT NULL DEFAULT '{}',
            created_at  TEXT NOT NULL
        )"@,
        setup()[12].context == "create socket_events table"@,
        setup()[13].sql == "CREATE INDEX IF NOT EXISTS idx_agent_history_agent_id ON agent_history(agent_id);
         CREATE INDEX IF NOT EXISTS idx_agent_history_created_at ON agent_history(created_at);
         CREATE INDEX IF NOT EXISTS idx_socket_events_agent_id ON socket_events(agent_id);
         CREATE INDEX IF NOT EXISTS idx_socket_events_event_name ON socket_events(event_name);
         CREATE INDEX IF NOT EXISTS idx_socket_events_created_at ON socket_events(created_at);"@,
        setup()[13].context == "create history indexes"@,
{
}

/// Tables of an older form get each column that they lack.
pub proof fn law_older_tables_get_their_columns()
    ensures
        setup().len() == 35,
        setup()[14].sql
            == "ALTER TABLE agent_status ADD COLUMN capabilities TEXT NOT NULL DEFAULT '[]'"@,
        setup()[15].sql == "ALTER TABLE agent_status ADD COLUMN skills TEXT NOT NULL DEFAULT '[]'"@,
        setup()[16].sql == "ALTER TABLE agent_status ADD COLUMN pid INTEGER NOT NULL DEFAULT 0"@,
        setup()[17].sql == "ALTER TABLE pipeline_runs ADD COLUMN run_id TEXT NOT NULL DEFAULT ''"@,
        setup()[18].sql
            == "ALTER TABLE pipeline_runs ADD COLUMN agent_id TEXT NOT NULL DEFAULT ''"@,
        setup()[19].sql == "ALTER TABLE pipeline_runs ADD COLUMN error TEXT"@,
        setup()[20].sql == "ALTER TABLE tasks ADD COLUMN run_id TEXT NOT NULL DEFAULT ''"@,
        setup()[21].sql == "ALTER TABLE tasks ADD COLUMN current_stage TEXT NOT NULL DEFAULT ''"@,
        setup()[22].sql == "ALTER TABLE tasks ADD COLUMN summary TEXT NOT NULL DEFAULT ''"@,
        setup()[23].sql == "ALTER TABLE tasks ADD COLUMN parent_id TEXT NOT NULL DEFAULT ''"@,
        setup()[24].sql
            == "CREATE INDEX IF NOT EXISTS idx_task_logs_task_id ON task_logs(task_id)"@,
        setup()[25].sql
            == "ALTER TABLE agent_status ADD COLUMN preferred_model TEXT NOT NULL DEFAULT ''"@,
        setup()[26].sql
            == "ALTER TABLE pipeline_runs ADD COLUMN input_metadata TEXT NOT NULL DEFAULT '{}'"@,
        setup()[27].sql
            == "ALTER TABLE pipeline_runs ADD COLUMN retry_count INTEGER NOT NULL DEFAULT 0"@,
        setup()[28].sql
            == "ALTER TABLE agent_status ADD COLUMN soul_content TEXT NOT NULL DEFAULT ''"@,
        setup()[29].sql
            == "ALTER TABLE agent_status ADD COLUMN binary_path TEXT NOT NULL DEFAULT ''"@,
        setup()[30].sql == "ALTER TABLE agent_status ADD COLUMN version TEXT NOT NULL DEFAULT ''"@,
        setup()[31].sql
            == "ALTER TABLE agent_status ADD COLUMN first_registered_at TEXT NOT NULL DEFAULT ''"@,
        setup()[32].sql
            == "ALTER TABLE agent_status ADD COLUMN registration_count INTEGER NOT NULL DEFAULT 0"@,
        setup()[33].sql
            == "ALTER TABLE agent_status ADD COLUMN crash_count INTEGER NOT NULL DEFAULT 0"@,
        setup()[34].sql
            == "ALTER TABLE agent_status ADD COLUMN socket_id TEXT NOT NULL DEFAULT ''"@,
{
}

/// A migration whose column is there already is done, and another failure of one is a
/// warning.
pub proof fn law_columns_that_are_there_are_no_failure(before: Seq<char>, after: Seq<char>)
    ensures
        setup_outcome(SetupKind::Migration, Some(before + "duplicate column"@ + after))
            == SetupOutcome::Present,
        !has_part(before, "duplicate column"@) ==> setup_outcome(
            SetupKind::Migration,
            Some(before),
        ) == SetupOutcome::Warning,
        setup_outcome(SetupKind::Migration, None) == SetupOutcome::Done,
        setup_outcome(SetupKind::Table, None) == SetupOutcome::Done,
        setup_outcome(SetupKind::Table, Some(before)) == SetupOutcome::Stop,
        setup_outcome(SetupKind::Batch, Some(before)) == SetupOutcome::Stop,
{
    let part = "duplicate column"@;
    let whole = before + part + after;
    let at = before.len() as int;
    assert(whole.subrange(at, at + part.len()) =~= part);
    assert(occurs_at(whole, part, at));
}

/// What is deleted, by its time or by its memory, and what is marked when an agent comes back
/// or goes.
pub proof fn law_records_are_deleted_and_marked()
    ensures
        crate::history::PURGE_SOCKET_EVENTS@ == "DELETE FROM socket_events WHERE created_at < ?1"@,
        crate::history::PURGE_AGENT_HISTORY@ == "DELETE FROM agent_history WHERE created_at < ?1"@,
        crate::history::MARK_AGENT_RESPAWNED@ == "UPDATE agent_status SET status = 'respawned'
         WHERE role LIKE '%' || ?1 || '%' AND status = 'crashed'"@,
        crate::history::RECORD_DISCONNECT@ == "INSERT INTO agent_history (id, agent_id, prev_status, new_status, trigger, detail, pid, created_at)
         SELECT ?1 || ':' || agent_id, agent_id, status, 'disconnected', 'disconnect', '', pid, ?2
             FROM agent_status
             WHERE socket_id = ?3 AND socket_id != ''"@,
        crate::history::MARK_DISCONNECTED@ == "UPDATE agent_status SET status = 'disconnected', socket_id = ''
         WHERE socket_id = ?1 AND socket_id != ''"@,
        crate::memory_db::DELETE_MEMORY_TIERS@ == "DELETE FROM memory_tiers WHERE memory_id = ?1"@,
        crate::memory_db::DELETE_MEMORY_TASKS@ == "DELETE FROM task_memories WHERE memory_id = ?1"@,
        crate::memory_db::DELETE_MEMORY@ == "DELETE FROM memories WHERE id = ?1"@,
        crate::trace_db::DELETE_OLD_SPANS@ == "DELETE FROM spans WHERE start_time_ns < ?1"@,
        crate::trace_db::DELETE_OLD_TRACES@ == "DELETE FROM traces WHERE start_time_ns < ?1"@,
        crate::trace_db::SELECT_TRACES@ == "SELECT trace_id, service_name, root_span_name,
                start_time_ns, end_time_ns, duration_ns,
                status_code, span_count, resource, updated_at
         FROM traces "@,
{
}

/// A list of records as JSON has each record in its place.
pub proof fn law_task_trees_keep_their_order(rows: Seq<TaskRow>, i: int)
    ensures
        task_trees(rows).len() == rows.len(),
        0 <= i < rows.len() ==> task_trees(rows)[i] == task_json(rows[i]@),
{
}

/// A list of records as JSON has each record in its place.
pub proof fn law_memory_trees_keep_their_order(rows: Seq<MemoryRow>, trim_tags: bool, i: int)
    ensures
        memory_trees(rows, trim_tags).len() == rows.len(),
        0 <= i < rows.len()
            ==> memory_trees(rows, trim_tags)[i] == memory_json(rows[i]@, trim_tags),
{
}

/// A list of records as JSON has each record in its place.
pub proof fn law_tier_trees_keep_their_order(rows: Seq<MemoryTierRow>, i: int)
    ensures
        tier_trees(rows).len() == rows.len(),
        0 <= i < rows.len() ==> tier_trees(rows)[i] == tier_json(rows[i]@),
{
}

/// A list of records as JSON has each record in its place.
pub proof fn law_brief_tier_trees_keep_their_order(rows: Seq<MemoryTierRow>, i: int)
    ensures
        brief_tier_trees(rows).len() == rows.len(),
        0 <= i < rows.len() ==> brief_tier_trees(rows)[i] == brief_tier_json(rows[i]@),
{
}

/// A list of records as JSON has each record in its place.
pub proof fn law_agent_trees_keep_their_order(rows: Seq<AgentRow>, i: int)
    ensures
        agent_trees(rows).len() == rows.len(),
        0 <= i < rows.len() ==> agent_trees(rows)[i] == agent_json(rows[i]@),
{
}

/// A list of records as JSON has each record in its place.
pub proof fn law_pipeline_trees_keep_their_order(rows: Seq<PipelineRow>, i: int)
    ensures
        pipeline_trees(rows).len() == rows.len(),
        0 <= i < rows.len() ==> pipeline_trees(rows)[i] == pipeline_json(rows[i]@),
{
}

/// A list of records as JSON has each record in its place.
pub proof fn law_cron_trees_keep_their_order(rows: Seq<CronJobRow>, i: int)
    ensures
        cron_trees(rows).len() == rows.len(),
        0 <= i < rows.len() ==> cron_trees(rows)[i] == cron_json(rows[i]@),
{
}

/// A list of records as JSON has each record in its place.
pub proof fn law_history_trees_keep_their_order(rows: Seq<ConfigHistoryRow>, i: int)
    ensures
        history_trees(rows).len() == rows.len(),
        0 <= i < rows.len() ==> history_trees(rows)[i] == history_json(rows[i]@),
{
}

/// A list of records as JSON has each record in its place.
pub proof fn law_log_trees_keep_their_order(rows: Seq<TaskLogRow>, i: int)
    ensures
        log_trees(rows).len() == rows.len(),
        0 <= i < rows.len() ==> log_trees(rows)[i] == log_json(rows[i]@),
{
}

/// A list of records as JSON has each record in its place.
pub proof fn law_change_trees_keep_their_order(rows: Seq<AgentHistoryRow>, i: int)
    ensures
        change_trees(rows).len() == rows.len(),
        0 <= i < rows.len() ==> change_trees(rows)[i] == change_json(rows[i]@),
{
}

/// A list of records as JSON has each record in its place.
pub proof fn law_event_trees_keep_their_order(rows: Seq<SocketEventRow>, i: int)
    ensures
        event_trees(rows).len() == rows.len(),
        0 <= i < rows.len() ==> event_trees(rows)[i] == event_json(rows[i]@),
{
}

} // verus!
