//! What the king tells its agents, its clients and the dashboard, member by member.

use crate::debug::{
    BashView, PromptView, accepted, exit_steps, new_task_events, prompt_of, prompt_payload,
    prompt_room, prompt_task_payload,
};
use crate::events::{EmissionView, TargetView, notice, role_room_name, task_room_name};
use crate::json::{JsonTree, compact_text, int_tree, member_text, real_tree};
use crate::memory_db::MemoryView;
use crate::pipeline_coordinator::stage_named;
use crate::records::task_json;
use crate::socket_server::{
    Handler, Role, case_metadata, debug_response_steps, debug_stream_events, evaluated_events,
    granted, handler_table, is_kernel, is_requested_memory, limit_of, memory_events, memory_missing,
    memory_reply, metadata_of, refusal, refused, report_of, requested_type, role_named, rooms_of,
    tags_text, task_missing, task_reply, tiers_of,
};
use crate::steps::{StepView, log_news, task_news};
use crate::task_db::{TaskLogView, TaskView};
use crate::text::{byte_len, decimal_int, replaced, text_or};
use vstd::prelude::*;

verus! {

/// Whether an event goes to a room.
pub open spec fn to_room_of(e: EmissionView, room: Seq<char>, event: Seq<char>) -> bool {
    e.target == TargetView::Room(room) && e.event == event
}

/// Whether an event goes to the others in a room.
pub open spec fn to_peers_of(e: EmissionView, room: Seq<char>, event: Seq<char>) -> bool {
    e.target == TargetView::Peers(room) && e.event == event
}

/// Whether an event tells the dashboard of an event with its data.
pub open spec fn tells(e: EmissionView, event: Seq<char>, data: JsonTree) -> bool {
    &&& to_room_of(e, "dashboard"@, "dashboard:event"@)
    &&& e.payload.get_text("event"@) == Some(event)
    &&& e.payload.get("data"@) == Some(data)
}

/// The event that a step sends.
pub open spec fn sent(step: StepView) -> EmissionView
    recommends
        step is Send,
{
    step->Send_emission
}

/// Each event that clients send is handled in its own way, and no event is handled in
/// two ways.
#[verifier::rlimit(60)]
pub proof fn law_events_have_handlers(event: Seq<char>, handler: Handler)
    ensures
        handler_table().contains((event, handler)) <==> match handler {
            Handler::Subscribe => event == "dashboard:subscribe"@,
            Handler::Register => event == "agent:register"@,
            Handler::Status => event == "agent:status"@,
            Handler::SkillReport => event == "agent:skill_report"@,
            Handler::Health => event == "agent:health"@,
            Handler::StageResult => event == "pipeline:stage_result"@,
            Handler::DebugResponse => event == "debug:response"@,
            Handler::DebugStream => event == "debug:stream"@,
            Handler::TaskCreate => event == "task:create"@,
            Handler::TaskUpdate => event == "task:update"@,
            Handler::TaskGet => event == "task:get"@,
            Handler::TaskList => event == "task:list"@,
            Handler::TaskDelete => event == "task:delete"@,
            Handler::MemoryStore => event == "memory:store"@,
            Handler::MemoryQuery => event == "memory:query"@,
            Handler::MemoryUpdate => event == "memory:update"@,
            Handler::MemoryDelete => event == "memory:delete"@,
            Handler::TaskJoin => event == "task:join"@,
            Handler::TaskSummary => event == "task:summary"@,
            Handler::SystemInfo => event == "king:system_info"@,
        },
{
    assert(handler_table()[0] == ("dashboard:subscribe"@, Handler::Subscribe));
    assert(handler_table()[1] == ("agent:register"@, Handler::Register));
    assert(handler_table()[2] == ("agent:status"@, Handler::Status));
    assert(handler_table()[3] == ("agent:skill_report"@, Handler::SkillReport));
    assert(handler_table()[4] == ("agent:health"@, Handler::Health));
    assert(handler_table()[5] == ("pipeline:stage_result"@, Handler::StageResult));
    assert(handler_table()[6] == ("debug:response"@, Handler::DebugResponse));
    assert(handler_table()[7] == ("debug:stream"@, Handler::DebugStream));
    assert(handler_table()[8] == ("task:create"@, Handler::TaskCreate));
    assert(handler_table()[9] == ("task:update"@, Handler::TaskUpdate));
    assert(handler_table()[10] == ("task:get"@, Handler::TaskGet));
    assert(handler_table()[11] == ("task:list"@, Handler::TaskList));
    assert(handler_table()[12] == ("task:delete"@, Handler::TaskDelete));
    assert(handler_table()[13] == ("memory:store"@, Handler::MemoryStore));
    assert(handler_table()[14] == ("memory:query"@, Handler::MemoryQuery));
    assert(handler_table()[15] == ("memory:update"@, Handler::MemoryUpdate));
    assert(handler_table()[16] == ("memory:delete"@, Handler::MemoryDelete));
    assert(handler_table()[17] == ("task:join"@, Handler::TaskJoin));
    assert(handler_table()[18] == ("task:summary"@, Handler::TaskSummary));
    assert(handler_table()[19] == ("king:system_info"@, Handler::SystemInfo));
}

/// The names are distinct.
proof fn lemma_refusals_say_why_names()
    ensures
        "success"@ != "error"@,
{
    reveal_strlit("success");
    reveal_strlit("error");
    assert("success"@.len() != "error"@.len());
}

/// A request that is refused is answered with the reason and no success, and nobody else
/// is told; one that is granted is answered with success and no error.
pub proof fn law_refusals_say_why(message: Seq<char>)
    ensures
        refusal(message).get("success"@) == Some(JsonTree::Bool(false)),
        refusal(message).get_text("error"@) == Some(message),
        refused(message).ack == refusal(message),
        refused(message).events.len() == 0,
        granted().get("success"@) == Some(JsonTree::Bool(true)),
        granted().get("error"@) is None,
{
    lemma_refusals_say_why_names();
}

/// The names are distinct.
proof fn lemma_missing_records_are_named_names()
    ensures
        "success"@ != "error"@,
{
    reveal_strlit("success");
    reveal_strlit("error");
    assert("success"@.len() != "error"@.len());
}

/// The answer that a record is not there names it.
pub proof fn law_missing_records_are_named(id: Seq<char>)
    ensures
        task_missing(id).ack.get_text("error"@) == Some("task not found: "@ + id),
        memory_missing(id).ack.get_text("error"@) == Some("memory not found: "@ + id),
        task_missing(id).ack.get("success"@) == Some(JsonTree::Bool(false)),
        memory_missing(id).ack.get("success"@) == Some(JsonTree::Bool(false)),
        task_missing(id).events.len() == 0,
        memory_missing(id).events.len() == 0,
{
    lemma_missing_records_are_named_names();
}

/// The names are distinct.
proof fn lemma_notices_name_the_event_names()
    ensures
        "event"@ != "data"@,
{
    reveal_strlit("event");
    reveal_strlit("data");
    assert("event"@.len() != "data"@.len());
}

/// The dashboard is told of an event by its name, with its data.
pub proof fn law_notices_name_the_event(event: Seq<char>, data: JsonTree)
    ensures
        notice(event, data).get_text("event"@) == Some(event),
        notice(event, data).get("data"@) == Some(data),
{
    lemma_notices_name_the_event_names();
}

/// The room of a role and that of a task have its name after their beginning.
pub proof fn law_rooms_are_named_after_what_they_are_for(name: Seq<char>)
    ensures
        role_room_name(name) == "role:"@ + name,
        task_room_name(name) == "task:"@ + name,
{
}

/// The names are distinct.
proof fn lemma_changed_tasks_are_told_names()
    ensures
        "success"@ != "task"@,
        "success"@ != "action"@,
        "task"@ != "action"@,
{
    reveal_strlit("success");
    reveal_strlit("task");
    reveal_strlit("action");
    assert("success"@.len() != "task"@.len());
    assert("success"@.len() != "action"@.len());
    assert("task"@.len() != "action"@.len());
}

/// A request that created or changed a task is answered with the task, and the other
/// kernel agents and the dashboard are told what was done to it.
pub proof fn law_changed_tasks_are_told(action: Seq<char>, task: TaskView)
    ensures
        ({
            let r = task_reply(action, task);
            &&& r.ack.get("success"@) == Some(JsonTree::Bool(true))
            &&& r.ack.get("task"@) == Some(task_json(task))
            &&& r.events.len() == 2
            &&& to_peers_of(r.events[0], "kernel"@, "task:changed"@)
            &&& to_peers_of(r.events[1], "dashboard"@, "task:changed"@)
            &&& forall|i: int|
                0 <= i < 2 ==> (#[trigger] r.events[i]).payload.get_text("action"@) == Some(action)
                    && r.events[i].payload.get("task"@) == Some(task_json(task))
        }),
{
    lemma_changed_tasks_are_told_names();
}

/// The names are distinct.
proof fn lemma_changed_memories_are_told_names()
    ensures
        "success"@ != "memory_id"@,
        "success"@ != "action"@,
        "success"@ != "event"@,
        "success"@ != "data"@,
        "memory_id"@ != "action"@,
        "memory_id"@ != "event"@,
        "memory_id"@ != "data"@,
        "action"@ != "event"@,
        "action"@ != "data"@,
        "event"@ != "data"@,
{
    reveal_strlit("success");
    reveal_strlit("memory_id");
    reveal_strlit("action");
    reveal_strlit("event");
    reveal_strlit("data");
    assert("success"@.len() != "memory_id"@.len());
    assert("success"@.len() != "action"@.len());
    assert("success"@.len() != "event"@.len());
    assert("success"@.len() != "data"@.len());
    assert("memory_id"@.len() != "action"@.len());
    assert("memory_id"@.len() != "event"@.len());
    assert("memory_id"@.len() != "data"@.len());
    assert("action"@.len() != "event"@.len());
    assert("action"@.len() != "data"@.len());
    assert("event"@.len() != "data"@.len());
}

/// A request that created or deleted a memory is answered with the id of the memory, and
/// the other kernel agents and the dashboard are told what was done to it.
pub proof fn law_changed_memories_are_told(action: Seq<char>, memory_id: Seq<char>)
    ensures
        ({
            let r = memory_reply(action, memory_id);
            let change = r.events[0].payload;
            &&& r.ack.get("success"@) == Some(JsonTree::Bool(true))
            &&& r.ack.get_text("memory_id"@) == Some(memory_id)
            &&& r.events.len() == 2
            &&& to_peers_of(r.events[0], "kernel"@, "memory:changed"@)
            &&& to_peers_of(r.events[1], "dashboard"@, "dashboard:event"@)
            &&& change.get_text("action"@) == Some(action)
            &&& change.get_text("memory_id"@) == Some(memory_id)
            &&& r.events[1].payload.get_text("event"@) == Some("memory:changed"@)
            &&& r.events[1].payload.get("data"@) == Some(change)
            &&& memory_events(action, memory_id) == r.events
        }),
{
    lemma_changed_memories_are_told_names();
}

/// The names are distinct.
proof fn lemma_evaluated_tasks_are_told_names()
    ensures
        "action"@ != "task"@,
        "action"@ != "event"@,
        "action"@ != "data"@,
        "task"@ != "event"@,
        "task"@ != "data"@,
        "event"@ != "data"@,
{
    reveal_strlit("action");
    reveal_strlit("task");
    reveal_strlit("event");
    reveal_strlit("data");
    assert("action"@.len() != "task"@.len());
    assert("action"@.len() != "event"@.len());
    assert("action"@.len() != "data"@.len());
    assert("task"@.len() != "event"@.len());
    assert("task"@[0] == 't' && "data"@[0] == 'd');
    assert("event"@.len() != "data"@.len());
}

/// Of a task that was evaluated the other kernel agents are told, and the dashboard is told
/// of it twice: as a change, and as an event.
pub proof fn law_evaluated_tasks_are_told(task: TaskView)
    ensures
        ({
            let e = evaluated_events(task);
            let change = e[0].payload;
            &&& e.len() == 3
            &&& to_peers_of(e[0], "kernel"@, "task:changed"@)
            &&& to_peers_of(e[1], "dashboard"@, "task:changed"@)
            &&& to_peers_of(e[2], "dashboard"@, "dashboard:event"@)
            &&& change.get_text("action"@) == Some("evaluated"@)
            &&& change.get("task"@) == Some(task_json(task))
            &&& e[1].payload == change
            &&& e[2].payload.get_text("event"@) == Some("task:changed"@)
            &&& e[2].payload.get("data"@) == Some(change)
        }),
{
    lemma_evaluated_tasks_are_told_names();
}

/// A report has the run, the stage, the agent, the status, the artifact, the output and the
/// error of the members of these names. It is none without a run or a known stage.
pub proof fn law_reports_are_read_by_name(data: JsonTree)
    ensures
        report_of(data) is Some <==> {
            &&& data.get_text("run_id"@) matches Some(run_id)
            &&& run_id.len() > 0
            &&& data.get_text("stage"@) matches Some(stage)
            &&& stage_named(stage) is Some
        },
        report_of(data) matches Some(r) ==> {
            &&& data.get_text("run_id"@) == Some(r.run_id)
            &&& data.get_text("stage"@) matches Some(stage)
            &&& stage_named(stage) == Some(r.stage)
            &&& r.agent_id == text_or(data.get_text("agent_id"@), "unknown"@)
            &&& r.status == text_or(data.get_text("status"@), "completed"@)
            &&& r.artifact_id == text_or(data.get_text("artifact_id"@), ""@)
            &&& (data.get("output"@) matches Some(output) ==> r.output == output)
            &&& (data.get("output"@) is None ==> r.output is Null)
            &&& r.error == data.get_text("error"@)
        },
{
}

/// An agent registers with what the members of these names hold.
pub proof fn law_registrations_are_read_by_name(data: JsonTree, pid: u32, socket_id: Seq<char>)
    ensures
        ({
            let m = metadata_of(data, pid, socket_id);
            &&& m.agent_id == text_or(data.get_text("agent_id"@), ""@)
            &&& m.role == text_or(data.get_text("role"@), "unknown"@)
            &&& m.capabilities == text_or(member_text(data, "capabilities"@), "[]"@)
            &&& m.skills == text_or(member_text(data, "skills"@), "[]"@)
            &&& m.pid == pid
            &&& m.soul_content == text_or(data.get_text("soul_content"@), ""@)
            &&& m.binary_path == text_or(data.get_text("binary_path"@), ""@)
            &&& m.version == text_or(data.get_text("version"@), ""@)
            &&& m.socket_id == socket_id
        }),
{
}

/// A kernel agent joins the room of the kernel and the room of its role, which is written
/// with underscores; another agent joins no room. Each role but that of user agents is a
/// kernel role.
pub proof fn law_kernel_agents_join_two_rooms(data: JsonTree)
    ensures
        rooms_of(data, true)
            == seq!["kernel"@, "role:"@
                + replaced(text_or(data.get_text("role"@), "unknown"@), '-', "_"@)],
        rooms_of(data, false).len() == 0,
        is_kernel(data)
            <==> (data.get("role"@) matches Some(role) && role_named(role) is Some
                && role_named(role) != Some(Role::User)),
{
}

/// The names are distinct.
proof fn lemma_debug_answers_end_their_task_names()
    ensures
        "event"@ != "data"@,
        "event"@ != "task_id"@,
        "event"@ != "request_id"@,
        "event"@ != "agent_id"@,
        "data"@ != "task_id"@,
        "data"@ != "request_id"@,
        "data"@ != "agent_id"@,
        "task_id"@ != "request_id"@,
        "task_id"@ != "agent_id"@,
        "request_id"@ != "agent_id"@,
{
    reveal_strlit("event");
    reveal_strlit("data");
    reveal_strlit("task_id");
    reveal_strlit("request_id");
    reveal_strlit("agent_id");
    assert("event"@.len() != "data"@.len());
    assert("event"@.len() != "task_id"@.len());
    assert("event"@.len() != "request_id"@.len());
    assert("event"@.len() != "agent_id"@.len());
    assert("data"@.len() != "task_id"@.len());
    assert("data"@.len() != "request_id"@.len());
    assert("data"@.len() != "agent_id"@.len());
    assert("task_id"@.len() != "request_id"@.len());
    assert("task_id"@.len() != "agent_id"@.len());
    assert("request_id"@.len() != "agent_id"@.len());
}

/// The dashboard is told of the answer to a debug prompt. Where it names a task, the task
/// is completed, the answer is in its log, and the task is evaluated: the agents that
/// evaluate and the room of the task are told its id, the request and the agent.
#[verifier::rlimit(40)]
pub proof fn law_debug_answers_end_their_task(data: JsonTree)
    ensures
        debug_response_steps(data)[0] is Send,
        tells(sent(debug_response_steps(data)[0]), "debug:response"@, data),
        data.get_text("task_id"@) is None
            || data.get_text("task_id"@) == Some(Seq::<char>::empty()) ==>
            debug_response_steps(data).len() == 1,
        data.get_text("task_id"@) matches Some(task_id) ==> task_id.len() > 0 ==> {
            let s = debug_response_steps(data);
            let asked = sent(s[3]).payload;
            let request_id = text_or(data.get_text("request_id"@), "unknown"@);
            let agent_id = text_or(data.get_text("agent_id"@), "unknown"@);
            &&& s.len() == 5
            &&& s[1] matches StepView::UpdateTask { task_id: id, status, current_stage, summary }
            &&& id == task_id && status == Some("completed"@) && current_stage is None
            &&& summary is None
            &&& s[2] matches StepView::RecordLog { entry }
            &&& entry.task_id == task_id
            &&& entry.level == "info"@
            &&& entry.message == "debug:response completed"@
            &&& entry.detail == text_or(data.get_text("response"@), ""@)
            &&& entry.agent_id == agent_id
            &&& entry.stage == "response"@
            &&& s[3] is Send && s[4] is Send
            &&& to_room_of(sent(s[3]), "role:evaluation"@, "task:evaluate"@)
            &&& to_room_of(sent(s[4]), "task:"@ + task_id, "task:evaluate"@)
            &&& asked.get_text("task_id"@) == Some(task_id)
            &&& asked.get_text("request_id"@) == Some(request_id)
            &&& asked.get_text("agent_id"@) == Some(agent_id)
            &&& sent(s[4]).payload == asked
        },
{
    lemma_debug_answers_end_their_task_names();
    if let Some(task_id) = data.get_text("task_id"@) {
        if task_id.len() == 0 {
            assert(task_id =~= Seq::<char>::empty());
        }
    }
}

/// The names are distinct.
proof fn lemma_debug_streams_are_passed_on_names()
    ensures
        "event"@ != "data"@,
{
    reveal_strlit("event");
    reveal_strlit("data");
    assert("event"@.len() != "data"@.len());
}

/// A part of the answer to a debug prompt is passed on to the dashboard, and to the room of
/// the task where it names one.
pub proof fn law_debug_streams_are_passed_on(data: JsonTree)
    ensures
        tells(debug_stream_events(data)[0], "debug:stream"@, data),
        data.get_text("task_id"@) matches Some(task_id) ==> task_id.len() > 0 ==> {
            let e = debug_stream_events(data);
            &&& e.len() == 2
            &&& to_room_of(e[1], "task:"@ + task_id, "task:output"@)
            &&& e[1].payload == data
        },
        !(data.get_text("task_id"@) matches Some(task_id) && task_id.len() > 0)
            ==> debug_stream_events(data).len() == 1,
{
    lemma_debug_streams_are_passed_on_names();
}

/// A request gets as many rows as it asks for, or as many as others get where it does not
/// say, and never more than five hundred.
pub proof fn law_limits_are_kept_to(data: JsonTree, other: u64)
    ensures
        ({
            let asked = match data.get("limit"@) {
                Some(JsonTree::UInt(n)) => n,
                _ => other,
            };
            &&& asked <= crate::socket_server::MAX_TASK_LIMIT ==> limit_of(data, other) == asked
            &&& asked > crate::socket_server::MAX_TASK_LIMIT ==> limit_of(data, other)
                == crate::socket_server::MAX_TASK_LIMIT
        }),
        crate::socket_server::MAX_TASK_LIMIT == 500,
{
}

/// The type of a task is taken as it is named, unless it is empty or has more than
/// sixty-four bytes.
pub proof fn law_task_types_are_short(data: JsonTree)
    ensures
        requested_type(data) == match data.get_text("task_type"@) {
            Some(s) => if 1 <= s.len() && byte_len(s) <= 64 {
                Some(s)
            } else {
                None
            },
            None => None,
        },
{
}

/// Each tier of a request is from the entry of its place.
pub proof fn law_tiers_are_read_in_order(data: JsonTree, i: int)
    ensures
        data.get_items("tiers"@) is None ==> tiers_of(data).len() == 0,
        data.get_items("tiers"@) matches Some(items) ==> {
            &&& tiers_of(data).len() == items.len()
            &&& 0 <= i < items.len() ==> tiers_of(data)[i].0 == text_or(
                items[i].get_text("tier"@),
                "l0"@,
            ) && tiers_of(data)[i].1 == text_or(items[i].get_text("content"@), ""@)
        },
{
}

/// A memory that is stored on request has what the members of these names hold.
pub proof fn law_memories_are_requested_by_name(row: MemoryView, data: JsonTree)
    requires
        is_requested_memory(row, data),
    ensures
        row.scope == text_or(data.get_text("scope"@), "system"@),
        row.category == text_or(data.get_text("category"@), "general"@),
        row.key == text_or(data.get_text("key"@), ""@),
        row.metadata == text_or(member_text(data, "metadata"@), "{}"@),
        row.tags == text_or(tags_text(data), ""@),
        row.agent_id == text_or(data.get_text("agent_id"@), ""@),
        row.run_id == text_or(data.get_text("run_id"@), ""@),
        row.skill_id == text_or(data.get_text("skill_id"@), ""@),
        row.relevance_score == text_or(data.get_real("relevance_score"@), "0"@),
        row.access_count == 0,
        row.created_at == row.updated_at,
{
}

/// The names are distinct.
proof fn lemma_cases_name_their_task_names()
    ensures
        "task_id"@ != "score"@,
{
    reveal_strlit("task_id");
    reveal_strlit("score");
    assert("task_id"@.len() != "score"@.len());
}

/// The metadata of the memory of a task are the task and its score.
pub proof fn law_cases_name_their_task(task_id: Seq<char>, score: Seq<char>)
    ensures
        exists|metadata: JsonTree| #[trigger] compact_text(metadata)
            == case_metadata(task_id, score) && metadata.get_text("task_id"@) == Some(task_id)
                && metadata.get("score"@) == Some(real_tree(score)),
{
    lemma_cases_name_their_task_names();
    let metadata = JsonTree::empty().text("task_id"@, task_id).with("score"@, real_tree(score));
    assert(compact_text(metadata) == case_metadata(task_id, score));
    assert(metadata.get_text("task_id"@) == Some(task_id));
}

/// The names are distinct.
proof fn lemma_task_news_names()
    ensures
        "action"@ != "task"@,
        "action"@ != "id"@,
        "action"@ != "task_type"@,
        "action"@ != "status"@,
        "action"@ != "agent_id"@,
        "action"@ != "run_id"@,
        "action"@ != "current_stage"@,
        "action"@ != "summary"@,
        "action"@ != "parent_id"@,
        "action"@ != "payload"@,
        "action"@ != "created_at"@,
        "action"@ != "updated_at"@,
        "task"@ != "id"@,
        "task"@ != "task_type"@,
        "task"@ != "status"@,
        "task"@ != "agent_id"@,
        "task"@ != "run_id"@,
        "task"@ != "current_stage"@,
        "task"@ != "summary"@,
        "task"@ != "parent_id"@,
        "task"@ != "payload"@,
        "task"@ != "created_at"@,
        "task"@ != "updated_at"@,
        "id"@ != "task_type"@,
        "id"@ != "status"@,
        "id"@ != "agent_id"@,
        "id"@ != "run_id"@,
        "id"@ != "current_stage"@,
        "id"@ != "summary"@,
        "id"@ != "parent_id"@,
        "id"@ != "payload"@,
        "id"@ != "created_at"@,
        "id"@ != "updated_at"@,
        "task_type"@ != "status"@,
        "task_type"@ != "agent_id"@,
        "task_type"@ != "run_id"@,
        "task_type"@ != "current_stage"@,
        "task_type"@ != "summary"@,
        "task_type"@ != "parent_id"@,
        "task_type"@ != "payload"@,
        "task_type"@ != "created_at"@,
        "task_type"@ != "updated_at"@,
        "status"@ != "agent_id"@,
        "status"@ != "run_id"@,
        "status"@ != "current_stage"@,
        "status"@ != "summary"@,
        "status"@ != "parent_id"@,
        "status"@ != "payload"@,
        "status"@ != "created_at"@,
        "status"@ != "updated_at"@,
        "agent_id"@ != "run_id"@,
        "agent_id"@ != "current_stage"@,
        "agent_id"@ != "summary"@,
        "agent_id"@ != "parent_id"@,
        "agent_id"@ != "payload"@,
        "agent_id"@ != "created_at"@,
        "agent_id"@ != "updated_at"@,
        "run_id"@ != "current_stage"@,
        "run_id"@ != "summary"@,
        "run_id"@ != "parent_id"@,
        "run_id"@ != "payload"@,
        "run_id"@ != "created_at"@,
        "run_id"@ != "updated_at"@,
        "current_stage"@ != "summary"@,
        "current_stage"@ != "parent_id"@,
        "current_stage"@ != "payload"@,
        "current_stage"@ != "created_at"@,
        "current_stage"@ != "updated_at"@,
        "summary"@ != "parent_id"@,
        "summary"@ != "payload"@,
        "summary"@ != "created_at"@,
        "summary"@ != "updated_at"@,
        "parent_id"@ != "payload"@,
        "parent_id"@ != "created_at"@,
        "parent_id"@ != "updated_at"@,
        "payload"@ != "created_at"@,
        "payload"@ != "updated_at"@,
        "created_at"@ != "updated_at"@,
{
    reveal_strlit("action");
    reveal_strlit("task");
    reveal_strlit("id");
    reveal_strlit("task_type");
    reveal_strlit("status");
    reveal_strlit("agent_id");
    reveal_strlit("run_id");
    reveal_strlit("current_stage");
    reveal_strlit("summary");
    reveal_strlit("parent_id");
    reveal_strlit("payload");
    reveal_strlit("created_at");
    reveal_strlit("updated_at");
    assert("action"@.len() != "task"@.len());
    assert("action"@.len() != "id"@.len());
    assert("action"@.len() != "task_type"@.len());
    assert("action"@[0] == 'a' && "status"@[0] == 's');
    assert("action"@.len() != "agent_id"@.len());
    assert("action"@[0] == 'a' && "run_id"@[0] == 'r');
    assert("action"@.len() != "current_stage"@.len());
    assert("action"@.len() != "summary"@.len());
    assert("action"@.len() != "parent_id"@.len());
    assert("action"@.len() != "payload"@.len());
    assert("action"@.len() != "created_at"@.len());
    assert("action"@.len() != "updated_at"@.len());
    assert("task"@.len() != "id"@.len());
    assert("task"@.len() != "task_type"@.len());
    assert("task"@.len() != "status"@.len());
    assert("task"@.len() != "agent_id"@.len());
    assert("task"@.len() != "run_id"@.len());
    assert("task"@.len() != "current_stage"@.len());
    assert("task"@.len() != "summary"@.len());
    assert("task"@.len() != "parent_id"@.len());
    assert("task"@.len() != "payload"@.len());
    assert("task"@.len() != "created_at"@.len());
    assert("task"@.len() != "updated_at"@.len());
    assert("id"@.len() != "task_type"@.len());
    assert("id"@.len() != "status"@.len());
    assert("id"@.len() != "agent_id"@.len());
    assert("id"@.len() != "run_id"@.len());
    assert("id"@.len() != "current_stage"@.len());
    assert("id"@.len() != "summary"@.len());
    assert("id"@.len() != "parent_id"@.len());
    assert("id"@.len() != "payload"@.len());
    assert("id"@.len() != "created_at"@.len());
    assert("id"@.len() != "updated_at"@.len());
    assert("task_type"@.len() != "status"@.len());
    assert("task_type"@.len() != "agent_id"@.len());
    assert("task_type"@.len() != "run_id"@.len());
    assert("task_type"@.len() != "current_stage"@.len());
    assert("task_type"@.len() != "summary"@.len());
    assert("task_type"@[0] == 't' && "parent_id"@[0] == 'p');
    assert("task_type"@.len() != "payload"@.len());
    assert("task_type"@.len() != "created_at"@.len());
    assert("task_type"@.len() != "updated_at"@.len());
    assert("status"@.len() != "agent_id"@.len());
    assert("status"@[0] == 's' && "run_id"@[0] == 'r');
    assert("status"@.len() != "current_stage"@.len());
    assert("status"@.len() != "summary"@.len());
    assert("status"@.len() != "parent_id"@.len());
    assert("status"@.len() != "payload"@.len());
    assert("status"@.len() != "created_at"@.len());
    assert("status"@.len() != "updated_at"@.len());
    assert("agent_id"@.len() != "run_id"@.len());
    assert("agent_id"@.len() != "current_stage"@.len());
    assert("agent_id"@.len() != "summary"@.len());
    assert("agent_id"@.len() != "parent_id"@.len());
    assert("agent_id"@.len() != "payload"@.len());
    assert("agent_id"@.len() != "created_at"@.len());
    assert("agent_id"@.len() != "updated_at"@.len());
    assert("run_id"@.len() != "current_stage"@.len());
    assert("run_id"@.len() != "summary"@.len());
    assert("run_id"@.len() != "parent_id"@.len());
    assert("run_id"@.len() != "payload"@.len());
    assert("run_id"@.len() != "created_at"@.len());
    assert("run_id"@.len() != "updated_at"@.len());
    assert("current_stage"@.len() != "summary"@.len());
    assert("current_stage"@.len() != "parent_id"@.len());
    assert("current_stage"@.len() != "payload"@.len());
    assert("current_stage"@.len() != "created_at"@.len());
    assert("current_stage"@.len() != "updated_at"@.len());
    assert("summary"@.len() != "parent_id"@.len());
    assert("summary"@[0] == 's' && "payload"@[0] == 'p');
    assert("summary"@.len() != "created_at"@.len());
    assert("summary"@.len() != "updated_at"@.len());
    assert("parent_id"@.len() != "payload"@.len());
    assert("parent_id"@.len() != "created_at"@.len());
    assert("parent_id"@.len() != "updated_at"@.len());
    assert("payload"@.len() != "created_at"@.len());
    assert("payload"@.len() != "updated_at"@.len());
    assert("created_at"@[0] == 'c' && "updated_at"@[0] == 'u');
}

/// What is told of a task that changed has each field of the task by its name.
pub proof fn law_task_news(task: TaskView)
    ensures
        task_news(task).get_text("action"@) == Some("updated"@),
        task_news(task).get("task"@) matches Some(body) && {
            &&& body.get_text("id"@) == Some(task.id)
            &&& body.get_text("task_type"@) == Some(task.task_type)
            &&& body.get_text("status"@) == Some(task.status)
            &&& body.get_text("agent_id"@) == Some(task.agent_id)
            &&& body.get_text("run_id"@) == Some(task.run_id)
            &&& body.get_text("current_stage"@) == Some(task.current_stage)
            &&& body.get_text("summary"@) == Some(task.summary)
            &&& body.get_text("parent_id"@) == Some(task.parent_id)
            &&& body.get_text("payload"@) == Some(task.payload)
            &&& body.get_text("created_at"@) == Some(task.created_at)
            &&& body.get_text("updated_at"@) == Some(task.updated_at)
        },
{
    lemma_task_news_names();
}

/// The names are distinct.
proof fn lemma_log_news_names()
    ensures
        "task_id"@ != "log"@,
        "task_id"@ != "id"@,
        "task_id"@ != "level"@,
        "task_id"@ != "message"@,
        "task_id"@ != "detail"@,
        "task_id"@ != "agent_id"@,
        "task_id"@ != "stage"@,
        "task_id"@ != "created_at"@,
        "log"@ != "id"@,
        "log"@ != "level"@,
        "log"@ != "message"@,
        "log"@ != "detail"@,
        "log"@ != "agent_id"@,
        "log"@ != "stage"@,
        "log"@ != "created_at"@,
        "id"@ != "level"@,
        "id"@ != "message"@,
        "id"@ != "detail"@,
        "id"@ != "agent_id"@,
        "id"@ != "stage"@,
        "id"@ != "created_at"@,
        "level"@ != "message"@,
        "level"@ != "detail"@,
        "level"@ != "agent_id"@,
        "level"@ != "stage"@,
        "level"@ != "created_at"@,
        "message"@ != "detail"@,
        "message"@ != "agent_id"@,
        "message"@ != "stage"@,
        "message"@ != "created_at"@,
        "detail"@ != "agent_id"@,
        "detail"@ != "stage"@,
        "detail"@ != "created_at"@,
        "agent_id"@ != "stage"@,
        "agent_id"@ != "created_at"@,
        "stage"@ != "created_at"@,
{
    reveal_strlit("task_id");
    reveal_strlit("log");
    reveal_strlit("id");
    reveal_strlit("level");
    reveal_strlit("message");
    reveal_strlit("detail");
    reveal_strlit("agent_id");
    reveal_strlit("stage");
    reveal_strlit("created_at");
    assert("task_id"@.len() != "log"@.len());
    assert("task_id"@.len() != "id"@.len());
    assert("task_id"@.len() != "level"@.len());
    assert("task_id"@[0] == 't' && "message"@[0] == 'm');
    assert("task_id"@.len() != "detail"@.len());
    assert("task_id"@.len() != "agent_id"@.len());
    assert("task_id"@.len() != "stage"@.len());
    assert("task_id"@.len() != "created_at"@.len());
    assert("log"@.len() != "id"@.len());
    assert("log"@.len() != "level"@.len());
    assert("log"@.len() != "message"@.len());
    assert("log"@.len() != "detail"@.len());
    assert("log"@.len() != "agent_id"@.len());
    assert("log"@.len() != "stage"@.len());
    assert("log"@.len() != "created_at"@.len());
    assert("id"@.len() != "level"@.len());
    assert("id"@.len() != "message"@.len());
    assert("id"@.len() != "detail"@.len());
    assert("id"@.len() != "agent_id"@.len());
    assert("id"@.len() != "stage"@.len());
    assert("id"@.len() != "created_at"@.len());
    assert("level"@.len() != "message"@.len());
    assert("level"@.len() != "detail"@.len());
    assert("level"@.len() != "agent_id"@.len());
    assert("level"@[0] == 'l' && "stage"@[0] == 's');
    assert("level"@.len() != "created_at"@.len());
    assert("message"@.len() != "detail"@.len());
    assert("message"@.len() != "agent_id"@.len());
    assert("message"@.len() != "stage"@.len());
    assert("message"@.len() != "created_at"@.len());
    assert("detail"@.len() != "agent_id"@.len());
    assert("detail"@.len() != "stage"@.len());
    assert("detail"@.len() != "created_at"@.len());
    assert("agent_id"@.len() != "stage"@.len());
    assert("agent_id"@.len() != "created_at"@.len());
    assert("stage"@.len() != "created_at"@.len());
}

/// What is told of a log entry has the task and each field of the entry by its name.
pub proof fn law_log_news(task_id: Seq<char>, log: TaskLogView)
    ensures
        log_news(task_id, log).get_text("task_id"@) == Some(task_id),
        log_news(task_id, log).get("log"@) matches Some(body) && {
            &&& body.get_text("id"@) == Some(log.id)
            &&& body.get_text("level"@) == Some(log.level)
            &&& body.get_text("message"@) == Some(log.message)
            &&& body.get_text("detail"@) == Some(log.detail)
            &&& body.get_text("agent_id"@) == Some(log.agent_id)
            &&& body.get_text("stage"@) == Some(log.stage)
            &&& body.get_text("created_at"@) == Some(log.created_at)
        },
{
    lemma_log_news_names();
}

/// The names are distinct.
proof fn lemma_accepted_requests_name_their_task_names()
    ensures
        "success"@ != "request_id"@,
        "success"@ != "task_id"@,
        "request_id"@ != "task_id"@,
{
    reveal_strlit("success");
    reveal_strlit("request_id");
    reveal_strlit("task_id");
    assert("success"@.len() != "request_id"@.len());
    assert("success"@[0] == 's' && "task_id"@[0] == 't');
    assert("request_id"@.len() != "task_id"@.len());
}

/// A request that was taken on is answered with its id and its task.
pub proof fn law_accepted_requests_name_their_task(request_id: Seq<char>, task_id: Seq<char>)
    ensures
        accepted(request_id, task_id).get("success"@) == Some(JsonTree::Bool(true)),
        accepted(request_id, task_id).get_text("request_id"@) == Some(request_id),
        accepted(request_id, task_id).get_text("task_id"@) == Some(task_id),
{
    lemma_accepted_requests_name_their_task_names();
}

/// The names are distinct.
proof fn lemma_new_tasks_are_announced_names()
    ensures
        "task_id"@ != "task_type"@,
        "task_id"@ != "action"@,
        "task_id"@ != "task"@,
        "task_id"@ != "id"@,
        "task_id"@ != "status"@,
        "task_type"@ != "action"@,
        "task_type"@ != "task"@,
        "task_type"@ != "id"@,
        "task_type"@ != "status"@,
        "action"@ != "task"@,
        "action"@ != "id"@,
        "action"@ != "status"@,
        "task"@ != "id"@,
        "task"@ != "status"@,
        "id"@ != "status"@,
{
    reveal_strlit("task_id");
    reveal_strlit("task_type");
    reveal_strlit("action");
    reveal_strlit("task");
    reveal_strlit("id");
    reveal_strlit("status");
    assert("task_id"@.len() != "task_type"@.len());
    assert("task_id"@.len() != "action"@.len());
    assert("task_id"@.len() != "task"@.len());
    assert("task_id"@.len() != "id"@.len());
    assert("task_id"@.len() != "status"@.len());
    assert("task_type"@.len() != "action"@.len());
    assert("task_type"@.len() != "task"@.len());
    assert("task_type"@.len() != "id"@.len());
    assert("task_type"@.len() != "status"@.len());
    assert("action"@.len() != "task"@.len());
    assert("action"@.len() != "id"@.len());
    assert("action"@[0] == 'a' && "status"@[0] == 's');
    assert("task"@.len() != "id"@.len());
    assert("task"@.len() != "status"@.len());
    assert("id"@.len() != "status"@.len());
}

/// The kernel agents are invited to a new task of a developer, and the dashboard is told
/// that it runs; without a task nobody is told.
pub proof fn law_new_tasks_are_announced(task_id: Seq<char>, task_type: Seq<char>)
    ensures
        task_id.len() == 0 ==> new_task_events(task_id, task_type).len() == 0,
        task_id.len() > 0 ==> {
            let e = new_task_events(task_id, task_type);
            &&& e.len() == 2
            &&& to_room_of(e[0], "kernel"@, "task:invite"@)
            &&& e[0].payload.get_text("task_id"@) == Some(task_id)
            &&& e[0].payload.get_text("task_type"@) == Some(task_type)
            &&& to_room_of(e[1], "dashboard"@, "task:changed"@)
            &&& e[1].payload.get_text("action"@) == Some("created"@)
            &&& e[1].payload.get("task"@) matches Some(task)
            &&& task.get_text("id"@) == Some(task_id)
            &&& task.get_text("task_type"@) == Some(task_type)
            &&& task.get_text("status"@) == Some("running"@)
        },
{
    lemma_new_tasks_are_announced_names();
}

/// A prompt has what the members of these names hold. It is refused without a role and
/// without a text, the role first.
pub proof fn law_prompts_are_read_by_name(body: JsonTree)
    ensures
        !(body.get_text("agent_role"@) matches Some(s) && s.len() > 0)
            ==> prompt_of(body) == Err::<PromptView, Seq<char>>("agent_role is required"@),
        (body.get_text("agent_role"@) matches Some(s) && s.len() > 0)
            && !(body.get_text("prompt"@) matches Some(t) && t.len() > 0)
                ==> prompt_of(body) == Err::<PromptView, Seq<char>>("prompt is required"@),
        (body.get_text("agent_role"@) matches Some(s) && s.len() > 0)
            && (body.get_text("prompt"@) matches Some(t) && t.len() > 0) ==> {
            &&& prompt_of(body) matches Ok(p)
            &&& Some(p.agent_role) == body.get_text("agent_role"@)
            &&& Some(p.prompt) == body.get_text("prompt"@)
            &&& p.model == text_or(body.get_text("model"@), "gpt-4o-mini"@)
            &&& p.provider == body.get_text("provider"@)
            &&& p.temperature == body.get_real("temperature"@)
            &&& p.max_tokens == body.get_uint("max_tokens"@)
        },
{
}

/// The names are distinct.
proof fn lemma_prompts_are_sent_whole_names()
    ensures
        "request_id"@ != "task_id"@,
        "request_id"@ != "model"@,
        "request_id"@ != "prompt"@,
        "request_id"@ != "provider"@,
        "request_id"@ != "temperature"@,
        "request_id"@ != "max_tokens"@,
        "request_id"@ != "agent_role"@,
        "task_id"@ != "model"@,
        "task_id"@ != "prompt"@,
        "task_id"@ != "provider"@,
        "task_id"@ != "temperature"@,
        "task_id"@ != "max_tokens"@,
        "task_id"@ != "agent_role"@,
        "model"@ != "prompt"@,
        "model"@ != "provider"@,
        "model"@ != "temperature"@,
        "model"@ != "max_tokens"@,
        "model"@ != "agent_role"@,
        "prompt"@ != "provider"@,
        "prompt"@ != "temperature"@,
        "prompt"@ != "max_tokens"@,
        "prompt"@ != "agent_role"@,
        "provider"@ != "temperature"@,
        "provider"@ != "max_tokens"@,
        "provider"@ != "agent_role"@,
        "temperature"@ != "max_tokens"@,
        "temperature"@ != "agent_role"@,
        "max_tokens"@ != "agent_role"@,
{
    reveal_strlit("request_id");
    reveal_strlit("task_id");
    reveal_strlit("model");
    reveal_strlit("prompt");
    reveal_strlit("provider");
    reveal_strlit("temperature");
    reveal_strlit("max_tokens");
    reveal_strlit("agent_role");
    assert("request_id"@.len() != "task_id"@.len());
    assert("request_id"@.len() != "model"@.len());
    assert("request_id"@.len() != "prompt"@.len());
    assert("request_id"@.len() != "provider"@.len());
    assert("request_id"@.len() != "temperature"@.len());
    assert("request_id"@[0] == 'r' && "max_tokens"@[0] == 'm');
    assert("request_id"@[0] == 'r' && "agent_role"@[0] == 'a');
    assert("task_id"@.len() != "model"@.len());
    assert("task_id"@.len() != "prompt"@.len());
    assert("task_id"@.len() != "provider"@.len());
    assert("task_id"@.len() != "temperature"@.len());
    assert("task_id"@.len() != "max_tokens"@.len());
    assert("task_id"@.len() != "agent_role"@.len());
    assert("model"@.len() != "prompt"@.len());
    assert("model"@.len() != "provider"@.len());
    assert("model"@.len() != "temperature"@.len());
    assert("model"@.len() != "max_tokens"@.len());
    assert("model"@.len() != "agent_role"@.len());
    assert("prompt"@.len() != "provider"@.len());
    assert("prompt"@.len() != "temperature"@.len());
    assert("prompt"@.len() != "max_tokens"@.len());
    assert("prompt"@.len() != "agent_role"@.len());
    assert("provider"@.len() != "temperature"@.len());
    assert("provider"@.len() != "max_tokens"@.len());
    assert("provider"@.len() != "agent_role"@.len());
    assert("temperature"@.len() != "max_tokens"@.len());
    assert("temperature"@.len() != "agent_role"@.len());
    assert("max_tokens"@[0] == 'm' && "agent_role"@[0] == 'a');
}

/// The agents of the role of a prompt get the prompt with all that it says, its id and its
/// task; the role is written with underscores.
pub proof fn law_prompts_are_sent_whole(
    prompt: PromptView,
    request_id: Seq<char>,
    task_id: Seq<char>,
)
    ensures
        prompt_room(prompt.agent_role) == "role:"@ + replaced(prompt.agent_role, '-', "_"@),
        ({
            let p = prompt_payload(prompt, request_id, task_id);
            &&& p.get_text("request_id"@) == Some(request_id)
            &&& p.get_text("task_id"@) == Some(task_id)
            &&& p.get_text("model"@) == Some(prompt.model)
            &&& p.get_text("prompt"@) == Some(prompt.prompt)
            &&& p.get_text("provider"@) == prompt.provider
            &&& p.get("provider"@) is Some
            &&& p.get("temperature"@) == Some(
                match prompt.temperature {
                    Some(number) => real_tree(number),
                    None => JsonTree::Null,
                },
            )
            &&& p.get_uint("max_tokens"@) == prompt.max_tokens
            &&& p.get("max_tokens"@) is Some
        }),
        exists|payload: JsonTree|
            {
                &&& #[trigger] compact_text(payload) == prompt_task_payload(prompt)
                &&& payload.get_text("prompt"@) == Some(prompt.prompt)
                &&& payload.get_text("model"@) == Some(prompt.model)
                &&& payload.get_text("agent_role"@) == Some(prompt.agent_role)
            },
{
    lemma_prompts_are_sent_whole_names();
    let payload = JsonTree::empty().text("prompt"@, prompt.prompt).text("model"@,
        prompt.model).text(
        "agent_role"@,
        prompt.agent_role,
    );
    assert(compact_text(payload) == prompt_task_payload(prompt));
    assert(payload.get_text("prompt"@) == Some(prompt.prompt));
}

/// The names are distinct.
proof fn lemma_output_is_passed_on_names()
    ensures
        "request_id"@ != "task_id"@,
        "request_id"@ != "delta"@,
        "request_id"@ != "chunk_index"@,
        "request_id"@ != "event"@,
        "request_id"@ != "data"@,
        "task_id"@ != "delta"@,
        "task_id"@ != "chunk_index"@,
        "task_id"@ != "event"@,
        "task_id"@ != "data"@,
        "delta"@ != "chunk_index"@,
        "delta"@ != "event"@,
        "delta"@ != "data"@,
        "chunk_index"@ != "event"@,
        "chunk_index"@ != "data"@,
        "event"@ != "data"@,
{
    reveal_strlit("request_id");
    reveal_strlit("task_id");
    reveal_strlit("delta");
    reveal_strlit("chunk_index");
    reveal_strlit("event");
    reveal_strlit("data");
    assert("request_id"@.len() != "task_id"@.len());
    assert("request_id"@.len() != "delta"@.len());
    assert("request_id"@.len() != "chunk_index"@.len());
    assert("request_id"@.len() != "event"@.len());
    assert("request_id"@.len() != "data"@.len());
    assert("task_id"@.len() != "delta"@.len());
    assert("task_id"@.len() != "chunk_index"@.len());
    assert("task_id"@.len() != "event"@.len());
    assert("task_id"@.len() != "data"@.len());
    assert("delta"@.len() != "chunk_index"@.len());
    assert("delta"@[0] == 'd' && "event"@[0] == 'e');
    assert("delta"@.len() != "data"@.len());
    assert("chunk_index"@.len() != "event"@.len());
    assert("chunk_index"@.len() != "data"@.len());
    assert("event"@.len() != "data"@.len());
}

/// A piece of output is told to the dashboard, and to the room of the task where there is
/// one, with its number. It goes to the log of the task once a second and a half, with what
/// was kept for the log; else it is kept.
#[verifier::rlimit(40)]
pub proof fn law_output_is_passed_on(session: BashView, text: Seq<char>, since_flush_ms: u64)
    ensures
        ({
            let s = session.output_steps(text, since_flush_ms);
            let told = sent(s[0]);
            &&& s.len() >= 1 && s[0] is Send
            &&& to_room_of(told, "dashboard"@, "dashboard:event"@)
            &&& told.payload.get_text("event"@) == Some("debug:stream"@)
            &&& told.payload.get("data"@) matches Some(data)
            &&& data.get_text("request_id"@) == Some(session.request_id)
            &&& data.get_text("task_id"@) == Some(session.task_id)
            &&& data.get_text("delta"@) == Some(text)
            &&& data.get_uint("chunk_index"@) == Some(session.chunk_index as u64)
        }),
        session.task_id.len() == 0 ==> session.output_steps(text, since_flush_ms).len() == 1,
        session.task_id.len() > 0 ==> {
            let s = session.output_steps(text, since_flush_ms);
            let data = sent(s[1]).payload;
            &&& s.len() == if since_flush_ms >= 1500 {
                3int
            } else {
                2
            }
            &&& s[1] is Send
            &&& to_room_of(sent(s[1]), "task:"@ + session.task_id, "task:output"@)
            &&& data.get_text("request_id"@) == Some(session.request_id)
            &&& data.get_text("task_id"@) == Some(session.task_id)
            &&& data.get_text("delta"@) == Some(text)
            &&& data.get_uint("chunk_index"@) == Some(session.chunk_index as u64)
        },
        session.task_id.len() > 0 && since_flush_ms >= 1500 ==> {
            &&& session.output_steps(text, since_flush_ms)[2] matches StepView::RecordLog { entry }
            &&& entry.task_id == session.task_id
            &&& entry.level == "output"@
            &&& entry.message == "bash output chunk"@
            &&& entry.detail == session.log_buffer + text
            &&& entry.agent_id == ""@
            &&& entry.stage == "running"@
        },
        ({
            let after = session.after_output(text, since_flush_ms);
            &&& after.request_id == session.request_id
            &&& after.task_id == session.task_id
            &&& session.chunk_index < u32::MAX ==> after.chunk_index == session.chunk_index + 1
            &&& session.task_id.len() > 0 && since_flush_ms >= 1500 ==> after.log_buffer.len() == 0
            &&& session.task_id.len() > 0 && since_flush_ms < 1500 ==> after.log_buffer
                == session.log_buffer + text
            &&& session.task_id.len() == 0 ==> after.log_buffer == session.log_buffer
        }),
{
    lemma_output_is_passed_on_names();
}

/// After the last piece of output, what is still kept for the log of the task goes there.
pub proof fn law_kept_output_goes_to_the_log(session: BashView)
    ensures
        session.task_id.len() == 0 || session.log_buffer.len() == 0
            ==> session.drain_steps().len() == 0,
        session.task_id.len() > 0 && session.log_buffer.len() > 0 ==> {
            &&& session.drain_steps().len() == 1
            &&& session.drain_steps()[0] matches StepView::RecordLog { entry }
            &&& entry.task_id == session.task_id
            &&& entry.level == "output"@
            &&& entry.message == "bash output chunk"@
            &&& entry.detail == session.log_buffer
            &&& entry.agent_id == ""@
            &&& entry.stage == "running"@
        },
{
}

/// The names are distinct.
proof fn lemma_commands_end_their_task_names()
    ensures
        "request_id"@ != "task_id"@,
        "request_id"@ != "response"@,
        "request_id"@ != "latency_ms"@,
        "request_id"@ != "entry_type"@,
        "request_id"@ != "event"@,
        "request_id"@ != "data"@,
        "request_id"@ != "exit_code"@,
        "request_id"@ != "output_preview"@,
        "request_id"@ != "action"@,
        "request_id"@ != "task"@,
        "request_id"@ != "id"@,
        "request_id"@ != "status"@,
        "task_id"@ != "response"@,
        "task_id"@ != "latency_ms"@,
        "task_id"@ != "entry_type"@,
        "task_id"@ != "event"@,
        "task_id"@ != "data"@,
        "task_id"@ != "exit_code"@,
        "task_id"@ != "output_preview"@,
        "task_id"@ != "action"@,
        "task_id"@ != "task"@,
        "task_id"@ != "id"@,
        "task_id"@ != "status"@,
        "response"@ != "latency_ms"@,
        "response"@ != "entry_type"@,
        "response"@ != "event"@,
        "response"@ != "data"@,
        "response"@ != "exit_code"@,
        "response"@ != "output_preview"@,
        "response"@ != "action"@,
        "response"@ != "task"@,
        "response"@ != "id"@,
        "response"@ != "status"@,
        "latency_ms"@ != "entry_type"@,
        "latency_ms"@ != "event"@,
        "latency_ms"@ != "data"@,
        "latency_ms"@ != "exit_code"@,
        "latency_ms"@ != "output_preview"@,
        "latency_ms"@ != "action"@,
        "latency_ms"@ != "task"@,
        "latency_ms"@ != "id"@,
        "latency_ms"@ != "status"@,
        "entry_type"@ != "event"@,
        "entry_type"@ != "data"@,
        "entry_type"@ != "exit_code"@,
        "entry_type"@ != "output_preview"@,
        "entry_type"@ != "action"@,
        "entry_type"@ != "task"@,
        "entry_type"@ != "id"@,
        "entry_type"@ != "status"@,
        "event"@ != "data"@,
        "event"@ != "exit_code"@,
        "event"@ != "output_preview"@,
        "event"@ != "action"@,
        "event"@ != "task"@,
        "event"@ != "id"@,
        "event"@ != "status"@,
        "data"@ != "exit_code"@,
        "data"@ != "output_preview"@,
        "data"@ != "action"@,
        "data"@ != "task"@,
        "data"@ != "id"@,
        "data"@ != "status"@,
        "exit_code"@ != "output_preview"@,
        "exit_code"@ != "action"@,
        "exit_code"@ != "task"@,
        "exit_code"@ != "id"@,
        "exit_code"@ != "status"@,
        "output_preview"@ != "action"@,
        "output_preview"@ != "task"@,
        "output_preview"@ != "id"@,
        "output_preview"@ != "status"@,
        "action"@ != "task"@,
        "action"@ != "id"@,
        "action"@ != "status"@,
        "task"@ != "id"@,
        "task"@ != "status"@,
        "id"@ != "status"@,
{
    reveal_strlit("request_id");
    reveal_strlit("task_id");
    reveal_strlit("response");
    reveal_strlit("latency_ms");
    reveal_strlit("entry_type");
    reveal_strlit("event");
    reveal_strlit("data");
    reveal_strlit("exit_code");
    reveal_strlit("output_preview");
    reveal_strlit("action");
    reveal_strlit("task");
    reveal_strlit("id");
    reveal_strlit("status");
    assert("request_id"@.len() != "task_id"@.len());
    assert("request_id"@.len() != "response"@.len());
    assert("request_id"@[0] == 'r' && "latency_ms"@[0] == 'l');
    assert("request_id"@[0] == 'r' && "entry_type"@[0] == 'e');
    assert("request_id"@.len() != "event"@.len());
    assert("request_id"@.len() != "data"@.len());
    assert("request_id"@.len() != "exit_code"@.len());
    assert("request_id"@.len() != "output_preview"@.len());
    assert("request_id"@.len() != "action"@.len());
    assert("request_id"@.len() != "task"@.len());
    assert("request_id"@.len() != "id"@.len());
    assert("request_id"@.len() != "status"@.len());
    assert("task_id"@.len() != "response"@.len());
    assert("task_id"@.len() != "latency_ms"@.len());
    assert("task_id"@.len() != "entry_type"@.len());
    assert("task_id"@.len() != "event"@.len());
    assert("task_id"@.len() != "data"@.len());
    assert("task_id"@.len() != "exit_code"@.len());
    assert("task_id"@.len() != "output_preview"@.len());
    assert("task_id"@.len() != "action"@.len());
    assert("task_id"@.len() != "task"@.len());
    assert("task_id"@.len() != "id"@.len());
    assert("task_id"@.len() != "status"@.len());
    assert("response"@.len() != "latency_ms"@.len());
    assert("response"@.len() != "entry_type"@.len());
    assert("response"@.len() != "event"@.len());
    assert("response"@.len() != "data"@.len());
    assert("response"@.len() != "exit_code"@.len());
    assert("response"@.len() != "output_preview"@.len());
    assert("response"@.len() != "action"@.len());
    assert("response"@.len() != "task"@.len());
    assert("response"@.len() != "id"@.len());
    assert("response"@.len() != "status"@.len());
    assert("latency_ms"@[0] == 'l' && "entry_type"@[0] == 'e');
    assert("latency_ms"@.len() != "event"@.len());
    assert("latency_ms"@.len() != "data"@.len());
    assert("latency_ms"@.len() != "exit_code"@.len());
    assert("latency_ms"@.len() != "output_preview"@.len());
    assert("latency_ms"@.len() != "action"@.len());
    assert("latency_ms"@.len() != "task"@.len());
    assert("latency_ms"@.len() != "id"@.len());
    assert("latency_ms"@.len() != "status"@.len());
    assert("entry_type"@.len() != "event"@.len());
    assert("entry_type"@.len() != "data"@.len());
    assert("entry_type"@.len() != "exit_code"@.len());
    assert("entry_type"@.len() != "output_preview"@.len());
    assert("entry_type"@.len() != "action"@.len());
    assert("entry_type"@.len() != "task"@.len());
    assert("entry_type"@.len() != "id"@.len());
    assert("entry_type"@.len() != "status"@.len());
    assert("event"@.len() != "data"@.len());
    assert("event"@.len() != "exit_code"@.len());
    assert("event"@.len() != "output_preview"@.len());
    assert("event"@.len() != "action"@.len());
    assert("event"@.len() != "task"@.len());
    assert("event"@.len() != "id"@.len());
    assert("event"@.len() != "status"@.len());
    assert("data"@.len() != "exit_code"@.len());
    assert("data"@.len() != "output_preview"@.len());
    assert("data"@.len() != "action"@.len());
    assert("data"@[0] == 'd' && "task"@[0] == 't');
    assert("data"@.len() != "id"@.len());
    assert("data"@.len() != "status"@.len());
    assert("exit_code"@.len() != "output_preview"@.len());
    assert("exit_code"@.len() != "action"@.len());
    assert("exit_code"@.len() != "task"@.len());
    assert("exit_code"@.len() != "id"@.len());
    assert("exit_code"@.len() != "status"@.len());
    assert("output_preview"@.len() != "action"@.len());
    assert("output_preview"@.len() != "task"@.len());
    assert("output_preview"@.len() != "id"@.len());
    assert("output_preview"@.len() != "status"@.len());
    assert("action"@.len() != "task"@.len());
    assert("action"@.len() != "id"@.len());
    assert("action"@[0] == 'a' && "status"@[0] == 's');
    assert("task"@.len() != "id"@.len());
    assert("task"@.len() != "status"@.len());
    assert("id"@.len() != "status"@.len());
}

/// The dashboard is told of the end of a command with its exit code and how long it took.
/// Where it has a task, the task is completed if the code is zero and failed if not, the
/// output is in its log, the task is evaluated with the output, and the dashboard is told
/// of its status.
#[verifier::rlimit(60)]
pub proof fn law_commands_end_their_task(
    request_id: Seq<char>,
    task_id: Seq<char>,
    exit_code: i32,
    latency_ms: u64,
    output: Seq<char>,
)
    ensures
        ({
            let s = exit_steps(request_id, task_id, exit_code, latency_ms, output);
            let told = sent(s[0]);
            &&& s.len() == if task_id.len() == 0 {
                1int
            } else {
                6
            }
            &&& s[0] is Send
            &&& to_room_of(told, "dashboard"@, "dashboard:event"@)
            &&& told.payload.get_text("event"@) == Some("debug:response"@)
            &&& told.payload.get("data"@) matches Some(data)
            &&& data.get_text("request_id"@) == Some(request_id)
            &&& data.get_text("task_id"@) == Some(task_id)
            &&& data.get_text("response"@) == Some(
                "\n[exit "@ + decimal_int(exit_code as int) + "]"@,
            )
            &&& data.get_uint("latency_ms"@) == Some(latency_ms)
            &&& data.get_text("entry_type"@) == Some("bash"@)
        }),
        task_id.len() > 0 ==> {
            let s = exit_steps(request_id, task_id, exit_code, latency_ms, output);
            let wanted = if exit_code == 0 {
                "completed"@
            } else {
                "failed"@
            };
            &&& s[1] matches StepView::UpdateTask { task_id: id, status, current_stage, summary }
            &&& id == task_id && status == Some(wanted) && current_stage is None && summary is None
            &&& s[2] matches StepView::RecordLog { entry }
            &&& entry.task_id == task_id
            &&& entry.level == "info"@
            &&& entry.message == "bash command finished with exit code "@ + decimal_int(
                exit_code as int,
            )
            &&& entry.detail == output
            &&& entry.agent_id == ""@
            &&& entry.stage == wanted
        },
        task_id.len() > 0 ==> {
            let s = exit_steps(request_id, task_id, exit_code, latency_ms, output);
            let asked = sent(s[3]).payload;
            let change = sent(s[5]).payload;
            &&& s[3] is Send && s[4] is Send && s[5] is Send
            &&& to_room_of(sent(s[3]), "role:evaluation"@, "task:evaluate"@)
            &&& to_room_of(sent(s[4]), "task:"@ + task_id, "task:evaluate"@)
            &&& sent(s[4]).payload == asked
            &&& asked.get_text("task_id"@) == Some(task_id)
            &&& asked.get_text("request_id"@) == Some(request_id)
            &&& asked.get("exit_code"@) == Some(int_tree(exit_code as i64))
            &&& asked.get_uint("latency_ms"@) == Some(latency_ms)
            &&& asked.get_text("output_preview"@) == Some(output)
            &&& to_room_of(sent(s[5]), "dashboard"@, "task:changed"@)
            &&& change.get_text("action"@) == Some("updated"@)
            &&& change.get("task"@) matches Some(task)
            &&& task.get_text("id"@) == Some(task_id)
            &&& task.get_text("status"@) == Some(
                if exit_code == 0 {
                    "completed"@
                } else {
                    "failed"@
                },
            )
        },
{
    lemma_commands_end_their_task_names();
}

} // verus!
