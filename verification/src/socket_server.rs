//! Events that clients send: what is stored, who is told, and what is answered.

use crate::agent_manager::{AgentProcess, AgentRegistry, names_role};
use crate::events::{
    AGENT_HEALTH, AGENT_REGISTER, AGENT_SKILL_REPORT, AGENT_STATUS, DASHBOARD_EVENT,
    DASHBOARD_SUBSCRIBE, DEBUG_RESPONSE, DEBUG_STREAM, Emission, EmissionView, KING_SYSTEM_INFO,
    MEMORY_CHANGED, MEMORY_DELETE, MEMORY_QUERY, MEMORY_STORE, MEMORY_UPDATE, PIPELINE_STAGE_RESULT, ROOM_DASHBOARD,
    ROOM_EVALUATION, ROOM_KERNEL, TASK_CHANGED, TASK_CREATE, TASK_DELETE, TASK_EVALUATE, TASK_GET,
    TASK_JOIN, TASK_LIST, TASK_OUTPUT, TASK_SUMMARY, TASK_UPDATE, emissions, notice, notice_value,
    notify_dashboard, peer_event, role_room, role_room_name, room_event, task_room, task_room_name,
    to_peers, to_room,
};
use crate::history::{agent_registered, stores_registration};
use crate::json::{
    Fields, JsonTree, collect_texts, compact_text, copy, decimal_value, flag, get, get_filled,
    get_items, get_real, get_text, get_uint, get_written, member_text, null, real_tree,
    text_or_else, texts_among, to_text, trees, uint, value_tree,
};
use crate::memory_db::{
    MemoryRow, MemoryTierRow, MemoryView, create_memory, create_memory_statement, is_new_memory,
    search_memories, search_memories_statement, update_memory, update_memory_statement,
};
use crate::pipeline_coordinator::{
    PipelineStage, ReportView, StageReport, stage_named, str_to_stage,
};
use crate::records::{
    brief_tier_list, brief_tier_trees, memory_json, memory_row_to_json, task_json, task_list,
    task_row_to_json, task_trees,
};
use crate::sql::Statement;
use crate::stamp::is_time;
use crate::steps::{Step, StepView, log_step, no_steps, put_log, put_send, put_update, steps};
use crate::task_db::{
    AgentMetadata, AgentMetadataView, TaskLogRow, TaskRow, TaskView, create_task, create_task_log,
    create_task_log_statement, create_task_statement, is_new_log, is_new_task, list_tasks,
    list_tasks_statement, update_task, update_task_statement, upsert_agent,
    upsert_agent_with_statement,
};
use crate::text::{byte_len, concat2, join, joined, opt_text, replace, replaced, text_or, texts};
use serde_json::Value;
use vstd::prelude::*;

verus! {

/// The greatest number of rows that a client gets.
pub const MAX_TASK_LIMIT: u64 = 500;

/// The greatest number of bytes of the type of a task.
pub const MAX_TASK_TYPE_BYTES: usize = 64;

// The events.

/// What is done with an event that a client sends.
#[derive(Clone, Copy, Debug, PartialEq, Eq, Structural)]
pub enum Handler {
    Subscribe,
    Register,
    Status,
    SkillReport,
    Health,
    StageResult,
    DebugResponse,
    DebugStream,
    TaskCreate,
    TaskUpdate,
    TaskGet,
    TaskList,
    TaskDelete,
    MemoryStore,
    MemoryQuery,
    MemoryUpdate,
    MemoryDelete,
    TaskJoin,
    TaskSummary,
    SystemInfo,
}

/// The events that clients send, each with what is done with it.
pub open spec fn handler_table() -> Seq<(Seq<char>, Handler)> {
    seq![
        (DASHBOARD_SUBSCRIBE@, Handler::Subscribe),
        (AGENT_REGISTER@, Handler::Register),
        (AGENT_STATUS@, Handler::Status),
        (AGENT_SKILL_REPORT@, Handler::SkillReport),
        (AGENT_HEALTH@, Handler::Health),
        (PIPELINE_STAGE_RESULT@, Handler::StageResult),
        (DEBUG_RESPONSE@, Handler::DebugResponse),
        (DEBUG_STREAM@, Handler::DebugStream),
        (TASK_CREATE@, Handler::TaskCreate),
        (TASK_UPDATE@, Handler::TaskUpdate),
        (TASK_GET@, Handler::TaskGet),
        (TASK_LIST@, Handler::TaskList),
        (TASK_DELETE@, Handler::TaskDelete),
        (MEMORY_STORE@, Handler::MemoryStore),
        (MEMORY_QUERY@, Handler::MemoryQuery),
        (MEMORY_UPDATE@, Handler::MemoryUpdate),
        (MEMORY_DELETE@, Handler::MemoryDelete),
        (TASK_JOIN@, Handler::TaskJoin),
        (TASK_SUMMARY@, Handler::TaskSummary),
        (KING_SYSTEM_INFO@, Handler::SystemInfo),
    ]
}

/// The events of a table and what is done with them.
pub open spec fn handler_views(items: Seq<(&str, Handler)>) -> Seq<(Seq<char>, Handler)> {
    items.map_values(|item: (&str, Handler)| (item.0@, item.1))
}

/// The events that clients send, each with what is done with it.
pub fn register_handlers() -> (r: Vec<(&'static str, Handler)>)
    ensures
        handler_views(r@) == handler_table(),
{
    let r: Vec<(&'static str, Handler)> = vec![
        (DASHBOARD_SUBSCRIBE, Handler::Subscribe),
        (AGENT_REGISTER, Handler::Register),
        (AGENT_STATUS, Handler::Status),
        (AGENT_SKILL_REPORT, Handler::SkillReport),
        (AGENT_HEALTH, Handler::Health),
        (PIPELINE_STAGE_RESULT, Handler::StageResult),
        (DEBUG_RESPONSE, Handler::DebugResponse),
        (DEBUG_STREAM, Handler::DebugStream),
        (TASK_CREATE, Handler::TaskCreate),
        (TASK_UPDATE, Handler::TaskUpdate),
        (TASK_GET, Handler::TaskGet),
        (TASK_LIST, Handler::TaskList),
        (TASK_DELETE, Handler::TaskDelete),
        (MEMORY_STORE, Handler::MemoryStore),
        (MEMORY_QUERY, Handler::MemoryQuery),
        (MEMORY_UPDATE, Handler::MemoryUpdate),
        (MEMORY_DELETE, Handler::MemoryDelete),
        (TASK_JOIN, Handler::TaskJoin),
        (TASK_SUMMARY, Handler::TaskSummary),
        (KING_SYSTEM_INFO, Handler::SystemInfo),
    ];
    assert(handler_views(r@) =~= handler_table());
    r
}

// Agents.

/// A role of an agent.
#[derive(Clone, Copy, Debug, PartialEq, Eq, Structural)]
pub enum Role {
    SkillManage,
    Learning,
    PreLoad,
    Building,
    Evaluation,
    User,
}

/// The role of the agents that take on a stage.
pub open spec fn stage_role(stage: PipelineStage) -> Role {
    match stage {
        PipelineStage::Learning => Role::Learning,
        PipelineStage::Building => Role::Building,
        PipelineStage::PreLoad => Role::PreLoad,
        PipelineStage::Evaluation => Role::Evaluation,
        PipelineStage::SkillManage => Role::SkillManage,
    }
}

/// The role that a JSON value names, as `evo_common::messages::AgentRole` reads it.
pub uninterp spec fn role_named(tree: JsonTree) -> Option<Role>;

/// `serde_json::from_value` reads an `evo_common::messages::AgentRole`. A text names
/// one of the five roles without contents by its name in snake case, and no other
/// role.
#[verifier::external_body]
pub(crate) fn read_role(value: &Value) -> (r: Option<Role>)
    ensures
        r == role_named(value_tree(*value)),
        value_tree(*value) matches JsonTree::Text(name) ==> r == (match stage_named(name) {
            Some(stage) => Some(stage_role(stage)),
            None => None,
        }),
{
    match serde_json::from_value::<evo_common::messages::AgentRole>(value.clone()) {
        Ok(evo_common::messages::AgentRole::SkillManage) => Some(Role::SkillManage),
        Ok(evo_common::messages::AgentRole::Learning) => Some(Role::Learning),
        Ok(evo_common::messages::AgentRole::PreLoad) => Some(Role::PreLoad),
        Ok(evo_common::messages::AgentRole::Building) => Some(Role::Building),
        Ok(evo_common::messages::AgentRole::Evaluation) => Some(Role::Evaluation),
        Ok(evo_common::messages::AgentRole::User(_)) => Some(Role::User),
        Err(_) => None,
    }
}

/// Whether a role is a kernel role: each role but that of user agents is one.
pub open spec fn kernel_role(role: Option<Role>) -> bool {
    role is Some && role != Some(Role::User)
}

/// Whether a role is a kernel role: each role but that of user agents is one.
pub fn is_kernel_role(role: Option<Role>) -> (r: bool)
    ensures
        r == (role is Some && role != Some(Role::User)),
{
    match role {
        Some(role) => role != Role::User,
        None => false,
    }
}

/// Whether an agent registers with a kernel role.
pub open spec fn is_kernel(data: JsonTree) -> bool {
    match data.get("role"@) {
        Some(role) => kernel_role(role_named(role)),
        None => false,
    }
}

/// The role that an agent registers with.
pub open spec fn role_of(data: JsonTree) -> Seq<char> {
    text_or(data.get_text("role"@), "unknown"@)
}

/// The rooms that an agent joins when it registers.
pub open spec fn rooms_of(data: JsonTree, kernel: bool) -> Seq<Seq<char>> {
    if kernel {
        seq![ROOM_KERNEL@, role_room_name(replaced(role_of(data), '-', "_"@))]
    } else {
        Seq::empty()
    }
}

/// What follows on the registration of an agent: the rooms it joins, the record of the
/// change of its status, what is stored after that, and what the dashboard is told.
pub struct Registration {
    pub rooms: Vec<String>,
    pub record: Statement,
    pub statement: Statement,
    pub notice: Emission,
}

/// The rooms that an agent joins when it registers, given whether its role is a
/// kernel role.
pub fn rooms_to_join(data: &Value, kernel: bool) -> (r: Vec<String>)
    ensures
        texts(r@) == rooms_of(value_tree(*data), kernel),
{
    if kernel {
        let role = replace(text_or_else(data, "role", "unknown"), '-', "_");
        let r = vec![ROOM_KERNEL.to_string(), role_room(role.as_str())];
        assert(texts(r@) =~= rooms_of(value_tree(*data), kernel));
        r
    } else {
        let r: Vec<String> = Vec::new();
        assert(texts(r@) =~= rooms_of(value_tree(*data), kernel));
        r
    }
}

/// What an agent registers with.
pub open spec fn metadata_of(data: JsonTree, pid: u32, socket_id: Seq<char>) -> AgentMetadataView {
    AgentMetadataView {
        agent_id: text_or(data.get_text("agent_id"@), ""@),
        role: role_of(data),
        capabilities: text_or(member_text(data, "capabilities"@), "[]"@),
        skills: text_or(member_text(data, "skills"@), "[]"@),
        pid,
        soul_content: text_or(data.get_text("soul_content"@), ""@),
        binary_path: text_or(data.get_text("binary_path"@), ""@),
        version: text_or(data.get_text("version"@), ""@),
        socket_id,
    }
}

/// Handles the registration of an agent over a socket. One without an id is passed
/// over.
pub fn on_register(data: &Value, registry: &AgentRegistry, socket_id: &str) -> (r: Option<
    Registration,
>)
    requires
        registry.wf(),
    ensures
        match r {
            None => value_tree(*data).get_filled("agent_id"@) is None,
            Some(item) => {
                let tree = value_tree(*data);
                &&& tree.get_filled("agent_id"@) is Some
                &&& texts(item.rooms@) == rooms_of(tree, is_kernel(tree))
                &&& tree.get_text("role"@) matches Some(name) ==> is_kernel(tree) == (stage_named(
                    name,
                ) is Some)
                &&& item.notice@ == room_event(
                    ROOM_DASHBOARD@,
                    DASHBOARD_EVENT@,
                    notice(AGENT_REGISTER@, tree),
                )
                &&& exists|pid: u32| #[trigger]
                    registered_pid(registry@, role_of(tree), pid) && stores_registration(
                        (item.record@, item.statement@),
                        metadata_of(tree, pid, socket_id@),
                    )
            },
        },
{
    let agent_id = match get_filled(data, "agent_id") {
        Some(id) => id,
        None => return None,
    };
    let role = text_or_else(data, "role", "unknown");
    let capabilities = match get_written(data, "capabilities") {
        Some(s) => s,
        None => "[]".to_string(),
    };
    let skills = match get_written(data, "skills") {
        Some(s) => s,
        None => "[]".to_string(),
    };
    let kernel = match get(data, "role") {
        Some(value) => is_kernel_role(read_role(value)),
        None => false,
    };
    let rooms = rooms_to_join(data, kernel);
    let pid: u32 = match registry.pid_by_folder_hint(role) {
        Some(n) => n,
        None => 0,
    };
    let agent = AgentMetadata {
        agent_id: agent_id.to_string(),
        role: role.to_string(),
        capabilities,
        skills,
        pid,
        soul_content: text_or_else(data, "soul_content", "").to_string(),
        binary_path: text_or_else(data, "binary_path", "").to_string(),
        version: text_or_else(data, "version", "").to_string(),
        socket_id: socket_id.to_string(),
    };
    let (record, statement) = agent_registered(&agent);
    proof {
        let tree = value_tree(*data);
        assert(registered_pid(registry@, role_of(tree), pid));
        assert(kernel == is_kernel(tree));
        assert(agent@ == metadata_of(tree, pid, socket_id@));
    }
    Some(Registration { rooms, record, statement, notice: notify_dashboard(AGENT_REGISTER, data) })
}

/// Whether a number is the process id of a registered process whose folder is named
/// after a role, or zero where there is no such process.
pub open spec fn registered_pid(
    processes: Map<Seq<char>, AgentProcess>,
    role: Seq<char>,
    pid: u32,
) -> bool {
    ||| exists|key: Seq<char>| #[trigger]
        processes.dom().contains(key) && processes[key].pid == pid && names_role(
            processes[key].agent_folder@,
            role,
        )
    ||| pid == 0 && forall|key: Seq<char>| #[trigger]
        processes.dom().contains(key) ==> !names_role(processes[key].agent_folder@, role)
}

/// Handles a heartbeat: what is stored, and what the dashboard is told. One without
/// an id is passed over.
pub fn on_status(data: &Value) -> (r: Option<(Statement, Emission)>)
    ensures
        match r {
            None => value_tree(*data).get_filled("agent_id"@) is None,
            Some(item) => {
                let tree = value_tree(*data);
                &&& tree.get_filled("agent_id"@) is Some
                &&& item.1@ == room_event(
                    ROOM_DASHBOARD@,
                    DASHBOARD_EVENT@,
                    notice(AGENT_STATUS@, tree),
                )
                &&& exists|now: Seq<char>| #[trigger]
                    is_time(now) && item.0@ == upsert_agent_with_statement(
                        now,
                        tree.get_filled("agent_id"@)->0,
                        ""@,
                        text_or(tree.get_text("status"@), "heartbeat"@),
                        "[]"@,
                        "[]"@,
                        0,
                    )
            },
        },
{
    match get_filled(data, "agent_id") {
        Some(agent_id) => {
            let status = text_or_else(data, "status", "heartbeat");
            Some(
                (
                    upsert_agent(agent_id, "", status, None, None, None),
                    notify_dashboard(AGENT_STATUS, data),
                ),
            )
        },
        None => None,
    }
}

/// A completed task that keeps a report of an agent.
fn report_task(data: &Value, task_type: &str) -> (r: (Statement, TaskRow))
    ensures
        is_new_task(
            r.1@,
            task_type@,
            "completed"@,
            Some(text_or(value_tree(*data).get_text("agent_id"@), "unknown"@)),
            compact_text(value_tree(*data)),
            ""@,
            ""@,
            ""@,
            ""@,
        ),
        r.0@ == create_task_statement(r.1@),
{
    let agent_id = text_or_else(data, "agent_id", "unknown");
    let payload = to_text(data);
    create_task(task_type, "completed", Some(agent_id), payload.as_str(), "", "", "", "")
}

/// Handles the report of a skill: it is kept as a completed task.
pub fn on_skill_report(data: &Value) -> (r: (Statement, TaskRow))
    ensures
        is_new_task(
            r.1@,
            "skill_report"@,
            "completed"@,
            Some(text_or(value_tree(*data).get_text("agent_id"@), "unknown"@)),
            compact_text(value_tree(*data)),
            ""@,
            ""@,
            ""@,
            ""@,
        ),
        r.0@ == create_task_statement(r.1@),
{
    report_task(data, "skill_report")
}

/// Handles a report of health: it is kept as a completed task.
pub fn on_health(data: &Value) -> (r: (Statement, TaskRow))
    ensures
        is_new_task(
            r.1@,
            "health_report"@,
            "completed"@,
            Some(text_or(value_tree(*data).get_text("agent_id"@), "unknown"@)),
            compact_text(value_tree(*data)),
            ""@,
            ""@,
            ""@,
            ""@,
        ),
        r.0@ == create_task_statement(r.1@),
{
    report_task(data, "health_report")
}

// The pipeline.

/// The report of a stage in an event; none where the run or a known stage is
/// missing.
pub open spec fn report_of(data: JsonTree) -> Option<ReportView> {
    match (data.get_filled("run_id"@), data.get_text("stage"@)) {
        (Some(run_id), Some(stage_text)) => match stage_named(stage_text) {
            Some(stage) => Some(
                ReportView {
                    run_id,
                    stage,
                    agent_id: text_or(data.get_text("agent_id"@), "unknown"@),
                    status: text_or(data.get_text("status"@), "completed"@),
                    artifact_id: text_or(data.get_text("artifact_id"@), ""@),
                    output: match data.get("output"@) {
                        Some(output) => output,
                        None => JsonTree::Null,
                    },
                    error: data.get_text("error"@),
                },
            ),
            None => None,
        },
        _ => None,
    }
}

/// Reads the report of a stage, for the coordinator of the pipeline, and what the
/// dashboard is told afterwards. An event without a run or a known stage is passed
/// over.
pub fn on_pipeline_stage_result(data: &Value) -> (r: Option<(StageReport, Emission)>)
    ensures
        match r {
            None => report_of(value_tree(*data)) is None,
            Some(item) => report_of(value_tree(*data)) == Some(item.0@) && item.1@ == room_event(
                ROOM_DASHBOARD@,
                DASHBOARD_EVENT@,
                notice(PIPELINE_STAGE_RESULT@, value_tree(*data)),
            ),
        },
{
    let run_id = match get_filled(data, "run_id") {
        Some(id) => id,
        None => return None,
    };
    let stage_text = match get_text(data, "stage") {
        Some(s) => s,
        None => return None,
    };
    let stage = match str_to_stage(stage_text) {
        Some(stage) => stage,
        None => return None,
    };
    let output = match get(data, "output") {
        Some(value) => copy(value),
        None => null(),
    };
    let report = StageReport {
        run_id: run_id.to_string(),
        stage,
        agent_id: text_or_else(data, "agent_id", "unknown").to_string(),
        status: text_or_else(data, "status", "completed").to_string(),
        artifact_id: text_or_else(data, "artifact_id", "").to_string(),
        output,
        error: crate::text::owned(get_text(data, "error")),
    };
    Some((report, notify_dashboard(PIPELINE_STAGE_RESULT, data)))
}

// Debugging.

/// The steps that follow on the answer to a debug prompt.
pub open spec fn debug_response_steps(data: JsonTree) -> Seq<StepView> {
    let request_id = text_or(data.get_text("request_id"@), "unknown"@);
    let agent_id = text_or(data.get_text("agent_id"@), "unknown"@);
    let base = Seq::<StepView>::empty().push(
        StepView::Send {
            emission: room_event(ROOM_DASHBOARD@, DASHBOARD_EVENT@, notice(DEBUG_RESPONSE@, data)),
        },
    );
    match data.get_filled("task_id"@) {
        Some(task_id) => {
            let payload = JsonTree::empty().text("task_id"@, task_id).text(
                "request_id"@,
                request_id,
            ).text("agent_id"@, agent_id);
            base.push(
                StepView::UpdateTask {
                    task_id,
                    status: Some("completed"@),
                    current_stage: None,
                    summary: None,
                },
            ).push(
                log_step(
                    task_id,
                    "info"@,
                    "debug:response completed"@,
                    text_or(data.get_text("response"@), ""@),
                    agent_id,
                    "response"@,
                ),
            ).push(
                StepView::Send { emission: room_event(ROOM_EVALUATION@, TASK_EVALUATE@, payload) },
            ).push(
                StepView::Send {
                    emission: room_event(task_room_name(task_id), TASK_EVALUATE@, payload),
                },
            )
        },
        None => base,
    }
}

/// Handles the answer to a debug prompt: the dashboard gets it, and the task of the
/// prompt, where there is one, is complete and handed to the agent that evaluates.
pub fn on_debug_response(data: &Value) -> (r: Vec<Step>)
    ensures
        steps(r@) == debug_response_steps(value_tree(*data)),
{
    let request_id = text_or_else(data, "request_id", "unknown");
    let agent_id = text_or_else(data, "agent_id", "unknown");
    let mut items = no_steps();
    put_send(&mut items, notify_dashboard(DEBUG_RESPONSE, data));
    match get_filled(data, "task_id") {
        Some(task_id) => {
            put_update(&mut items, task_id, Some("completed"), None, None);
            let response = text_or_else(data, "response", "");
            put_log(
                &mut items,
                task_id,
                "info",
                "debug:response completed",
                response,
                agent_id,
                "response",
            );
            let payload = Fields::new().text("task_id", task_id).text(
                "request_id",
                request_id,
            ).text("agent_id", agent_id).done();
            let room = task_room(task_id);
            put_send(&mut items, to_room(ROOM_EVALUATION, TASK_EVALUATE, copy(&payload)));
            put_send(&mut items, to_room(room.as_str(), TASK_EVALUATE, payload));
        },
        None => {},
    }
    items
}

/// The events that follow on a part of the answer to a debug prompt.
pub open spec fn debug_stream_events(data: JsonTree) -> Seq<EmissionView> {
    let first = room_event(ROOM_DASHBOARD@, DASHBOARD_EVENT@, notice(DEBUG_STREAM@, data));
    match data.get_filled("task_id"@) {
        Some(task_id) => seq![first, room_event(task_room_name(task_id), TASK_OUTPUT@, data)],
        None => seq![first],
    }
}

/// Handles a part of the answer to a debug prompt: the dashboard gets it, and the
/// room of the task of the prompt, where there is one.
pub fn on_debug_stream(data: &Value) -> (r: Vec<Emission>)
    ensures
        emissions(r@) == debug_stream_events(value_tree(*data)),
{
    let first = notify_dashboard(DEBUG_STREAM, data);
    match get_filled(data, "task_id") {
        Some(task_id) => {
            let room = task_room(task_id);
            let r = vec![first, to_room(room.as_str(), TASK_OUTPUT, copy(data))];
            assert(emissions(r@) =~= debug_stream_events(value_tree(*data)));
            r
        },
        None => {
            let r = vec![first];
            assert(emissions(r@) =~= debug_stream_events(value_tree(*data)));
            r
        },
    }
}

/// The room that an agent joins for a task; none where the task is missing.
pub fn on_task_join(data: &Value) -> (r: Option<String>)
    ensures
        opt_text(r) == (match value_tree(*data).get_filled("task_id"@) {
            Some(task_id) => Some(task_room_name(task_id)),
            None => None,
        }),
{
    match get_filled(data, "task_id") {
        Some(task_id) => Some(task_room(task_id)),
        None => None,
    }
}

// Answers.

/// The answer to a request, and the events that go with it.
pub struct Reply {
    pub ack: Value,
    pub events: Vec<Emission>,
}

/// What a [`Reply`] holds.
pub struct ReplyView {
    pub ack: JsonTree,
    pub events: Seq<EmissionView>,
}

impl View for Reply {
    type V = ReplyView;

    open spec fn view(&self) -> ReplyView {
        ReplyView { ack: value_tree(self.ack), events: emissions(self.events@) }
    }
}

/// The answer that a request was refused.
pub open spec fn refusal(message: Seq<char>) -> JsonTree {
    JsonTree::empty().with("success"@, JsonTree::Bool(false)).text("error"@, message)
}

/// The answer that a request was refused, without events.
pub open spec fn refused(message: Seq<char>) -> ReplyView {
    ReplyView { ack: refusal(message), events: Seq::empty() }
}

/// The beginning of the answer that a request was granted.
pub open spec fn granted() -> JsonTree {
    JsonTree::empty().with("success"@, JsonTree::Bool(true))
}

/// The answer that a request was refused.
pub fn ack_error(message: &str) -> (r: Reply)
    ensures
        r@ == refused(message@),
{
    let events: Vec<Emission> = Vec::new();
    assert(emissions(events@) =~= Seq::empty());
    Reply { ack: Fields::new().with("success", flag(false)).text("error", message).done(), events }
}

fn grant() -> (r: Fields)
    ensures
        r@ == granted(),
        r@ is Object,
{
    Fields::new().with("success", flag(true))
}

/// Two events with the same contents, for the other kernel agents and the
/// dashboard.
pub open spec fn change_events(event: Seq<char>, payload: JsonTree) -> Seq<EmissionView> {
    seq![peer_event(ROOM_KERNEL@, event, payload), peer_event(ROOM_DASHBOARD@, event, payload)]
}

fn tell_change(event: &str, payload: Value) -> (r: Vec<Emission>)
    ensures
        emissions(r@) == change_events(event@, value_tree(payload)),
{
    let r = vec![
        to_peers(ROOM_KERNEL, event, copy(&payload)),
        to_peers(ROOM_DASHBOARD, event, payload),
    ];
    assert(emissions(r@) =~= change_events(event@, value_tree(payload)));
    r
}

// Tasks.

/// What is told of a change of a task.
pub open spec fn task_change(action: Seq<char>, task: TaskView) -> JsonTree {
    JsonTree::empty().text("action"@, action).with("task"@, task_json(task))
}

/// The answer to a request that created or changed a task.
pub open spec fn task_reply(action: Seq<char>, task: TaskView) -> ReplyView {
    ReplyView {
        ack: granted().with("task"@, task_json(task)),
        events: change_events(TASK_CHANGED@, task_change(action, task)),
    }
}

fn reply_with_task(action: &str, task: &TaskRow) -> (r: Reply)
    ensures
        r@ == task_reply(action@, task@),
{
    let body = task_row_to_json(task);
    let change = Fields::new().text("action", action).with("task", copy(&body)).done();
    Reply { ack: grant().with("task", body).done(), events: tell_change(TASK_CHANGED, change) }
}

/// The type of a task that a request names, where it is valid: not empty and not
/// too long.
pub open spec fn requested_type(data: JsonTree) -> Option<Seq<char>> {
    match data.get_filled("task_type"@) {
        Some(s) => if byte_len(s) <= MAX_TASK_TYPE_BYTES {
            Some(s)
        } else {
            None
        },
        None => None,
    }
}

/// Handles a request for a new task: the task and the statement that stores it, or
/// the refusal.
pub fn on_task_create(data: &Value) -> (r: Result<(Statement, TaskRow), Reply>)
    ensures
        match r {
            Ok(item) => {
                let tree = value_tree(*data);
                &&& requested_type(tree) is Some
                &&& is_new_task(
                    item.1@,
                    requested_type(tree)->0,
                    "pending"@,
                    tree.get_text("agent_id"@),
                    text_or(member_text(tree, "payload"@), "{}"@),
                    ""@,
                    ""@,
                    ""@,
                    text_or(tree.get_text("parent_id"@), ""@),
                )
                &&& item.0@ == create_task_statement(item.1@)
            },
            Err(reply) => requested_type(value_tree(*data)) is None && reply@ == refused(
                "invalid or missing task_type"@,
            ),
        },
{
    let task_type = match get_filled(data, "task_type") {
        Some(s) => s,
        None => return Err(ack_error("invalid or missing task_type")),
    };
    if task_type.as_bytes().len() > MAX_TASK_TYPE_BYTES {
        return Err(ack_error("invalid or missing task_type"));
    }
    let payload = match get_written(data, "payload") {
        Some(s) => s,
        None => "{}".to_string(),
    };
    let parent_id = text_or_else(data, "parent_id", "");
    Ok(
        create_task(
            task_type,
            "pending",
            get_text(data, "agent_id"),
            payload.as_str(),
            "",
            "",
            "",
            parent_id,
        ),
    )
}

/// The answer to a request for a new task, given the task where it was stored.
pub fn task_created(stored: Option<&TaskRow>) -> (r: Reply)
    ensures
        r@ == (match stored {
            Some(task) => task_reply("created"@, task@),
            None => refused("internal server error"@),
        }),
{
    match stored {
        Some(task) => reply_with_task("created", task),
        None => ack_error("internal server error"),
    }
}

/// Handles a request to change a task: its id and the statement that changes it, or
/// the refusal.
pub fn on_task_update(data: &Value) -> (r: Result<(String, Statement), Reply>)
    ensures
        match r {
            Ok(item) => {
                let tree = value_tree(*data);
                &&& tree.get_text("task_id"@) == Some(item.0@)
                &&& exists|now: Seq<char>| #[trigger]
                    is_time(now) && item.1@ == update_task_statement(
                        now,
                        item.0@,
                        tree.get_text("status"@),
                        tree.get_text("agent_id"@),
                        member_text(tree, "payload"@),
                        tree.get_text("current_stage"@),
                        tree.get_text("summary"@),
                    )
            },
            Err(reply) => value_tree(*data).get_text("task_id"@) is None && reply@ == refused(
                "missing task_id"@,
            ),
        },
{
    match get_text(data, "task_id") {
        Some(task_id) => {
            let payload = get_written(data, "payload");
            let statement = update_task(
                task_id,
                get_text(data, "status"),
                get_text(data, "agent_id"),
                crate::text::borrowed(&payload),
                get_text(data, "current_stage"),
                get_text(data, "summary"),
            );
            Ok((task_id.to_string(), statement))
        },
        None => Err(ack_error("missing task_id")),
    }
}

/// What was found of a task: the row, nothing, or a failure of the database.
pub enum FoundTask {
    Row { task: TaskRow },
    Missing,
    Failed,
}

/// The answer that a task is not there.
pub open spec fn task_missing(task_id: Seq<char>) -> ReplyView {
    refused("task not found: "@ + task_id)
}

fn missing_task(task_id: &str) -> (r: Reply)
    ensures
        r@ == task_missing(task_id@),
{
    let message = concat2("task not found: ", task_id);
    ack_error(message.as_str())
}

/// The answer to a request to change a task, given what was found of it afterwards.
pub fn task_updated(task_id: &str, found: &FoundTask) -> (r: Reply)
    ensures
        r@ == (match found {
            FoundTask::Row { task } => task_reply("updated"@, task@),
            FoundTask::Missing => task_missing(task_id@),
            FoundTask::Failed => refused("internal server error"@),
        }),
{
    match found {
        FoundTask::Row { task } => reply_with_task("updated", task),
        FoundTask::Missing => missing_task(task_id),
        FoundTask::Failed => ack_error("internal server error"),
    }
}

/// The task that a request is about, or the refusal.
pub fn on_task_get(data: &Value) -> (r: Result<String, Reply>)
    ensures
        match r {
            Ok(task_id) => value_tree(*data).get_text("task_id"@) == Some(task_id@),
            Err(reply) => value_tree(*data).get_text("task_id"@) is None && reply@ == refused(
                "missing task_id"@,
            ),
        },
{
    match get_text(data, "task_id") {
        Some(task_id) => Ok(task_id.to_string()),
        None => Err(ack_error("missing task_id")),
    }
}

/// The answer to a request for a task, given what was found of it.
pub fn task_got(task_id: &str, found: &FoundTask) -> (r: Reply)
    ensures
        r@ == (match found {
            FoundTask::Row { task } => (ReplyView {
                ack: granted().with("task"@, task_json(task@)),
                events: Seq::empty(),
            }),
            FoundTask::Missing => task_missing(task_id@),
            FoundTask::Failed => refused("internal server error"@),
        }),
{
    match found {
        FoundTask::Row { task } => {
            let events: Vec<Emission> = Vec::new();
            assert(emissions(events@) =~= Seq::empty());
            Reply { ack: grant().with("task", task_row_to_json(task)).done(), events }
        },
        FoundTask::Missing => missing_task(task_id),
        FoundTask::Failed => ack_error("internal server error"),
    }
}

/// The number of rows that a request gets: the one it asks for or another one, but
/// no more than the greatest.
pub open spec fn limit_of(data: JsonTree, other: u64) -> u32 {
    let asked = match data.get_uint("limit"@) {
        Some(n) => n,
        None => other,
    };
    (if asked > MAX_TASK_LIMIT {
        MAX_TASK_LIMIT
    } else {
        asked
    }) as u32
}

/// The number of rows that a request gets.
pub fn read_limit(data: &Value, other: u64) -> (r: u32)
    requires
        other <= MAX_TASK_LIMIT,
    ensures
        r == limit_of(value_tree(*data), other),
        r <= MAX_TASK_LIMIT,
{
    let asked: u64 = match get_uint(data, "limit") {
        Some(n) => n,
        None => other,
    };
    let bounded: u64 = if asked > MAX_TASK_LIMIT {
        MAX_TASK_LIMIT
    } else {
        asked
    };
    bounded as u32
}

/// No request gets more rows than the greatest number, whatever it asks for.
pub proof fn law_limits_are_bounded(data: JsonTree, other: u64)
    ensures
        limit_of(data, other) <= 500,
{
}

/// Handles a request for a list of tasks.
pub fn on_task_list(data: &Value) -> (r: Statement)
    ensures
        r@ == list_tasks_statement(
            limit_of(value_tree(*data), 50),
            value_tree(*data).get_text("status"@),
            value_tree(*data).get_text("agent_id"@),
            value_tree(*data).get_text("parent_id"@),
        ),
{
    list_tasks(
        read_limit(data, 50),
        get_text(data, "status"),
        get_text(data, "agent_id"),
        get_text(data, "parent_id"),
    )
}

/// The answer to a request for a list of tasks, given the tasks where the database
/// gave them.
pub fn tasks_listed(rows: Option<&Vec<TaskRow>>) -> (r: Reply)
    ensures
        r@ == (match rows {
            Some(rows) => (ReplyView {
                ack: granted().with("tasks"@, JsonTree::List(task_trees(rows@))).with(
                    "count"@,
                    JsonTree::UInt(rows@.len() as u64),
                ),
                events: Seq::empty(),
            }),
            None => refused("internal server error"@),
        }),
{
    match rows {
        Some(rows) => {
            let events: Vec<Emission> = Vec::new();
            assert(emissions(events@) =~= Seq::empty());
            let ack = grant().with("tasks", task_list(rows)).with(
                "count",
                uint(rows.len() as u64),
            ).done();
            Reply { ack, events }
        },
        None => ack_error("internal server error"),
    }
}

/// The answer to a request to delete a task, given whether a task was deleted; none
/// where the database failed.
pub fn task_deleted(task_id: &str, deleted: Option<bool>) -> (r: Reply)
    ensures
        r@ == (match deleted {
            Some(true) => (ReplyView {
                ack: granted().text("task_id"@, task_id@),
                events: change_events(
                    TASK_CHANGED@,
                    JsonTree::empty().text("action"@, "deleted"@).text("task_id"@, task_id@),
                ),
            }),
            Some(false) => task_missing(task_id@),
            None => refused("internal server error"@),
        }),
{
    match deleted {
        Some(done) => if done {
            let change = Fields::new().text("action", "deleted").text("task_id", task_id).done();
            Reply {
                ack: grant().text("task_id", task_id).done(),
                events: tell_change(TASK_CHANGED, change),
            }
        } else {
            missing_task(task_id)
        },
        None => ack_error("internal server error"),
    }
}

// Memories.

/// A tier that a request carries.
pub struct TierEntry {
    pub tier: String,
    pub content: String,
}

/// What each of a list of tiers holds: the name and the content.
pub open spec fn tier_entries(items: Seq<TierEntry>) -> Seq<(Seq<char>, Seq<char>)> {
    items.map_values(|item: TierEntry| (item.tier@, item.content@))
}

/// The tier that an entry of a list stands for.
pub open spec fn tier_of(entry: JsonTree) -> (Seq<char>, Seq<char>) {
    (text_or(entry.get_text("tier"@), "l0"@), text_or(entry.get_text("content"@), ""@))
}

/// The tiers that a request carries.
pub open spec fn tiers_of(data: JsonTree) -> Seq<(Seq<char>, Seq<char>)> {
    match data.get_items("tiers"@) {
        Some(items) => items.map_values(|entry: JsonTree| tier_of(entry)),
        None => Seq::empty(),
    }
}

/// The tiers that a request carries.
pub fn read_tiers(data: &Value) -> (r: Vec<TierEntry>)
    ensures
        tier_entries(r@) == tiers_of(value_tree(*data)),
{
    let mut out: Vec<TierEntry> = Vec::new();
    match get_items(data, "tiers") {
        Some(items) => {
            let mut i: usize = 0;
            while i < items.len()
                invariant
                    i <= items@.len(),
                    out@.len() == i,
                    forall|k: int|
                        0 <= k < i ==> (#[trigger] out@[k]).tier@ == tier_of(
                            value_tree(items@[k]),
                        ).0 && out@[k].content@ == tier_of(value_tree(items@[k])).1,
                decreases items@.len() - i,
            {
                let entry = &items[i];
                out.push(
                    TierEntry {
                        tier: text_or_else(entry, "tier", "l0").to_string(),
                        content: text_or_else(entry, "content", "").to_string(),
                    },
                );
                i += 1;
            }
            assert forall|k: int| 0 <= k < out@.len() implies tier_entries(out@)[k] == tier_of(
                trees(items@)[k],
            ) by {
                assert(out@[k].tier@ == tier_of(value_tree(items@[k])).0);
            }
        },
        None => {},
    }
    assert(tier_entries(out@) =~= tiers_of(value_tree(*data)));
    out
}

/// The tags that a request carries, with commas between them; none where it carries
/// no list of tags.
pub open spec fn tags_text(data: JsonTree) -> Option<Seq<char>> {
    match data.get_items("tags"@) {
        Some(items) => Some(joined(texts_among(items), ","@)),
        None => None,
    }
}

/// The tags that a request carries.
pub fn read_tags(data: &Value) -> (r: Option<String>)
    ensures
        opt_text(r) == tags_text(value_tree(*data)),
{
    match get_items(data, "tags") {
        Some(items) => {
            let tags = collect_texts(items);
            Some(join(&tags, ","))
        },
        None => None,
    }
}

/// A memory that a request asks to store, with what goes with it.
pub struct MemoryRequest {
    pub statement: Statement,
    pub memory: MemoryRow,
    pub tiers: Vec<TierEntry>,
    pub task_id: Option<String>,
}

/// Whether a memory is a new one with the contents that a request asks for.
pub open spec fn is_requested_memory(row: MemoryView, data: JsonTree) -> bool {
    is_new_memory(
        row,
        text_or(data.get_text("scope"@), "system"@),
        text_or(data.get_text("category"@), "general"@),
        text_or(data.get_text("key"@), ""@),
        text_or(member_text(data, "metadata"@), "{}"@),
        text_or(tags_text(data), ""@),
        text_or(data.get_text("agent_id"@), ""@),
        text_or(data.get_text("run_id"@), ""@),
        text_or(data.get_text("skill_id"@), ""@),
        text_or(data.get_real("relevance_score"@), "0"@),
    )
}

/// Handles a request to store a memory: the memory with the statement that stores
/// it, the tiers that go with it, and the task it is bound to.
pub fn on_memory_store(data: &Value) -> (r: MemoryRequest)
    ensures
        is_requested_memory(r.memory@, value_tree(*data)),
        r.statement@ == create_memory_statement(r.memory@),
        tier_entries(r.tiers@) == tiers_of(value_tree(*data)),
        opt_text(r.task_id) == value_tree(*data).get_filled("task_id"@),
{
    let metadata = match get_written(data, "metadata") {
        Some(s) => s,
        None => "{}".to_string(),
    };
    let tags = match read_tags(data) {
        Some(s) => s,
        None => "".to_string(),
    };
    let score = match get_real(data, "relevance_score") {
        Some(s) => s,
        None => "0".to_string(),
    };
    let (statement, memory) = create_memory(
        text_or_else(data, "scope", "system"),
        text_or_else(data, "category", "general"),
        text_or_else(data, "key", ""),
        metadata.as_str(),
        tags.as_str(),
        text_or_else(data, "agent_id", ""),
        text_or_else(data, "run_id", ""),
        text_or_else(data, "skill_id", ""),
        score.as_str(),
    );
    MemoryRequest {
        statement,
        memory,
        tiers: read_tiers(data),
        task_id: crate::text::owned(get_filled(data, "task_id")),
    }
}

/// What is told of a change of a memory.
pub open spec fn memory_change(action: Seq<char>, memory_id: Seq<char>) -> JsonTree {
    JsonTree::empty().text("action"@, action).text("memory_id"@, memory_id)
}

/// The events on a change of a memory, for the other kernel agents and the
/// dashboard.
pub open spec fn memory_events(action: Seq<char>, memory_id: Seq<char>) -> Seq<EmissionView> {
    seq![
        peer_event(ROOM_KERNEL@, MEMORY_CHANGED@, memory_change(action, memory_id)),
        peer_event(
            ROOM_DASHBOARD@,
            DASHBOARD_EVENT@,
            notice(MEMORY_CHANGED@, memory_change(action, memory_id)),
        ),
    ]
}

fn tell_memory_change(action: &str, memory_id: &str) -> (r: Vec<Emission>)
    ensures
        emissions(r@) == memory_events(action@, memory_id@),
{
    let change = Fields::new().text("action", action).text("memory_id", memory_id).done();
    let told = notice_value(MEMORY_CHANGED, &change);
    let r = vec![
        to_peers(ROOM_KERNEL, MEMORY_CHANGED, change),
        to_peers(ROOM_DASHBOARD, DASHBOARD_EVENT, told),
    ];
    assert(emissions(r@) =~= memory_events(action@, memory_id@));
    r
}

/// The answer to a request that created or deleted a memory.
pub open spec fn memory_reply(action: Seq<char>, memory_id: Seq<char>) -> ReplyView {
    ReplyView {
        ack: granted().text("memory_id"@, memory_id),
        events: memory_events(action, memory_id),
    }
}

/// The answer to a request to store a memory, given its id where it was stored.
pub fn memory_stored(memory_id: Option<&str>) -> (r: Reply)
    ensures
        r@ == (match memory_id {
            Some(id) => memory_reply("created"@, id@),
            None => refused("internal server error"@),
        }),
{
    match memory_id {
        Some(id) => Reply {
            ack: grant().text("memory_id", id).done(),
            events: tell_memory_change("created", id),
        },
        None => ack_error("internal server error"),
    }
}

/// Handles a request for memories by the words of a query.
pub fn on_memory_query(data: &Value) -> (r: Statement)
    ensures
        r@ == search_memories_statement(
            text_or(value_tree(*data).get_text("query"@), ""@),
            limit_of(value_tree(*data), 20),
            value_tree(*data).get_text("scope"@),
            value_tree(*data).get_text("category"@),
            value_tree(*data).get_text("agent_id"@),
            value_tree(*data).get_text("tier"@),
        ),
{
    search_memories(
        text_or_else(data, "query", ""),
        read_limit(data, 20),
        get_text(data, "scope"),
        get_text(data, "category"),
        get_text(data, "agent_id"),
        get_text(data, "tier"),
    )
}

/// A memory that was found, with its tiers.
pub struct FoundMemory {
    pub memory: MemoryRow,
    pub tiers: Vec<MemoryTierRow>,
}

/// A memory that was found as JSON, with its tiers.
pub open spec fn found_json(item: FoundMemory) -> JsonTree {
    memory_json(item.memory@, false).with(
        "tiers"@,
        JsonTree::List(brief_tier_trees(item.tiers@)),
    )
}

/// A list of memories that were found as JSON.
pub open spec fn found_trees(items: Seq<FoundMemory>) -> Seq<JsonTree> {
    items.map_values(|item: FoundMemory| found_json(item))
}

/// The answer to a request for memories, given those that were found where the
/// database gave them.
pub fn memories_found(items: Option<&Vec<FoundMemory>>) -> (r: Reply)
    ensures
        r@ == (match items {
            Some(items) => (ReplyView {
                ack: granted().with("memories"@, JsonTree::List(found_trees(items@))).with(
                    "count"@,
                    JsonTree::UInt(items@.len() as u64),
                ),
                events: Seq::empty(),
            }),
            None => refused("internal server error"@),
        }),
{
    match items {
        Some(items) => {
            let mut out: Vec<Value> = Vec::new();
            let mut i: usize = 0;
            while i < items.len()
                invariant
                    i <= items@.len(),
                    out@.len() == i,
                    forall|k: int|
                        0 <= k < i ==> value_tree(#[trigger] out@[k]) == found_json(items@[k]),
                decreases items@.len() - i,
            {
                let item = &items[i];
                let memory = memory_row_to_json(&item.memory, false);
                let tiers = brief_tier_list(&item.tiers);
                out.push(crate::json::set_member(memory, "tiers", tiers));
                i += 1;
            }
            assert(trees(out@) =~= found_trees(items@));
            let events: Vec<Emission> = Vec::new();
            assert(emissions(events@) =~= Seq::empty());
            let count: u64 = out.len() as u64;
            let ack = grant().with("memories", crate::json::list(out)).with(
                "count",
                uint(count),
            ).done();
            Reply { ack, events }
        },
        None => ack_error("internal server error"),
    }
}

/// A change of a memory that a request asks for.
pub struct MemoryChange {
    pub memory_id: String,
    pub statement: Statement,
    pub tiers: Vec<TierEntry>,
}

/// Handles a request to change a memory: its id, the statement that changes it and
/// the tiers that go with it, or the refusal.
pub fn on_memory_update(data: &Value) -> (r: Result<MemoryChange, Reply>)
    ensures
        match r {
            Ok(item) => {
                let tree = value_tree(*data);
                &&& tree.get_filled("memory_id"@) == Some(item.memory_id@)
                &&& tier_entries(item.tiers@) == tiers_of(tree)
                &&& exists|now: Seq<char>| #[trigger]
                    is_time(now) && item.statement@ == update_memory_statement(
                        now,
                        item.memory_id@,
                        member_text(tree, "metadata"@),
                        tags_text(tree),
                        tree.get_real("relevance_score"@),
                    )
            },
            Err(reply) => value_tree(*data).get_filled("memory_id"@) is None && reply@ == refused(
                "missing memory_id"@,
            ),
        },
{
    match get_filled(data, "memory_id") {
        Some(memory_id) => Ok(read_memory_change(memory_id, data)),
        None => Err(ack_error("missing memory_id")),
    }
}

/// The change of a memory that a request asks for.
pub fn read_memory_change(memory_id: &str, data: &Value) -> (r: MemoryChange)
    ensures
        r.memory_id@ == memory_id@,
        tier_entries(r.tiers@) == tiers_of(value_tree(*data)),
        exists|now: Seq<char>| #[trigger]
            is_time(now) && r.statement@ == update_memory_statement(
                now,
                memory_id@,
                member_text(value_tree(*data), "metadata"@),
                tags_text(value_tree(*data)),
                value_tree(*data).get_real("relevance_score"@),
            ),
{
    let metadata = get_written(data, "metadata");
    let tags = read_tags(data);
    let score = get_real(data, "relevance_score");
    let statement = update_memory(
        memory_id,
        crate::text::borrowed(&metadata),
        crate::text::borrowed(&tags),
        crate::text::borrowed(&score),
    );
    MemoryChange { memory_id: memory_id.to_string(), statement, tiers: read_tiers(data) }
}

/// The answer that a memory is not there.
pub open spec fn memory_missing(memory_id: Seq<char>) -> ReplyView {
    refused("memory not found: "@ + memory_id)
}

fn missing_memory(memory_id: &str) -> (r: Reply)
    ensures
        r@ == memory_missing(memory_id@),
{
    let message = concat2("memory not found: ", memory_id);
    ack_error(message.as_str())
}

/// What was found of a memory: the row, nothing, or a failure of the database.
pub enum MemoryOutcome {
    Row { memory: MemoryRow },
    Missing,
    Failed,
}

/// The answer to a request to change a memory, given what was found of it
/// afterwards.
pub fn memory_updated(memory_id: &str, found: &MemoryOutcome) -> (r: Reply)
    ensures
        r@ == (match found {
            MemoryOutcome::Row { memory } => (ReplyView {
                ack: granted().with("memory"@, memory_json(memory@, false)),
                events: memory_events("updated"@, memory_id@),
            }),
            MemoryOutcome::Missing => memory_missing(memory_id@),
            MemoryOutcome::Failed => refused("internal server error"@),
        }),
{
    match found {
        MemoryOutcome::Row { memory } => Reply {
            ack: grant().with("memory", memory_row_to_json(memory, false)).done(),
            events: tell_memory_change("updated", memory_id),
        },
        MemoryOutcome::Missing => missing_memory(memory_id),
        MemoryOutcome::Failed => ack_error("internal server error"),
    }
}

/// The memory that a request is about, or the refusal.
pub fn on_memory_delete(data: &Value) -> (r: Result<String, Reply>)
    ensures
        match r {
            Ok(memory_id) => value_tree(*data).get_filled("memory_id"@) == Some(memory_id@),
            Err(reply) => value_tree(*data).get_filled("memory_id"@) is None && reply@ == refused(
                "missing memory_id"@,
            ),
        },
{
    match get_filled(data, "memory_id") {
        Some(memory_id) => Ok(memory_id.to_string()),
        None => Err(ack_error("missing memory_id")),
    }
}

/// The answer to a request to delete a memory, given whether a memory was deleted;
/// none where the database failed.
pub fn memory_deleted(memory_id: &str, deleted: Option<bool>) -> (r: Reply)
    ensures
        r@ == (match deleted {
            Some(true) => memory_reply("deleted"@, memory_id@),
            Some(false) => memory_missing(memory_id@),
            None => refused("internal server error"@),
        }),
{
    match deleted {
        Some(done) => if done {
            Reply {
                ack: grant().text("memory_id", memory_id).done(),
                events: tell_memory_change("deleted", memory_id),
            }
        } else {
            missing_memory(memory_id)
        },
        None => ack_error("internal server error"),
    }
}

// The summary of a task.

/// The summary of a task that a request carries, with all that is stored because of
/// it: the change of the task, a log entry, and a memory, which is bound to the task,
/// with its tiers.
pub struct TaskSummary {
    pub task_id: String,
    pub update: Statement,
    pub log: Statement,
    pub entry: TaskLogRow,
    pub store: Statement,
    pub memory: MemoryRow,
    pub tiers: Vec<TierEntry>,
}

/// The metadata of the memory of a task.
pub open spec fn case_metadata(task_id: Seq<char>, score: Seq<char>) -> Seq<char> {
    compact_text(JsonTree::empty().text("task_id"@, task_id).with("score"@, real_tree(score)))
}

/// Handles the summary of a task: what is stored because of it, or the refusal. The
/// task is evaluated, the score is logged, and the summary is remembered as the
/// summary tier of a case.
pub fn on_task_summary(data: &Value) -> (r: Result<TaskSummary, Reply>)
    ensures
        match r {
            Ok(item) => {
                let tree = value_tree(*data);
                let score = text_or(tree.get_real("score"@), "0"@);
                let agent_id = text_or(tree.get_text("agent_id"@), "unknown"@);
                let summary = text_or(tree.get_text("summary"@), ""@);
                &&& tree.get_filled("task_id"@) == Some(item.task_id@)
                &&& exists|now: Seq<char>| #[trigger]
                    is_time(now) && item.update@ == update_task_statement(
                        now,
                        item.task_id@,
                        Some("evaluated"@),
                        None,
                        None,
                        None,
                        Some(summary),
                    )
                &&& is_new_log(
                    item.entry@,
                    item.task_id@,
                    "info"@,
                    "task evaluated: score="@ + score,
                    summary,
                    agent_id,
                    "evaluation"@,
                )
                &&& item.log@ == create_task_log_statement(item.entry@)
                &&& is_new_memory(
                    item.memory@,
                    "system"@,
                    "case"@,
                    "task:"@ + item.task_id@,
                    case_metadata(item.task_id@, score),
                    text_or(tags_text(tree), ""@),
                    agent_id,
                    ""@,
                    ""@,
                    score,
                )
                &&& item.store@ == create_memory_statement(item.memory@)
                &&& tier_entries(item.tiers@) == seq![("l2"@, summary)]
            },
            Err(reply) => value_tree(*data).get_filled("task_id"@) is None && reply@ == refused(
                "missing task_id"@,
            ),
        },
{
    let task_id = match get_filled(data, "task_id") {
        Some(id) => id,
        None => return Err(ack_error("missing task_id")),
    };
    let agent_id = text_or_else(data, "agent_id", "unknown");
    let summary = text_or_else(data, "summary", "");
    let score = match get_real(data, "score") {
        Some(s) => s,
        None => "0".to_string(),
    };
    let tags = match read_tags(data) {
        Some(s) => s,
        None => "".to_string(),
    };
    let update = update_task(task_id, Some("evaluated"), None, None, None, Some(summary));
    let message = concat2("task evaluated: score=", score.as_str());
    let (log, entry) = create_task_log(
        task_id,
        "info",
        message.as_str(),
        summary,
        agent_id,
        "evaluation",
    );
    let metadata = Fields::new().text("task_id", task_id).with(
        "score",
        decimal_value(score.as_str()),
    ).written();
    let key = concat2("task:", task_id);
    let (store, memory) = create_memory(
        "system",
        "case",
        key.as_str(),
        metadata.as_str(),
        tags.as_str(),
        agent_id,
        "",
        "",
        score.as_str(),
    );
    let tiers = vec![TierEntry { tier: "l2".to_string(), content: summary.to_string() }];
    assert(tier_entries(tiers@) =~= seq![("l2"@, summary@)]);
    Ok(TaskSummary { task_id: task_id.to_string(), update, log, entry, store, memory, tiers })
}

/// The answer to the summary of a task, given whether the task could be changed.
pub fn summary_stored(task_id: &str, updated: bool) -> (r: Reply)
    ensures
        r@ == (if updated {
            (ReplyView { ack: granted().text("task_id"@, task_id@), events: Seq::empty() })
        } else {
            refused("failed to update task"@)
        }),
{
    if updated {
        let events: Vec<Emission> = Vec::new();
        assert(emissions(events@) =~= Seq::empty());
        Reply { ack: grant().text("task_id", task_id).done(), events }
    } else {
        ack_error("failed to update task")
    }
}

/// The events on a task that was evaluated.
pub open spec fn evaluated_events(task: TaskView) -> Seq<EmissionView> {
    seq![
        peer_event(ROOM_KERNEL@, TASK_CHANGED@, task_change("evaluated"@, task)),
        peer_event(ROOM_DASHBOARD@, TASK_CHANGED@, task_change("evaluated"@, task)),
        peer_event(
            ROOM_DASHBOARD@,
            DASHBOARD_EVENT@,
            notice(TASK_CHANGED@, task_change("evaluated"@, task)),
        ),
    ]
}

/// The events on a task that was evaluated.
pub fn task_evaluated(task: &TaskRow) -> (r: Vec<Emission>)
    ensures
        emissions(r@) == evaluated_events(task@),
{
    let change = Fields::new().text("action", "evaluated").with(
        "task",
        task_row_to_json(task),
    ).done();
    let told = notice_value(TASK_CHANGED, &change);
    let r = vec![
        to_peers(ROOM_KERNEL, TASK_CHANGED, copy(&change)),
        to_peers(ROOM_DASHBOARD, TASK_CHANGED, change),
        to_peers(ROOM_DASHBOARD, DASHBOARD_EVENT, told),
    ];
    assert(emissions(r@) =~= evaluated_events(task@));
    r
}

/// A request that is refused tells nobody.
pub proof fn law_refusals_are_silent(message: Seq<char>)
    ensures
        refused(message).events.len() == 0,
        refused(message).ack.get("success"@) == Some(JsonTree::Bool(false)),
        refused(message).ack.get_text("error"@) == Some(message),
{
    reveal_strlit("success");
    reveal_strlit("error");
    assert("success"@[0] == 's' && "error"@[0] == 'e');
}

} // verus!
