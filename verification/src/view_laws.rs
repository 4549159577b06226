//! What the values that the library works on hold, in terms of their fields.

use crate::agent_manager::{
    AgentFolder, FolderEntry, Respawn, RespawnView, agent_views, folders, listing,
};
use crate::cron_manager::job_views;
use crate::debug::{BashSession, DebugPrompt};
use crate::doctor::{CheckResult, Probe, ProbeView, Repair, RepairView, checks, probes};
use crate::events::{Emission, Target, TargetView, emissions};
use crate::history::{AgentHistoryRow, SocketEventRow};
use crate::json::{trees, value_tree};
use crate::memory_db::{MemoryRow, MemoryTierRow, ScopeCount, TaskMemoryRow};
use crate::pipeline_coordinator::{PendingRequest, RecoveryResponse, StageReport};
use crate::socket_server::Reply;
use crate::sql::{SqlCell, SqlValue, Statement, cells};
use crate::steps::{LogEntry, StageMemory, Step, StepView, Subtask, steps};
use crate::system_discovery::{
    ChecklistItem, DiscoveredTool, EvoComponent, ToolProbe, component_views, item_views, str_texts,
    tool_views,
};
use crate::task_db::{
    AgentMetadata, AgentRow, ConfigHistoryRow, CronJobRow, PipelineRow, SetupStep, TaskLogRow,
    TaskRow, setup_views, stage_views,
};
use crate::text::{opt_text, texts};
use crate::trace_db::{AttributeValue, AttributeValueView, SpanRecord, statements};
use serde_json::Value;
use vstd::prelude::*;

verus! {

/// What an entry of a folder holds is what its fields hold, each under its name.
pub proof fn law_folder_entry_view(item: FolderEntry)
    ensures
        item@.name == opt_text(item.name),
        item@.path == item.path@,
        item@.is_dir == item.is_dir,
        item@.has_soul == item.has_soul,
{
}

/// What the folder of an agent holds is what its fields hold, each under its name.
pub proof fn law_agent_folder_view(item: AgentFolder)
    ensures
        item@.name == item.name@,
        item@.path == item.path@,
{
}

/// What a prompt holds is what its fields hold, each under its name.
pub proof fn law_debug_prompt_view(item: DebugPrompt)
    ensures
        item@.agent_role == item.agent_role@,
        item@.model == item.model@,
        item@.prompt == item.prompt@,
        item@.provider == opt_text(item.provider),
        item@.temperature == opt_text(item.temperature),
        item@.max_tokens == item.max_tokens,
{
}

/// What a session holds is what its fields hold, each under its name.
pub proof fn law_bash_session_view(item: BashSession)
    ensures
        item@.request_id == item.request_id@,
        item@.task_id == item.task_id@,
        item@.chunk_index == item.chunk_index,
        item@.accumulated == item.accumulated@,
        item@.full == item.full,
        item@.log_buffer == item.log_buffer@,
{
}

/// What a result holds is what its fields hold, each under its name.
pub proof fn law_check_result_view(item: CheckResult)
    ensures
        item@.name == item.name@,
        item@.passed == item.passed,
        item@.message == item.message@,
        item@.fixable == item.fixable,
{
}

/// What an event holds is what its fields hold, each under its name.
pub proof fn law_emission_view(item: Emission)
    ensures
        item@.target == item.target@,
        item@.event == item.event@,
        item@.payload == value_tree(item.payload),
{
}

/// What a change of an agent holds is what its fields hold, each under its name.
pub proof fn law_agent_history_row_view(item: AgentHistoryRow)
    ensures
        item@.id == item.id@,
        item@.agent_id == item.agent_id@,
        item@.prev_status == item.prev_status@,
        item@.new_status == item.new_status@,
        item@.trigger == item.trigger@,
        item@.detail == item.detail@,
        item@.pid == item.pid,
        item@.created_at == item.created_at@,
{
}

/// What a recorded event holds is what its fields hold, each under its name.
pub proof fn law_socket_event_row_view(item: SocketEventRow)
    ensures
        item@.id == item.id@,
        item@.event_name == item.event_name@,
        item@.direction == item.direction@,
        item@.agent_id == item.agent_id@,
        item@.socket_id == item.socket_id@,
        item@.room == item.room@,
        item@.payload == item.payload@,
        item@.created_at == item.created_at@,
{
}

/// What a memory holds is what its fields hold, each under its name.
pub proof fn law_memory_row_view(item: MemoryRow)
    ensures
        item@.id == item.id@,
        item@.scope == item.scope@,
        item@.category == item.category@,
        item@.key == item.key@,
        item@.metadata == item.metadata@,
        item@.tags == item.tags@,
        item@.agent_id == item.agent_id@,
        item@.run_id == item.run_id@,
        item@.skill_id == item.skill_id@,
        item@.relevance_score == item.relevance_score@,
        item@.access_count == item.access_count,
        item@.created_at == item.created_at@,
        item@.updated_at == item.updated_at@,
{
}

/// What a tier holds is what its fields hold, each under its name.
pub proof fn law_memory_tier_row_view(item: MemoryTierRow)
    ensures
        item@.id == item.id@,
        item@.memory_id == item.memory_id@,
        item@.tier == item.tier@,
        item@.content == item.content@,
        item@.created_at == item.created_at@,
        item@.updated_at == item.updated_at@,
{
}

/// What a memory of a task holds is what its fields hold, each under its name.
pub proof fn law_task_memory_row_view(item: TaskMemoryRow)
    ensures
        item@.id == item.id@,
        item@.task_id == item.task_id@,
        item@.memory_id == item.memory_id@,
        item@.created_at == item.created_at@,
{
}

/// What a count holds is what its fields hold, each under its name.
pub proof fn law_scope_count_view(item: ScopeCount)
    ensures
        item@.scope == item.scope@,
        item@.count == item.count,
{
}

/// What a report holds is what its fields hold, each under its name.
pub proof fn law_stage_report_view(item: StageReport)
    ensures
        item@.run_id == item.run_id@,
        item@.stage == item.stage,
        item@.agent_id == item.agent_id@,
        item@.status == item.status@,
        item@.artifact_id == item.artifact_id@,
        item@.output == value_tree(item.output),
        item@.error == opt_text(item.error),
{
}

/// What an answer holds is what its fields hold, each under its name.
pub proof fn law_recovery_response_view(item: RecoveryResponse)
    ensures
        item@.run_id == item.run_id@,
        item@.action == item.action@,
        item@.params == value_tree(item.params),
        item@.reasoning == item.reasoning@,
{
}

/// What a request holds is what its fields hold, each under its name.
pub proof fn law_pending_request_view(item: PendingRequest)
    ensures
        item@.run_id == item.run_id@,
        item@.task_id == item.task_id@,
        item@.request_type == item.request_type@,
{
}

/// What an entry of a log holds is what its fields hold, each under its name.
pub proof fn law_log_entry_view(item: LogEntry)
    ensures
        item@.task_id == item.task_id@,
        item@.level == item.level@,
        item@.message == item.message@,
        item@.detail == item.detail@,
        item@.agent_id == item.agent_id@,
        item@.stage == item.stage@,
{
}

/// What the memory of a stage holds is what its fields hold, each under its name.
pub proof fn law_stage_memory_view(item: StageMemory)
    ensures
        item@.category == item.category@,
        item@.key == item.key@,
        item@.agent_id == item.agent_id@,
        item@.run_id == item.run_id@,
        item@.l0 == item.l0@,
        item@.l1 == item.l1@,
        item@.l2 == item.l2@,
        item@.task_id == opt_text(item.task_id),
{
}

/// What a subtask holds is what its fields hold, each under its name.
pub proof fn law_subtask_view(item: Subtask)
    ensures
        item@.task_type == item.task_type@,
        item@.payload == item.payload@,
        item@.run_id == item.run_id@,
        item@.summary == item.summary@,
        item@.parent_id == item.parent_id@,
        item@.agent_id == item.agent_id@,
{
}

/// What a tool holds is what its fields hold, each under its name.
pub proof fn law_discovered_tool_view(item: DiscoveredTool)
    ensures
        item@.name == item.name@,
        item@.version == opt_text(item.version),
        item@.path == opt_text(item.path),
        item@.status == item.status,
        item@.suggestion_reason == opt_text(item.suggestion_reason),
        item@.category == item.category@,
{
}

/// What a component holds is what its fields hold, each under its name.
pub proof fn law_evo_component_view(item: EvoComponent)
    ensures
        item@.name == item.name@,
        item@.binary_path == opt_text(item.binary_path),
        item@.version == opt_text(item.version),
        item@.found == item.found,
{
}

/// What an item holds is what its fields hold, each under its name.
pub proof fn law_checklist_item_view(item: ChecklistItem)
    ensures
        item@.name == item.name@,
        item@.status == item.status,
        item@.message == item.message@,
{
}

/// What an agent holds is what its fields hold, each under its name.
pub proof fn law_agent_row_view(item: AgentRow)
    ensures
        item@.agent_id == item.agent_id@,
        item@.role == item.role@,
        item@.status == item.status@,
        item@.last_heartbeat == item.last_heartbeat@,
        item@.capabilities == item.capabilities@,
        item@.skills == item.skills@,
        item@.pid == item.pid,
        item@.preferred_model == item.preferred_model@,
        item@.soul_content == item.soul_content@,
        item@.binary_path == item.binary_path@,
        item@.version == item.version@,
        item@.first_registered_at == item.first_registered_at@,
        item@.registration_count == item.registration_count,
        item@.crash_count == item.crash_count,
        item@.socket_id == item.socket_id@,
{
}

/// What a change of the config holds is what its fields hold, each under its name.
pub proof fn law_config_history_row_view(item: ConfigHistoryRow)
    ensures
        item@.id == item.id@,
        item@.config_hash == item.config_hash@,
        item@.action == item.action@,
        item@.backup_path == item.backup_path@,
        item@.timestamp == item.timestamp@,
{
}

/// What a task holds is what its fields hold, each under its name.
pub proof fn law_task_row_view(item: TaskRow)
    ensures
        item@.id == item.id@,
        item@.task_type == item.task_type@,
        item@.status == item.status@,
        item@.agent_id == item.agent_id@,
        item@.payload == item.payload@,
        item@.run_id == item.run_id@,
        item@.current_stage == item.current_stage@,
        item@.summary == item.summary@,
        item@.parent_id == item.parent_id@,
        item@.created_at == item.created_at@,
        item@.updated_at == item.updated_at@,
{
}

/// What a log entry holds is what its fields hold, each under its name.
pub proof fn law_task_log_row_view(item: TaskLogRow)
    ensures
        item@.id == item.id@,
        item@.task_id == item.task_id@,
        item@.level == item.level@,
        item@.message == item.message@,
        item@.detail == item.detail@,
        item@.agent_id == item.agent_id@,
        item@.stage == item.stage@,
        item@.created_at == item.created_at@,
{
}

/// What a stage holds is what its fields hold, each under its name.
pub proof fn law_pipeline_row_view(item: PipelineRow)
    ensures
        item@.id == item.id@,
        item@.run_id == item.run_id@,
        item@.stage == item.stage@,
        item@.artifact_id == item.artifact_id@,
        item@.status == item.status@,
        item@.agent_id == item.agent_id@,
        item@.result == opt_text(item.result),
        item@.error == opt_text(item.error),
        item@.created_at == item.created_at@,
        item@.updated_at == item.updated_at@,
        item@.input_metadata == item.input_metadata@,
{
}

/// What a job holds is what its fields hold, each under its name.
pub proof fn law_cron_job_row_view(item: CronJobRow)
    ensures
        item@.id == item.id@,
        item@.name == item.name@,
        item@.schedule == item.schedule@,
        item@.enabled == item.enabled,
        item@.last_run_at == opt_text(item.last_run_at),
        item@.next_run_at == opt_text(item.next_run_at),
        item@.last_status == opt_text(item.last_status),
        item@.last_error == opt_text(item.last_error),
        item@.created_at == item.created_at@,
{
}

/// What a registration holds is what its fields hold, each under its name.
pub proof fn law_agent_metadata_view(item: AgentMetadata)
    ensures
        item@.agent_id == item.agent_id@,
        item@.role == item.role@,
        item@.capabilities == item.capabilities@,
        item@.skills == item.skills@,
        item@.pid == item.pid,
        item@.soul_content == item.soul_content@,
        item@.binary_path == item.binary_path@,
        item@.version == item.version@,
        item@.socket_id == item.socket_id@,
{
}

/// What a step of the set-up holds is what its fields hold, each under its name.
pub proof fn law_setup_step_view(item: SetupStep)
    ensures
        item@.kind == item.kind,
        item@.sql == item.sql@,
        item@.context == item.context@,
{
}

/// What a span holds is what its fields hold, each under its name.
pub proof fn law_span_record_view(item: SpanRecord)
    ensures
        item@.trace_id == item.trace_id@,
        item@.span_id == item.span_id@,
        item@.parent_span_id == item.parent_span_id@,
        item@.name == item.name@,
        item@.kind == item.kind,
        item@.start_time_unix_nano == item.start_time_unix_nano,
        item@.end_time_unix_nano == item.end_time_unix_nano,
        item.status matches Some(s) ==> item@.status == Some((s.0, s.1@)),
        item.status is None ==> item@.status is None,
        item@.attributes == opt_text(item.attributes),
        item@.events == opt_text(item.events),
{
}

/// What a reply holds is what its fields hold, each under its name.
pub proof fn law_reply_view(item: Reply)
    ensures
        item@.ack == value_tree(item.ack),
        item@.events == emissions(item.events@),
{
}

/// What a statement holds is what its fields hold, each under its name.
pub proof fn law_statement_view(item: Statement)
    ensures
        item@.sql == item.sql@,
        item@.params == cells(item.params@),
{
}

/// What the probe of a tool holds is what its fields hold, each under its name.
pub proof fn law_tool_probe_view(item: ToolProbe)
    ensures
        item@.name == item.name@,
        item@.command == item.command@,
        item@.version_args == str_texts(item.version_args@),
        item@.category == item.category@,
        item@.suggested == item.suggested,
        item@.suggestion_reason == item.suggestion_reason@,
{
}

/// What a step holds is what it was made with.
pub proof fn law_step_view(item: Step)
    ensures
        item matches Step::Execute { statement, context }
            ==> item@ == (StepView::Execute { statement: statement@, context: context@ }),
        item matches Step::RecordLog { entry } ==> item@ == (StepView::RecordLog { entry: entry@ }),
        item matches Step::AnnounceLog { task_id }
            ==> item@ == (StepView::AnnounceLog { task_id: task_id@ }),
        item matches Step::UpdateTask { task_id, status, current_stage, summary }
            ==> item@
                == (StepView::UpdateTask { task_id: task_id@, status: opt_text(status),
                    current_stage: opt_text(current_stage), summary: opt_text(summary) }),
        item matches Step::ShareTask { task_id }
            ==> item@ == (StepView::ShareTask { task_id: task_id@ }),
        item matches Step::UpdateStage { id, status, agent_id, result, error, context }
            ==> item@
                == (StepView::UpdateStage { id: id@, status: status@, agent_id: agent_id@,
                    result: opt_text(result), error: opt_text(error), context: opt_text(context) }),
        item matches Step::CreateStage { run_id, stage, artifact_id, input_metadata, context }
            ==> item@
                == (StepView::CreateStage { run_id: run_id@, stage: stage@,
                    artifact_id: artifact_id@, input_metadata: input_metadata@,
                        context: context@ }),
        item matches Step::RetryStage { id } ==> item@ == (StepView::RetryStage { id: id@ }),
        item matches Step::StoreMemory { memory }
            ==> item@ == (StepView::StoreMemory { memory: memory@ }),
        item matches Step::CreateSubtask { subtask }
            ==> item@ == (StepView::CreateSubtask { subtask: subtask@ }),
        item matches Step::Send { emission } ==> item@ == (StepView::Send { emission: emission@ }),
        item matches Step::AskForRecovery { request_id, emission, task_id, stage, reason }
            ==> item@
                == (StepView::AskForRecovery { request_id: request_id@, emission: emission@,
                    task_id: opt_text(task_id), stage: stage@, reason: reason@ }),
        item matches Step::StartUpdate { component, new_version, run_id }
            ==> item@
                == (StepView::StartUpdate { component: component@, new_version: new_version@,
                    run_id: run_id@ }),
        item matches Step::Stop { message } ==> item@ == (StepView::Stop { message: message@ }),
{
}

/// Who an event is for is who it was made for.
pub proof fn law_target_view(item: Target)
    ensures
        item is Everyone ==> item@ is Everyone,
        item matches Target::Room(x) ==> item@ == TargetView::Room(x@),
        item matches Target::Peers(x) ==> item@ == TargetView::Peers(x@),
{
}

/// What a value of a statement holds is what it was made with.
pub proof fn law_sql_value_view(item: SqlValue)
    ensures
        item is Null ==> item@ is Null,
        item matches SqlValue::Integer(x) ==> item@ == SqlCell::Integer(x),
        item matches SqlValue::Real(x) ==> item@ == SqlCell::Real(x@),
        item matches SqlValue::Text(x) ==> item@ == SqlCell::Text(x@),
{
}

/// What a probe is about is what it was made for.
pub proof fn law_probe_view(item: Probe)
    ensures
        item matches Probe::Dir { path } ==> item@ == (ProbeView::Dir { path: path@ }),
        item matches Probe::Binary { path } ==> item@ == (ProbeView::Binary { path: path@ }),
        item matches Probe::File { path } ==> item@ == (ProbeView::File { path: path@ }),
        item matches Probe::Repo { name, path }
            ==> item@ == (ProbeView::Repo { name: name@, path: path@ }),
        item is Gateway ==> item@ is Gateway,
{
}

/// What a repair does is what it was made for.
pub proof fn law_repair_view(item: Repair)
    ensures
        item matches Repair::MakeDir { path } ==> item@ == (RepairView::MakeDir { path: path@ }),
        item matches Repair::Clone { url, path }
            ==> item@ == (RepairView::Clone { url: url@, path: path@ }),
{
}

/// What is done about a process is what was decided.
pub proof fn law_respawn_view(item: Respawn)
    ensures
        item matches Respawn::Try { attempt, delay_secs }
            ==> item@ == (RespawnView::Try { attempt, delay_secs }),
        item is Recovered ==> item@ is Recovered,
        item matches Respawn::GiveUp { message }
            ==> item@ == (RespawnView::GiveUp { message: message@ }),
{
}

/// What the value of an attribute holds is what it was made with.
pub proof fn law_attribute_value_view(item: AttributeValue)
    ensures
        item matches AttributeValue::Text(x) ==> item@ == AttributeValueView::Text(x@),
        item matches AttributeValue::Other(x) ==> item@ == AttributeValueView::Other(x@),
{
}

/// What a list holds is what its items hold, each in its place.
pub proof fn law_texts_are_in_place(items: Seq<String>, i: int)
    ensures
        texts(items).len() == items.len(),
        0 <= i < items.len() ==> texts(items)[i] == items[i]@,
{
}

/// What a list holds is what its items hold, each in its place.
pub proof fn law_cells_are_in_place(items: Seq<SqlValue>, i: int)
    ensures
        cells(items).len() == items.len(),
        0 <= i < items.len() ==> cells(items)[i] == items[i]@,
{
}

/// What a list holds is what its items hold, each in its place.
pub proof fn law_steps_are_in_place(items: Seq<Step>, i: int)
    ensures
        steps(items).len() == items.len(),
        0 <= i < items.len() ==> steps(items)[i] == items[i]@,
{
}

/// What a list holds is what its items hold, each in its place.
pub proof fn law_emissions_are_in_place(items: Seq<Emission>, i: int)
    ensures
        emissions(items).len() == items.len(),
        0 <= i < items.len() ==> emissions(items)[i] == items[i]@,
{
}

/// What a list holds is what its items hold, each in its place.
pub proof fn law_statements_are_in_place(items: Seq<Statement>, i: int)
    ensures
        statements(items).len() == items.len(),
        0 <= i < items.len() ==> statements(items)[i] == items[i]@,
{
}

/// What a list holds is what its items hold, each in its place.
pub proof fn law_stage_views_are_in_place(items: Seq<PipelineRow>, i: int)
    ensures
        stage_views(items).len() == items.len(),
        0 <= i < items.len() ==> stage_views(items)[i] == items[i]@,
{
}

/// What a list holds is what its items hold, each in its place.
pub proof fn law_tool_views_are_in_place(items: Seq<DiscoveredTool>, i: int)
    ensures
        tool_views(items).len() == items.len(),
        0 <= i < items.len() ==> tool_views(items)[i] == items[i]@,
{
}

/// What a list holds is what its items hold, each in its place.
pub proof fn law_component_views_are_in_place(items: Seq<EvoComponent>, i: int)
    ensures
        component_views(items).len() == items.len(),
        0 <= i < items.len() ==> component_views(items)[i] == items[i]@,
{
}

/// What a list holds is what its items hold, each in its place.
pub proof fn law_item_views_are_in_place(items: Seq<ChecklistItem>, i: int)
    ensures
        item_views(items).len() == items.len(),
        0 <= i < items.len() ==> item_views(items)[i] == items[i]@,
{
}

/// What a list holds is what its items hold, each in its place.
pub proof fn law_checks_are_in_place(items: Seq<CheckResult>, i: int)
    ensures
        checks(items).len() == items.len(),
        0 <= i < items.len() ==> checks(items)[i] == items[i]@,
{
}

/// What a list holds is what its items hold, each in its place.
pub proof fn law_probes_are_in_place(items: Seq<Probe>, i: int)
    ensures
        probes(items).len() == items.len(),
        0 <= i < items.len() ==> probes(items)[i] == items[i]@,
{
}

/// What a list holds is what its items hold, each in its place.
pub proof fn law_job_views_are_in_place(items: Seq<CronJobRow>, i: int)
    ensures
        job_views(items).len() == items.len(),
        0 <= i < items.len() ==> job_views(items)[i] == items[i]@,
{
}

/// What a list holds is what its items hold, each in its place.
pub proof fn law_agent_views_are_in_place(items: Seq<AgentRow>, i: int)
    ensures
        agent_views(items).len() == items.len(),
        0 <= i < items.len() ==> agent_views(items)[i] == items[i]@,
{
}

/// What a list holds is what its items hold, each in its place.
pub proof fn law_folders_are_in_place(items: Seq<AgentFolder>, i: int)
    ensures
        folders(items).len() == items.len(),
        0 <= i < items.len() ==> folders(items)[i] == items[i]@,
{
}

/// What a list holds is what its items hold, each in its place.
pub proof fn law_listing_are_in_place(items: Seq<FolderEntry>, i: int)
    ensures
        listing(items).len() == items.len(),
        0 <= i < items.len() ==> listing(items)[i] == items[i]@,
{
}

/// What a list holds is what its items hold, each in its place.
pub proof fn law_setup_views_are_in_place(items: Seq<SetupStep>, i: int)
    ensures
        setup_views(items).len() == items.len(),
        0 <= i < items.len() ==> setup_views(items)[i] == items[i]@,
{
}

/// What a list holds is what its items hold, each in its place.
pub proof fn law_trees_are_in_place(items: Seq<Value>, i: int)
    ensures
        trees(items).len() == items.len(),
        0 <= i < items.len() ==> trees(items)[i] == value_tree(items[i]),
{
}

/// A text that may be absent is the text, or absent.
pub proof fn law_absent_texts(item: Option<String>)
    ensures
        item matches Some(s) ==> opt_text(item) == Some(s@),
        item is None ==> opt_text(item) is None,
{
}

} // verus!
