//! What holds of the plans of the pipeline: what each of them stores, changes, sends
//! and asks for, in terms of the report or answer that it follows on.

use crate::events::{EmissionView, TargetView};
use crate::json::{JsonTree, compact_text, parsed_tree, pretty_text};
use crate::pipeline_coordinator::{
    PendingView, PipelineStage, RecoveryView, ReportView, answered_steps, decompose_payload,
    decomposition_steps, last_of_stage, recovery_steps, result_steps, running_stage, stage_index,
    stage_name, stage_named, start_steps, subtask_of, summary_of, timeout_steps, with_subtasks,
};
use crate::steps::{LogView, StageMemoryView, StepView, SubtaskView};
use crate::task_db::{
    PipelineView, TaskView, create_pipeline_stage_statement, create_task_statement,
};
use crate::text::{decimal, text_or};
use vstd::prelude::*;

verus! {

// What a plan holds.

/// What a step is about.
#[derive(Clone, Copy, PartialEq, Eq, Structural)]
pub enum StepKind {
    Statement,
    Log,
    Announcement,
    TaskChange,
    TaskNews,
    StageOutcome,
    NewStage,
    Retry,
    Memory,
    Subtask,
    Event,
    Recovery,
    Update,
    Stop,
}

/// What a step is about.
pub open spec fn kind_of(step: StepView) -> StepKind {
    match step {
        StepView::Execute { .. } => StepKind::Statement,
        StepView::RecordLog { .. } => StepKind::Log,
        StepView::AnnounceLog { .. } => StepKind::Announcement,
        StepView::UpdateTask { .. } => StepKind::TaskChange,
        StepView::ShareTask { .. } => StepKind::TaskNews,
        StepView::UpdateStage { .. } => StepKind::StageOutcome,
        StepView::CreateStage { .. } => StepKind::NewStage,
        StepView::RetryStage { .. } => StepKind::Retry,
        StepView::StoreMemory { .. } => StepKind::Memory,
        StepView::CreateSubtask { .. } => StepKind::Subtask,
        StepView::Send { .. } => StepKind::Event,
        StepView::AskForRecovery { .. } => StepKind::Recovery,
        StepView::StartUpdate { .. } => StepKind::Update,
        StepView::Stop { .. } => StepKind::Stop,
    }
}

/// The steps of a plan that are about something, in their order.
pub open spec fn of_kind(items: Seq<StepView>, kind: StepKind) -> Seq<StepView>
    decreases items.len(),
{
    if items.len() == 0 {
        Seq::empty()
    } else {
        let before = of_kind(items.drop_last(), kind);
        if kind_of(items.last()) == kind {
            before.push(items.last())
        } else {
            before
        }
    }
}

broadcast proof fn lemma_of_kind_push(items: Seq<StepView>, item: StepView, kind: StepKind)
    ensures
        #[trigger] of_kind(items.push(item), kind) == (if kind_of(item) == kind {
            of_kind(items, kind).push(item)
        } else {
            of_kind(items, kind)
        }),
{
    assert(items.push(item).drop_last() =~= items);
}

broadcast proof fn lemma_of_kind_empty(kind: StepKind)
    ensures
        #[trigger] of_kind(Seq::<StepView>::empty(), kind) == Seq::<StepView>::empty(),
{
}

/// The entry that a step records.
pub open spec fn entry_of(step: StepView) -> LogView {
    step->RecordLog_entry
}

/// The event that a step sends.
pub open spec fn event_of(step: StepView) -> EmissionView {
    step->Send_emission
}

/// The subtask that a step creates.
pub open spec fn subtask_in(step: StepView) -> SubtaskView {
    step->CreateSubtask_subtask
}

/// The memory that a step stores.
pub open spec fn memory_in(step: StepView) -> StageMemoryView {
    step->StoreMemory_memory
}

/// The names of the members of the events of the pipeline are distinct.
proof fn lemma_keys()
    ensures
        "run_id"@ != "stage"@,
        "run_id"@ != "artifact_id"@,
        "run_id"@ != "metadata"@,
        "run_id"@ != "is_retry"@,
        "run_id"@ != "retry_count"@,
        "run_id"@ != "event"@,
        "run_id"@ != "data"@,
        "run_id"@ != "request_id"@,
        "run_id"@ != "task_id"@,
        "run_id"@ != "failed_stage"@,
        "run_id"@ != "error_message"@,
        "run_id"@ != "stage_output"@,
        "run_id"@ != "task_summary"@,
        "run_id"@ != "task_type"@,
        "run_id"@ != "summary"@,
        "run_id"@ != "payload"@,
        "run_id"@ != "context"@,
        "run_id"@ != "trigger"@,
        "stage"@ != "artifact_id"@,
        "stage"@ != "metadata"@,
        "stage"@ != "is_retry"@,
        "stage"@ != "retry_count"@,
        "stage"@ != "event"@,
        "stage"@ != "data"@,
        "stage"@ != "request_id"@,
        "stage"@ != "task_id"@,
        "stage"@ != "failed_stage"@,
        "stage"@ != "error_message"@,
        "stage"@ != "stage_output"@,
        "stage"@ != "task_summary"@,
        "stage"@ != "task_type"@,
        "stage"@ != "summary"@,
        "stage"@ != "payload"@,
        "stage"@ != "context"@,
        "stage"@ != "trigger"@,
        "artifact_id"@ != "metadata"@,
        "artifact_id"@ != "is_retry"@,
        "artifact_id"@ != "retry_count"@,
        "artifact_id"@ != "event"@,
        "artifact_id"@ != "data"@,
        "artifact_id"@ != "request_id"@,
        "artifact_id"@ != "task_id"@,
        "artifact_id"@ != "failed_stage"@,
        "artifact_id"@ != "error_message"@,
        "artifact_id"@ != "stage_output"@,
        "artifact_id"@ != "task_summary"@,
        "artifact_id"@ != "task_type"@,
        "artifact_id"@ != "summary"@,
        "artifact_id"@ != "payload"@,
        "artifact_id"@ != "context"@,
        "artifact_id"@ != "trigger"@,
        "metadata"@ != "is_retry"@,
        "metadata"@ != "retry_count"@,
        "metadata"@ != "event"@,
        "metadata"@ != "data"@,
        "metadata"@ != "request_id"@,
        "metadata"@ != "task_id"@,
        "metadata"@ != "failed_stage"@,
        "metadata"@ != "error_message"@,
        "metadata"@ != "stage_output"@,
        "metadata"@ != "task_summary"@,
        "metadata"@ != "task_type"@,
        "metadata"@ != "summary"@,
        "metadata"@ != "payload"@,
        "metadata"@ != "context"@,
        "metadata"@ != "trigger"@,
        "is_retry"@ != "retry_count"@,
        "is_retry"@ != "event"@,
        "is_retry"@ != "data"@,
        "is_retry"@ != "request_id"@,
        "is_retry"@ != "task_id"@,
        "is_retry"@ != "failed_stage"@,
        "is_retry"@ != "error_message"@,
        "is_retry"@ != "stage_output"@,
        "is_retry"@ != "task_summary"@,
        "is_retry"@ != "task_type"@,
        "is_retry"@ != "summary"@,
        "is_retry"@ != "payload"@,
        "is_retry"@ != "context"@,
        "is_retry"@ != "trigger"@,
        "retry_count"@ != "event"@,
        "retry_count"@ != "data"@,
        "retry_count"@ != "request_id"@,
        "retry_count"@ != "task_id"@,
        "retry_count"@ != "failed_stage"@,
        "retry_count"@ != "error_message"@,
        "retry_count"@ != "stage_output"@,
        "retry_count"@ != "task_summary"@,
        "retry_count"@ != "task_type"@,
        "retry_count"@ != "summary"@,
        "retry_count"@ != "payload"@,
        "retry_count"@ != "context"@,
        "retry_count"@ != "trigger"@,
        "event"@ != "data"@,
        "event"@ != "request_id"@,
        "event"@ != "task_id"@,
        "event"@ != "failed_stage"@,
        "event"@ != "error_message"@,
        "event"@ != "stage_output"@,
        "event"@ != "task_summary"@,
        "event"@ != "task_type"@,
        "event"@ != "summary"@,
        "event"@ != "payload"@,
        "event"@ != "context"@,
        "event"@ != "trigger"@,
        "data"@ != "request_id"@,
        "data"@ != "task_id"@,
        "data"@ != "failed_stage"@,
        "data"@ != "error_message"@,
        "data"@ != "stage_output"@,
        "data"@ != "task_summary"@,
        "data"@ != "task_type"@,
        "data"@ != "summary"@,
        "data"@ != "payload"@,
        "data"@ != "context"@,
        "data"@ != "trigger"@,
        "request_id"@ != "task_id"@,
        "request_id"@ != "failed_stage"@,
        "request_id"@ != "error_message"@,
        "request_id"@ != "stage_output"@,
        "request_id"@ != "task_summary"@,
        "request_id"@ != "task_type"@,
        "request_id"@ != "summary"@,
        "request_id"@ != "payload"@,
        "request_id"@ != "context"@,
        "request_id"@ != "trigger"@,
        "task_id"@ != "failed_stage"@,
        "task_id"@ != "error_message"@,
        "task_id"@ != "stage_output"@,
        "task_id"@ != "task_summary"@,
        "task_id"@ != "task_type"@,
        "task_id"@ != "summary"@,
        "task_id"@ != "payload"@,
        "task_id"@ != "context"@,
        "task_id"@ != "trigger"@,
        "failed_stage"@ != "error_message"@,
        "failed_stage"@ != "stage_output"@,
        "failed_stage"@ != "task_summary"@,
        "failed_stage"@ != "task_type"@,
        "failed_stage"@ != "summary"@,
        "failed_stage"@ != "payload"@,
        "failed_stage"@ != "context"@,
        "failed_stage"@ != "trigger"@,
        "error_message"@ != "stage_output"@,
        "error_message"@ != "task_summary"@,
        "error_message"@ != "task_type"@,
        "error_message"@ != "summary"@,
        "error_message"@ != "payload"@,
        "error_message"@ != "context"@,
        "error_message"@ != "trigger"@,
        "stage_output"@ != "task_summary"@,
        "stage_output"@ != "task_type"@,
        "stage_output"@ != "summary"@,
        "stage_output"@ != "payload"@,
        "stage_output"@ != "context"@,
        "stage_output"@ != "trigger"@,
        "task_summary"@ != "task_type"@,
        "task_summary"@ != "summary"@,
        "task_summary"@ != "payload"@,
        "task_summary"@ != "context"@,
        "task_summary"@ != "trigger"@,
        "task_type"@ != "summary"@,
        "task_type"@ != "payload"@,
        "task_type"@ != "context"@,
        "task_type"@ != "trigger"@,
        "summary"@ != "payload"@,
        "summary"@ != "context"@,
        "summary"@ != "trigger"@,
        "payload"@ != "context"@,
        "payload"@ != "trigger"@,
        "context"@ != "trigger"@,
{
    reveal_strlit("run_id");
    reveal_strlit("stage");
    reveal_strlit("artifact_id");
    reveal_strlit("metadata");
    reveal_strlit("is_retry");
    reveal_strlit("retry_count");
    reveal_strlit("event");
    reveal_strlit("data");
    reveal_strlit("request_id");
    reveal_strlit("task_id");
    reveal_strlit("failed_stage");
    reveal_strlit("error_message");
    reveal_strlit("stage_output");
    reveal_strlit("task_summary");
    reveal_strlit("task_type");
    reveal_strlit("summary");
    reveal_strlit("payload");
    reveal_strlit("context");
    reveal_strlit("trigger");
    assert("run_id"@.len() != "stage"@.len());
    assert("run_id"@.len() != "artifact_id"@.len());
    assert("run_id"@.len() != "metadata"@.len());
    assert("run_id"@.len() != "is_retry"@.len());
    assert("run_id"@.len() != "retry_count"@.len());
    assert("run_id"@.len() != "event"@.len());
    assert("run_id"@.len() != "data"@.len());
    assert("run_id"@.len() != "request_id"@.len());
    assert("run_id"@.len() != "task_id"@.len());
    assert("run_id"@.len() != "failed_stage"@.len());
    assert("run_id"@.len() != "error_message"@.len());
    assert("run_id"@.len() != "stage_output"@.len());
    assert("run_id"@.len() != "task_summary"@.len());
    assert("run_id"@.len() != "task_type"@.len());
    assert("run_id"@.len() != "summary"@.len());
    assert("run_id"@.len() != "payload"@.len());
    assert("run_id"@.len() != "context"@.len());
    assert("run_id"@.len() != "trigger"@.len());
    assert("stage"@.len() != "artifact_id"@.len());
    assert("stage"@.len() != "metadata"@.len());
    assert("stage"@.len() != "is_retry"@.len());
    assert("stage"@.len() != "retry_count"@.len());
    assert("stage"@[0] == 's' && "event"@[0] == 'e');
    assert("stage"@.len() != "data"@.len());
    assert("stage"@.len() != "request_id"@.len());
    assert("stage"@.len() != "task_id"@.len());
    assert("stage"@.len() != "failed_stage"@.len());
    assert("stage"@.len() != "error_message"@.len());
    assert("stage"@.len() != "stage_output"@.len());
    assert("stage"@.len() != "task_summary"@.len());
    assert("stage"@.len() != "task_type"@.len());
    assert("stage"@.len() != "summary"@.len());
    assert("stage"@.len() != "payload"@.len());
    assert("stage"@.len() != "context"@.len());
    assert("stage"@.len() != "trigger"@.len());
    assert("artifact_id"@.len() != "metadata"@.len());
    assert("artifact_id"@.len() != "is_retry"@.len());
    assert("artifact_id"@[0] == 'a' && "retry_count"@[0] == 'r');
    assert("artifact_id"@.len() != "event"@.len());
    assert("artifact_id"@.len() != "data"@.len());
    assert("artifact_id"@.len() != "request_id"@.len());
    assert("artifact_id"@.len() != "task_id"@.len());
    assert("artifact_id"@.len() != "failed_stage"@.len());
    assert("artifact_id"@.len() != "error_message"@.len());
    assert("artifact_id"@.len() != "stage_output"@.len());
    assert("artifact_id"@.len() != "task_summary"@.len());
    assert("artifact_id"@.len() != "task_type"@.len());
    assert("artifact_id"@.len() != "summary"@.len());
    assert("artifact_id"@.len() != "payload"@.len());
    assert("artifact_id"@.len() != "context"@.len());
    assert("artifact_id"@.len() != "trigger"@.len());
    assert("metadata"@[0] == 'm' && "is_retry"@[0] == 'i');
    assert("metadata"@.len() != "retry_count"@.len());
    assert("metadata"@.len() != "event"@.len());
    assert("metadata"@.len() != "data"@.len());
    assert("metadata"@.len() != "request_id"@.len());
    assert("metadata"@.len() != "task_id"@.len());
    assert("metadata"@.len() != "failed_stage"@.len());
    assert("metadata"@.len() != "error_message"@.len());
    assert("metadata"@.len() != "stage_output"@.len());
    assert("metadata"@.len() != "task_summary"@.len());
    assert("metadata"@.len() != "task_type"@.len());
    assert("metadata"@.len() != "summary"@.len());
    assert("metadata"@.len() != "payload"@.len());
    assert("metadata"@.len() != "context"@.len());
    assert("metadata"@.len() != "trigger"@.len());
    assert("is_retry"@.len() != "retry_count"@.len());
    assert("is_retry"@.len() != "event"@.len());
    assert("is_retry"@.len() != "data"@.len());
    assert("is_retry"@.len() != "request_id"@.len());
    assert("is_retry"@.len() != "task_id"@.len());
    assert("is_retry"@.len() != "failed_stage"@.len());
    assert("is_retry"@.len() != "error_message"@.len());
    assert("is_retry"@.len() != "stage_output"@.len());
    assert("is_retry"@.len() != "task_summary"@.len());
    assert("is_retry"@.len() != "task_type"@.len());
    assert("is_retry"@.len() != "summary"@.len());
    assert("is_retry"@.len() != "payload"@.len());
    assert("is_retry"@.len() != "context"@.len());
    assert("is_retry"@.len() != "trigger"@.len());
    assert("retry_count"@.len() != "event"@.len());
    assert("retry_count"@.len() != "data"@.len());
    assert("retry_count"@.len() != "request_id"@.len());
    assert("retry_count"@.len() != "task_id"@.len());
    assert("retry_count"@.len() != "failed_stage"@.len());
    assert("retry_count"@.len() != "error_message"@.len());
    assert("retry_count"@.len() != "stage_output"@.len());
    assert("retry_count"@.len() != "task_summary"@.len());
    assert("retry_count"@.len() != "task_type"@.len());
    assert("retry_count"@.len() != "summary"@.len());
    assert("retry_count"@.len() != "payload"@.len());
    assert("retry_count"@.len() != "context"@.len());
    assert("retry_count"@.len() != "trigger"@.len());
    assert("event"@.len() != "data"@.len());
    assert("event"@.len() != "request_id"@.len());
    assert("event"@.len() != "task_id"@.len());
    assert("event"@.len() != "failed_stage"@.len());
    assert("event"@.len() != "error_message"@.len());
    assert("event"@.len() != "stage_output"@.len());
    assert("event"@.len() != "task_summary"@.len());
    assert("event"@.len() != "task_type"@.len());
    assert("event"@.len() != "summary"@.len());
    assert("event"@.len() != "payload"@.len());
    assert("event"@.len() != "context"@.len());
    assert("event"@.len() != "trigger"@.len());
    assert("data"@.len() != "request_id"@.len());
    assert("data"@.len() != "task_id"@.len());
    assert("data"@.len() != "failed_stage"@.len());
    assert("data"@.len() != "error_message"@.len());
    assert("data"@.len() != "stage_output"@.len());
    assert("data"@.len() != "task_summary"@.len());
    assert("data"@.len() != "task_type"@.len());
    assert("data"@.len() != "summary"@.len());
    assert("data"@.len() != "payload"@.len());
    assert("data"@.len() != "context"@.len());
    assert("data"@.len() != "trigger"@.len());
    assert("request_id"@.len() != "task_id"@.len());
    assert("request_id"@.len() != "failed_stage"@.len());
    assert("request_id"@.len() != "error_message"@.len());
    assert("request_id"@.len() != "stage_output"@.len());
    assert("request_id"@.len() != "task_summary"@.len());
    assert("request_id"@.len() != "task_type"@.len());
    assert("request_id"@.len() != "summary"@.len());
    assert("request_id"@.len() != "payload"@.len());
    assert("request_id"@.len() != "context"@.len());
    assert("request_id"@.len() != "trigger"@.len());
    assert("task_id"@.len() != "failed_stage"@.len());
    assert("task_id"@.len() != "error_message"@.len());
    assert("task_id"@.len() != "stage_output"@.len());
    assert("task_id"@.len() != "task_summary"@.len());
    assert("task_id"@.len() != "task_type"@.len());
    assert("task_id"@[0] == 't' && "summary"@[0] == 's');
    assert("task_id"@[0] == 't' && "payload"@[0] == 'p');
    assert("task_id"@[0] == 't' && "context"@[0] == 'c');
    assert("task_id"@[1] == 'a' && "trigger"@[1] == 'r');
    assert("failed_stage"@.len() != "error_message"@.len());
    assert("failed_stage"@[0] == 'f' && "stage_output"@[0] == 's');
    assert("failed_stage"@[0] == 'f' && "task_summary"@[0] == 't');
    assert("failed_stage"@.len() != "task_type"@.len());
    assert("failed_stage"@.len() != "summary"@.len());
    assert("failed_stage"@.len() != "payload"@.len());
    assert("failed_stage"@.len() != "context"@.len());
    assert("failed_stage"@.len() != "trigger"@.len());
    assert("error_message"@.len() != "stage_output"@.len());
    assert("error_message"@.len() != "task_summary"@.len());
    assert("error_message"@.len() != "task_type"@.len());
    assert("error_message"@.len() != "summary"@.len());
    assert("error_message"@.len() != "payload"@.len());
    assert("error_message"@.len() != "context"@.len());
    assert("error_message"@.len() != "trigger"@.len());
    assert("stage_output"@[0] == 's' && "task_summary"@[0] == 't');
    assert("stage_output"@.len() != "task_type"@.len());
    assert("stage_output"@.len() != "summary"@.len());
    assert("stage_output"@.len() != "payload"@.len());
    assert("stage_output"@.len() != "context"@.len());
    assert("stage_output"@.len() != "trigger"@.len());
    assert("task_summary"@.len() != "task_type"@.len());
    assert("task_summary"@.len() != "summary"@.len());
    assert("task_summary"@.len() != "payload"@.len());
    assert("task_summary"@.len() != "context"@.len());
    assert("task_summary"@.len() != "trigger"@.len());
    assert("task_type"@.len() != "summary"@.len());
    assert("task_type"@.len() != "payload"@.len());
    assert("task_type"@.len() != "context"@.len());
    assert("task_type"@.len() != "trigger"@.len());
    assert("summary"@[0] == 's' && "payload"@[0] == 'p');
    assert("summary"@[0] == 's' && "context"@[0] == 'c');
    assert("summary"@[0] == 's' && "trigger"@[0] == 't');
    assert("payload"@[0] == 'p' && "context"@[0] == 'c');
    assert("payload"@[0] == 'p' && "trigger"@[0] == 't');
    assert("context"@[0] == 'c' && "trigger"@[0] == 't');
}

/// The names of the outcomes of a stage are distinct.
proof fn lemma_words()
    ensures
        "failed"@ != "completed"@,
{
    reveal_strlit("failed");
    reveal_strlit("completed");
    assert("failed"@.len() != "completed"@.len());
}

/// The names of what may be advised after a failure are distinct.
proof fn lemma_advice()
    ensures
        "retry"@ != "decompose"@,
        "retry"@ != "skip"@,
        "decompose"@ != "skip"@,
{
    reveal_strlit("retry");
    reveal_strlit("decompose");
    reveal_strlit("skip");
    assert("retry"@.len() != "decompose"@.len());
    assert("retry"@.len() != "skip"@.len());
    assert("decompose"@.len() != "skip"@.len());
}

/// The names of the stages are distinct.
proof fn lemma_stage_words()
    ensures
        "learning"@ != "building"@,
        "learning"@ != "pre_load"@,
        "learning"@ != "evaluation"@,
        "learning"@ != "skill_manage"@,
        "building"@ != "pre_load"@,
        "building"@ != "evaluation"@,
        "building"@ != "skill_manage"@,
        "pre_load"@ != "evaluation"@,
        "pre_load"@ != "skill_manage"@,
        "evaluation"@ != "skill_manage"@,
{
    reveal_strlit("learning");
    reveal_strlit("building");
    reveal_strlit("pre_load");
    reveal_strlit("evaluation");
    reveal_strlit("skill_manage");
    assert("learning"@[0] == 'l' && "building"@[0] == 'b');
    assert("learning"@[0] == 'l' && "pre_load"@[0] == 'p');
    assert("learning"@.len() != "evaluation"@.len());
    assert("learning"@.len() != "skill_manage"@.len());
    assert("building"@[0] == 'b' && "pre_load"@[0] == 'p');
    assert("building"@.len() != "evaluation"@.len());
    assert("building"@.len() != "skill_manage"@.len());
    assert("pre_load"@.len() != "evaluation"@.len());
    assert("pre_load"@.len() != "skill_manage"@.len());
    assert("evaluation"@.len() != "skill_manage"@.len());
}

/// Whether an event hands a stage to the agents of its role.
pub open spec fn hands(
    event: EmissionView,
    run_id: Seq<char>,
    stage: Seq<char>,
    artifact_id: Seq<char>,
    metadata: JsonTree,
) -> bool {
    &&& event.target == TargetView::Room("role:"@ + stage)
    &&& event.event == "pipeline:next"@
    &&& event.payload.get_text("run_id"@) == Some(run_id)
    &&& event.payload.get_text("stage"@) == Some(stage)
    &&& event.payload.get_text("artifact_id"@) == Some(artifact_id)
    &&& event.payload.get("metadata"@) == Some(metadata)
}

/// Whether an event tells the dashboard of another event.
pub open spec fn retells(event: EmissionView, other: EmissionView) -> bool {
    &&& event.target == TargetView::Room("dashboard"@)
    &&& event.event == "dashboard:event"@
    &&& event.payload.get_text("event"@) == Some(other.event)
    &&& event.payload.get("data"@) == Some(other.payload)
}

/// The name and the place of each of the five stages, and what goes on in it.
pub proof fn law_stage_table()
    ensures
        stage_name(PipelineStage::Learning) == "learning"@,
        stage_name(PipelineStage::Building) == "building"@,
        stage_name(PipelineStage::PreLoad) == "pre_load"@,
        stage_name(PipelineStage::Evaluation) == "evaluation"@,
        stage_name(PipelineStage::SkillManage) == "skill_manage"@,
        summary_of("learning"@) == "Discovering skills"@,
        summary_of("building"@) == "Packaging skill"@,
        summary_of("pre_load"@) == "Checking endpoints"@,
        summary_of("evaluation"@) == "Evaluating quality"@,
        summary_of("skill_manage"@) == "Managing activation"@,
        forall|name: Seq<char>| #[trigger]
            stage_named(name) is None ==> summary_of(name) == "Processing"@,
        forall|name: Seq<char>| #[trigger]
            stage_named(name) is Some ==> stage_name(stage_named(name)->0) == name,
{
    lemma_stage_words();
}

/// Whether a record is the first of a stage of a run that is running.
pub open spec fn runs_first(stages: Seq<PipelineView>, stage: Seq<char>, k: int) -> bool {
    &&& 0 <= k < stages.len()
    &&& stages[k].stage == stage
    &&& stages[k].status == "running"@
    &&& forall|j: int|
        0 <= j < k ==> (#[trigger] stages[j]).stage != stage || stages[j].status != "running"@
}

proof fn lemma_running(stages: Seq<PipelineView>, stage: Seq<char>, k: int)
    requires
        runs_first(stages, stage, k),
    ensures
        running_stage(stages, stage) == k,
    decreases stages.len(),
{
    if k > 0 {
        let rest = stages.drop_first();
        assert(stages[0].stage != stage || stages[0].status != "running"@);
        assert forall|j: int| 0 <= j < k - 1 implies (#[trigger] rest[j]).stage != stage
            || rest[j].status != "running"@ by {
            assert(rest[j] == stages[j + 1]);
        }
        assert(rest[k - 1] == stages[k]);
        lemma_running(rest, stage, k - 1);
    }
}

proof fn lemma_not_running(stages: Seq<PipelineView>, stage: Seq<char>)
    requires
        forall|j: int|
            0 <= j < stages.len() ==> (#[trigger] stages[j]).stage != stage || stages[j].status
                != "running"@,
    ensures
        running_stage(stages, stage) == stages.len(),
    decreases stages.len(),
{
    if stages.len() > 0 {
        let rest = stages.drop_first();
        assert(stages[0].stage != stage || stages[0].status != "running"@);
        assert forall|j: int| 0 <= j < rest.len() implies (#[trigger] rest[j]).stage != stage
            || rest[j].status != "running"@ by {
            assert(rest[j] == stages[j + 1]);
        }
        lemma_not_running(rest, stage);
    }
}

/// A report of a stage that is not running in its run is passed over.
pub proof fn law_stray_reports_are_passed_over(
    report: ReportView,
    stages: Seq<PipelineView>,
    task: Option<TaskView>,
    retry_count: u32,
    request_id: Seq<char>,
)
    requires
        forall|j: int|
            0 <= j < stages.len() ==> (#[trigger] stages[j]).stage != stage_name(report.stage)
                || stages[j].status != "running"@,
    ensures
        result_steps(report, stages, task, retry_count, request_id).len() == 0,
{
    lemma_not_running(stages, stage_name(report.stage));
}

broadcast proof fn lemma_of_kind_subtasks(
    base: Seq<StepView>,
    defs: Seq<JsonTree>,
    parent_id: Seq<char>,
    run_id: Seq<char>,
    agent_id: Seq<char>,
    kind: StepKind,
)
    ensures
        #[trigger] of_kind(with_subtasks(base, defs, parent_id, run_id, agent_id), kind) == (
        if kind == StepKind::Subtask {
            of_kind(base, kind) + created(defs, parent_id, run_id, agent_id)
        } else {
            of_kind(base, kind)
        }),
    decreases defs.len(),
{
    if defs.len() == 0 {
        assert(created(defs, parent_id, run_id, agent_id) =~= Seq::<StepView>::empty());
        assert(of_kind(base, kind) + Seq::<StepView>::empty() =~= of_kind(base, kind));
    } else {
        let rest = defs.drop_last();
        lemma_of_kind_subtasks(base, rest, parent_id, run_id, agent_id, kind);
        let last = StepView::CreateSubtask {
            subtask: subtask_of(defs.last(), defs.len() - 1, parent_id, run_id, agent_id),
        };
        lemma_of_kind_push(with_subtasks(base, rest, parent_id, run_id, agent_id), last, kind);
        assert(created(defs, parent_id, run_id, agent_id) =~= created(
            rest,
            parent_id,
            run_id,
            agent_id,
        ).push(last));
        assert(of_kind(base, kind) + created(defs, parent_id, run_id, agent_id) =~= (of_kind(
            base,
            kind,
        ) + created(rest, parent_id, run_id, agent_id)).push(last));
    }
}

/// The steps that create the subtasks of a list.
spec fn created(
    defs: Seq<JsonTree>,
    parent_id: Seq<char>,
    run_id: Seq<char>,
    agent_id: Seq<char>,
) -> Seq<StepView> {
    Seq::new(
        defs.len(),
        |i: int|
            StepView::CreateSubtask { subtask: subtask_of(defs[i], i, parent_id, run_id,
                agent_id) },
    )
}

broadcast proof fn lemma_subtasks_come_after(
    base: Seq<StepView>,
    defs: Seq<JsonTree>,
    parent_id: Seq<char>,
    run_id: Seq<char>,
    agent_id: Seq<char>,
)
    ensures
        (#[trigger] with_subtasks(base, defs, parent_id, run_id, agent_id)).len() == base.len()
            + defs.len(),
        base.len() > 0 ==> with_subtasks(base, defs, parent_id, run_id, agent_id)[0] == base[0],
    decreases defs.len(),
{
    if defs.len() > 0 {
        lemma_subtasks_come_after(base, defs.drop_last(), parent_id, run_id, agent_id);
    }
}

broadcast group group_plans {
    lemma_of_kind_push,
    lemma_of_kind_empty,
    lemma_of_kind_subtasks,
    lemma_subtasks_come_after,
}

// The report of a stage.

/// What a report says is recorded first, in the record of its stage that is running:
/// the status, the agent, the output as the result, and the error where there is one.
/// No other record is changed.
pub proof fn law_reports_are_recorded(
    report: ReportView,
    stages: Seq<PipelineView>,
    task: Option<TaskView>,
    retry_count: u32,
    request_id: Seq<char>,
    k: int,
)
    requires
        runs_first(stages, stage_name(report.stage), k),
    ensures
        ({
            let all = result_steps(report, stages, task, retry_count, request_id);
            &&& all.len() > 0
            &&& all[0] is UpdateStage
            &&& all[0]->UpdateStage_id == stages[k].id
            &&& all[0]->UpdateStage_status == report.status
            &&& all[0]->UpdateStage_agent_id == report.agent_id
            &&& all[0]->UpdateStage_result == Some(compact_text(report.output))
            &&& all[0]->UpdateStage_error == report.error
            &&& all[0]->UpdateStage_context == Some("update pipeline stage"@)
            &&& of_kind(all, StepKind::StageOutcome) == seq![all[0]]
            &&& report.status != "completed"@ && report.status != "failed"@ ==> all.len() == 1
        }),
{
    broadcast use group_plans;

    lemma_running(stages, stage_name(report.stage), k);
    lemma_words();
    let all = result_steps(report, stages, task, retry_count, request_id);
    assert(of_kind(all, StepKind::StageOutcome) =~= seq![all[0]]);
}

/// What is remembered of a stage that has completed or failed: its output as it came,
/// the beginning of its output set out for reading, and a summary. The memory is bound
/// to the task of the run.
pub proof fn law_stages_are_remembered(
    report: ReportView,
    stages: Seq<PipelineView>,
    task: Option<TaskView>,
    retry_count: u32,
    request_id: Seq<char>,
    k: int,
)
    requires
        runs_first(stages, stage_name(report.stage), k),
        report.status == "completed"@ || report.status == "failed"@,
    ensures
        ({
            let all = result_steps(report, stages, task, retry_count, request_id);
            let stored = of_kind(all, StepKind::Memory);
            let memory = memory_in(stored[0]);
            &&& stored.len() == 1
            &&& memory.run_id == report.run_id
            &&& memory.agent_id == report.agent_id
            &&& memory.key == "memory://pipeline/"@ + report.run_id + "/"@ + stage_name(
                report.stage,
            ) + "/"@ + report.artifact_id
            &&& memory.l0 == compact_text(report.output)
            &&& memory.l1.is_prefix_of(pretty_text(report.output))
            &&& memory.l1.len() <= 2000
            &&& pretty_text(report.output).len() <= 2000 ==> memory.l1 == pretty_text(report.output)
            &&& pretty_text(report.output).len() > 2000 ==> memory.l1.len() == 2000
            &&& memory.l2 == stage_name(report.stage) + " completed by "@ + report.agent_id
                + " for artifact '"@ + report.artifact_id + "'"@
            &&& memory.task_id == (match task {
                Some(t) => Some(t.id),
                None => None,
            })
            &&& memory.category == (match report.stage {
                PipelineStage::Learning => "resource"@,
                PipelineStage::Building => "fact"@,
                PipelineStage::PreLoad => "fact"@,
                PipelineStage::Evaluation => "case"@,
                PipelineStage::SkillManage => "event"@,
            })
        }),
{
    broadcast use group_plans;

    lemma_running(stages, stage_name(report.stage), k);
    lemma_words();
    lemma_stage_words();
}

/// A completed stage that is not the last moves its run on: a record of the next stage
/// is made with the output as its input, the agents of the next stage are handed the
/// output and the artifact, the dashboard is told, and the task is in the next stage.
pub proof fn law_completed_stages_hand_on(
    report: ReportView,
    stages: Seq<PipelineView>,
    task: Option<TaskView>,
    retry_count: u32,
    request_id: Seq<char>,
    k: int,
    next: PipelineStage,
)
    requires
        runs_first(stages, stage_name(report.stage), k),
        report.status == "completed"@,
        stage_index(next) == stage_index(report.stage) + 1,
    ensures
        ({
            let all = result_steps(report, stages, task, retry_count, request_id);
            let records = of_kind(all, StepKind::NewStage);
            let sent = of_kind(all, StepKind::Event);
            let changes = of_kind(all, StepKind::TaskChange);
            &&& records.len() == 1
            &&& records[0]->CreateStage_run_id == report.run_id
            &&& records[0]->CreateStage_stage == stage_name(next)
            &&& records[0]->CreateStage_artifact_id == report.artifact_id
            &&& records[0]->CreateStage_input_metadata == compact_text(report.output)
            &&& sent.len() == 2
            &&& hands(
                event_of(sent[0]),
                report.run_id,
                stage_name(next),
                report.artifact_id,
                report.output,
            )
            &&& retells(event_of(sent[1]), event_of(sent[0]))
            &&& changes.len() == (if task is Some {
                1nat
            } else {
                0
            })
            &&& task matches Some(t) ==> changes[0] == (StepView::UpdateTask {
                task_id: t.id,
                status: None,
                current_stage: Some(stage_name(next)),
                summary: Some(stage_name(next) + " \u{2014} "@ + summary_of(stage_name(next))),
            })
            &&& of_kind(all, StepKind::Retry).len() == 0
            &&& of_kind(all, StepKind::Recovery).len() == 0
            &&& of_kind(all, StepKind::Update).len() == 0
            &&& of_kind(all, StepKind::Stop).len() == 0
        }),
{
    broadcast use group_plans;

    lemma_running(stages, stage_name(report.stage), k);
    lemma_words();
    lemma_keys();
}

/// The log of the task tells that a stage has completed, with its output and its agent,
/// and then that the next one has started or that the run is complete.
pub proof fn law_completed_stages_are_logged(
    report: ReportView,
    stages: Seq<PipelineView>,
    task: Option<TaskView>,
    retry_count: u32,
    request_id: Seq<char>,
    k: int,
    next: PipelineStage,
)
    requires
        runs_first(stages, stage_name(report.stage), k),
        report.status == "completed"@,
        task is Some,
    ensures
        ({
            let all = result_steps(report, stages, task, retry_count, request_id);
            let logs = of_kind(all, StepKind::Log);
            let first = entry_of(logs[0]);
            let second = entry_of(logs[1]);
            &&& logs.len() == 2
            &&& first.task_id == task->0.id && second.task_id == task->0.id
            &&& first.level == "info"@ && second.level == "info"@
            &&& first.message == "Stage "@ + stage_name(report.stage) + " completed"@
            &&& first.detail == compact_text(report.output)
            &&& first.agent_id == report.agent_id
            &&& first.stage == stage_name(report.stage)
            &&& second.detail == ""@
            &&& stage_index(next) == stage_index(report.stage) + 1 ==> second.message == "Stage "@
                + stage_name(next) + " started"@ && second.stage == stage_name(next)
                && second.agent_id == ""@
            &&& report.stage == PipelineStage::SkillManage ==> second.message
                == "Pipeline completed successfully"@ && second.stage == stage_name(report.stage)
                && second.agent_id == report.agent_id
        }),
{
    broadcast use group_plans;

    lemma_running(stages, stage_name(report.stage), k);
    lemma_words();
}

/// The last stage completes its run: nothing is handed over, the task is completed, and
/// where the output says that a new version of a component was activated by a self
/// upgrade, that version is installed.
pub proof fn law_the_last_stage_completes_the_run(
    report: ReportView,
    stages: Seq<PipelineView>,
    task: Option<TaskView>,
    retry_count: u32,
    request_id: Seq<char>,
    k: int,
)
    requires
        runs_first(stages, stage_name(report.stage), k),
        report.status == "completed"@,
        report.stage == PipelineStage::SkillManage,
    ensures
        ({
            let all = result_steps(report, stages, task, retry_count, request_id);
            let changes = of_kind(all, StepKind::TaskChange);
            let updates = of_kind(all, StepKind::Update);
            let upgrades = report.output.get_text("build_type"@) == Some("self_upgrade"@)
                && report.output.get_text("action"@) == Some("activated"@);
            &&& of_kind(all, StepKind::NewStage).len() == 0
            &&& of_kind(all, StepKind::Event).len() == 0
            &&& of_kind(all, StepKind::Recovery).len() == 0
            &&& of_kind(all, StepKind::Retry).len() == 0
            &&& of_kind(all, StepKind::Subtask).len() == 0
            &&& changes.len() == (if task is Some {
                1nat
            } else {
                0
            })
            &&& task matches Some(t) ==> changes[0] == (StepView::UpdateTask {
                task_id: t.id,
                status: Some("completed"@),
                current_stage: None,
                summary: Some("Pipeline completed successfully"@),
            })
            &&& updates.len() == (if upgrades {
                1nat
            } else {
                0
            })
            &&& upgrades ==> updates[0]->StartUpdate_run_id == report.run_id
                && updates[0]->StartUpdate_component == text_or(
                report.output.get_text("component"@),
                "unknown"@,
            ) && updates[0]->StartUpdate_new_version == text_or(
                report.output.get_text("new_version"@),
                "v0.0.0"@,
            )
        }),
{
    broadcast use group_plans;

    lemma_running(stages, stage_name(report.stage), k);
    lemma_words();
}

/// A failed stage stops its run for the time being: the task is recovering, the failure
/// is logged, and the agent that evaluates is asked what to do, with all it needs to
/// know of the failure.
pub proof fn law_failed_stages_ask_for_recovery(
    report: ReportView,
    stages: Seq<PipelineView>,
    task: Option<TaskView>,
    retry_count: u32,
    request_id: Seq<char>,
    k: int,
)
    requires
        runs_first(stages, stage_name(report.stage), k),
        report.status == "failed"@,
    ensures
        ({
            let all = result_steps(report, stages, task, retry_count, request_id);
            let asked = of_kind(all, StepKind::Recovery);
            let event = asked[0]->AskForRecovery_emission;
            let changes = of_kind(all, StepKind::TaskChange);
            let logs = of_kind(all, StepKind::Log);
            let id = match task {
                Some(t) => Some(t.id),
                None => None,
            };
            &&& of_kind(all, StepKind::NewStage).len() == 0
            &&& of_kind(all, StepKind::Event).len() == 0
            &&& of_kind(all, StepKind::Retry).len() == 0
            &&& of_kind(all, StepKind::Subtask).len() == 0
            &&& of_kind(all, StepKind::Update).len() == 0
            &&& asked.len() == 1
            &&& asked[0]->AskForRecovery_request_id == request_id
            &&& asked[0]->AskForRecovery_task_id == id
            &&& asked[0]->AskForRecovery_stage == stage_name(report.stage)
            &&& asked[0]->AskForRecovery_reason == "No recovery agent available"@
            &&& event.target == TargetView::Room("role:evaluation"@)
            &&& event.event == "error:recovery_request"@
            &&& event.payload.get_text("request_id"@) == Some(request_id)
            &&& event.payload.get_text("run_id"@) == Some(report.run_id)
            &&& event.payload.get_text("task_id"@) == Some(text_or(id, ""@))
            &&& event.payload.get_text("failed_stage"@) == Some(stage_name(report.stage))
            &&& event.payload.get_text("error_message"@) == Some(
                text_or(report.error, "unknown error"@),
            )
            &&& event.payload.get("stage_output"@) == Some(report.output)
            &&& event.payload.get_uint("retry_count"@) == Some(retry_count as u64)
            &&& event.payload.get_text("task_summary"@) == Some(
                match task {
                    Some(t) => t.summary,
                    None => ""@,
                },
            )
            &&& changes.len() == (if task is Some {
                1nat
            } else {
                0
            })
            &&& logs.len() == changes.len()
            &&& task matches Some(t) ==> {
                &&& changes[0] == (StepView::UpdateTask {
                    task_id: t.id,
                    status: Some("recovering"@),
                    current_stage: None,
                    summary: Some("Error recovery in progress for "@ + stage_name(report.stage)),
                })
                &&& entry_of(logs[0]).task_id == t.id
                &&& entry_of(logs[0]).level == "error"@
                &&& entry_of(logs[0]).message == "Stage "@ + stage_name(report.stage) + " failed: "@
                    + text_or(report.error, "unknown error"@)
                &&& entry_of(logs[0]).detail == compact_text(report.output)
                &&& entry_of(logs[0]).agent_id == report.agent_id
                &&& entry_of(logs[0]).stage == stage_name(report.stage)
            }
        }),
{
    broadcast use group_plans;

    lemma_running(stages, stage_name(report.stage), k);
    lemma_words();
    lemma_keys();
}

// Subtasks.

/// Whether steps create a subtask for each entry of a list, in its order: linked to a
/// parent task and its run, with the type, the summary and the payload that the entry
/// gives.
pub open spec fn divides_into(
    created: Seq<StepView>,
    defs: Seq<JsonTree>,
    parent_id: Seq<char>,
    run_id: Seq<char>,
    agent_id: Seq<char>,
) -> bool {
    &&& created.len() == defs.len()
    &&& forall|i: int|
        0 <= i < defs.len() ==> {
            let subtask = subtask_in(#[trigger] created[i]);
            &&& created[i] is CreateSubtask
            &&& subtask.parent_id == parent_id
            &&& subtask.run_id == run_id
            &&& subtask.agent_id == agent_id
            &&& subtask.task_type == text_or(defs[i].get_text("task_type"@), "subtask"@)
            &&& subtask.summary == text_or(
                defs[i].get_text("summary"@),
                "Subtask "@ + decimal((i + 1) as nat),
            )
            &&& subtask.payload == (match defs[i].get("payload"@) {
                Some(payload) => compact_text(payload),
                None => compact_text(JsonTree::empty()),
            })
        }
}

/// The subtasks that an evaluation reports are created for the task of the run, and no
/// other report creates subtasks.
pub proof fn law_evaluations_create_their_subtasks(
    report: ReportView,
    stages: Seq<PipelineView>,
    task: Option<TaskView>,
    retry_count: u32,
    request_id: Seq<char>,
    k: int,
)
    requires
        runs_first(stages, stage_name(report.stage), k),
    ensures
        ({
            let all = result_steps(report, stages, task, retry_count, request_id);
            let made = of_kind(all, StepKind::Subtask);
            if report.status == "completed"@ && report.stage == PipelineStage::Evaluation
                && task is Some && report.output.get_items("subtasks"@) is Some {
                divides_into(
                    made,
                    report.output.get_items("subtasks"@)->0,
                    task->0.id,
                    report.run_id,
                    report.agent_id,
                )
            } else {
                made.len() == 0
            }
        }),
{
    broadcast use group_plans;

    lemma_running(stages, stage_name(report.stage), k);
    lemma_words();
    match (task, report.output.get_items("subtasks"@)) {
        (Some(t), Some(defs)) => {
            let made = created(defs, t.id, report.run_id, report.agent_id);
            assert(Seq::<StepView>::empty() + made =~= made);
        },
        _ => {},
    }
}

/// A task that is to be decomposed is: each subtask is created for it and its run, and
/// then it is marked, told of and logged. Otherwise nothing is done.
pub proof fn law_decomposition_creates_the_subtasks(
    should_decompose: bool,
    defs: Seq<JsonTree>,
    reasoning: Seq<char>,
    task: Option<TaskView>,
)
    ensures
        ({
            let all = decomposition_steps(should_decompose, defs, reasoning, task);
            let changes = of_kind(all, StepKind::TaskChange);
            let logs = of_kind(all, StepKind::Log);
            if should_decompose && defs.len() > 0 && task is Some {
                let t = task->0;
                &&& divides_into(
                    of_kind(all, StepKind::Subtask),
                    defs,
                    t.id,
                    t.run_id,
                    "evaluation"@,
                )
                &&& changes == seq![
                    StepView::UpdateTask {
                        task_id: t.id,
                        status: Some("decomposed"@),
                        current_stage: None,
                        summary: Some("Task decomposed: "@ + reasoning),
                    },
                ]
                &&& of_kind(all, StepKind::TaskNews) == seq![StepView::ShareTask { task_id: t.id }]
                &&& logs.len() == 1
                &&& entry_of(logs[0]).task_id == t.id
                &&& entry_of(logs[0]).level == "info"@
                &&& entry_of(logs[0]).message == "Task decomposed into "@ + decimal(defs.len())
                    + " subtasks: "@ + reasoning
                &&& all.len() == defs.len() + 3
            } else {
                all.len() == 0
            }
        }),
{
    broadcast use group_plans;

    match task {
        Some(t) => {
            let made = created(defs, t.id, t.run_id, "evaluation"@);
            assert(Seq::<StepView>::empty() + made =~= made);
            let all = decomposition_steps(should_decompose, defs, reasoning, task);
            if should_decompose && defs.len() > 0 {
                assert(of_kind(all, StepKind::TaskChange) =~= seq![
                    StepView::UpdateTask {
                        task_id: t.id,
                        status: Some("decomposed"@),
                        current_stage: None,
                        summary: Some("Task decomposed: "@ + reasoning),
                    },
                ]);
                assert(of_kind(all, StepKind::TaskNews) =~= seq![
                    StepView::ShareTask { task_id: t.id },
                ]);
            }
        },
        None => {},
    }
}

/// The agent that evaluates is asked to divide a task by the members of the task.
pub proof fn law_decomposition_is_asked_for(
    task: TaskView,
    trigger: Seq<char>,
    request_id: Seq<char>,
)
    ensures
        ({
            let payload = decompose_payload(task, trigger, request_id);
            &&& payload.get_text("request_id"@) == Some(request_id)
            &&& payload.get_text("run_id"@) == Some(task.run_id)
            &&& payload.get_text("task_id"@) == Some(task.id)
            &&& payload.get_text("task_type"@) == Some(task.task_type)
            &&& payload.get_text("summary"@) == Some(task.summary)
            &&& payload.get("payload"@) == Some(
                match parsed_tree(task.payload) {
                    Ok(tree) => tree,
                    Err(_) => JsonTree::Null,
                },
            )
            &&& payload.get("context"@) == Some(JsonTree::empty())
            &&& payload.get_text("trigger"@) == Some(trigger)
        }),
{
    lemma_keys();
}

// The answer to a request for recovery.

/// The first step after a request for recovery tells in the log of the task what was
/// advised.
pub proof fn law_advice_is_logged(
    response: RecoveryView,
    task: TaskView,
    stages: Result<Seq<PipelineView>, Seq<char>>,
    retry_count: u32,
)
    ensures
        ({
            let all = recovery_steps(response, Some(task), stages, retry_count);
            &&& all.len() > 0
            &&& all[0] is RecordLog
            &&& entry_of(all[0]).task_id == task.id
            &&& entry_of(all[0]).level == "info"@
            &&& entry_of(all[0]).message == "Recovery decision: "@ + response.action
                + " \u{2014} "@ + response.reasoning
            &&& entry_of(all[0]).detail == compact_text(response.params)
            &&& entry_of(all[0]).agent_id == ""@
            &&& entry_of(all[0]).stage == task.current_stage
        }),
{
    broadcast use group_plans;

    lemma_advice();
}

/// Whether a record is the last of a stage of a run.
pub open spec fn is_last(records: Seq<PipelineView>, stage: Seq<char>, k: int) -> bool {
    &&& 0 <= k < records.len()
    &&& records[k].stage == stage
    &&& forall|j: int| k < j < records.len() ==> (#[trigger] records[j]).stage != stage
}

proof fn lemma_last(records: Seq<PipelineView>, stage: Seq<char>, k: int)
    requires
        is_last(records, stage, k),
    ensures
        last_of_stage(records, stage) == k + 1,
    decreases records.len(),
{
    if k < records.len() - 1 {
        assert(records.last() == records[records.len() - 1]);
        let rest = records.drop_last();
        assert forall|j: int| k < j < rest.len() implies (#[trigger] rest[j]).stage != stage by {
            assert(rest[j] == records[j]);
        }
        lemma_last(rest, stage, k);
    }
}

proof fn lemma_no_record(records: Seq<PipelineView>, stage: Seq<char>)
    requires
        forall|j: int| 0 <= j < records.len() ==> (#[trigger] records[j]).stage != stage,
    ensures
        last_of_stage(records, stage) == 0,
    decreases records.len(),
{
    if records.len() > 0 {
        assert(records.last() == records[records.len() - 1]);
        let rest = records.drop_last();
        assert forall|j: int| 0 <= j < rest.len() implies (#[trigger] rest[j]).stage != stage by {
            assert(rest[j] == records[j]);
        }
        lemma_no_record(rest, stage);
    }
}

/// A stage that is retried is handed over once more as its last record says: with the
/// artifact and the input that the record holds, and the number of the retry. The
/// record is set running, and so is the task.
pub proof fn law_retries_hand_over_the_stored_input(
    response: RecoveryView,
    task: TaskView,
    records: Seq<PipelineView>,
    retry_count: u32,
    k: int,
)
    requires
        response.action == "retry"@,
        retry_count < 3,
        is_last(records, task.current_stage, k),
        stage_named(task.current_stage) is Some,
    ensures
        ({
            let all = recovery_steps(response, Some(task), Ok(records), retry_count);
            let sent = of_kind(all, StepKind::Event);
            let event = event_of(sent[0]);
            &&& sent.len() == 1
            &&& hands(
                event,
                response.run_id,
                task.current_stage,
                records[k].artifact_id,
                match parsed_tree(records[k].input_metadata) {
                    Ok(tree) => tree,
                    Err(_) => JsonTree::empty(),
                },
            )
            &&& event.payload.get("is_retry"@) == Some(JsonTree::Bool(true))
            &&& event.payload.get_uint("retry_count"@) == Some((retry_count + 1) as u64)
            &&& of_kind(all, StepKind::Retry) == seq![StepView::RetryStage { id: records[k].id }]
            &&& of_kind(all, StepKind::TaskChange) == seq![
                StepView::UpdateTask {
                    task_id: task.id,
                    status: Some("running"@),
                    current_stage: None,
                    summary: Some(
                        "Retrying "@ + task.current_stage + " (attempt "@ + decimal(
                            (retry_count + 2) as nat,
                        ) + ")"@,
                    ),
                },
            ]
            &&& of_kind(all, StepKind::NewStage).len() == 0
            &&& of_kind(all, StepKind::Subtask).len() == 0
            &&& of_kind(all, StepKind::Stop).len() == 0
            &&& of_kind(all, StepKind::StageOutcome).len() == 0
        }),
{
    broadcast use group_plans;

    lemma_last(records, task.current_stage, k);
    lemma_advice();
    lemma_keys();
    let all = recovery_steps(response, Some(task), Ok(records), retry_count);
    assert(of_kind(all, StepKind::Retry) =~= seq![StepView::RetryStage { id: records[k].id }]);
    assert(of_kind(all, StepKind::TaskChange) =~= seq![
        StepView::UpdateTask {
            task_id: task.id,
            status: Some("running"@),
            current_stage: None,
            summary: Some(
                "Retrying "@ + task.current_stage + " (attempt "@ + decimal(
                    (retry_count + 2) as nat,
                ) + ")"@,
            ),
        },
    ]);
}

/// A retry hands over the same artifact to the same agents as the hand-over that made
/// the record of the stage, and the input that the record then got.
pub proof fn law_a_retry_repeats_the_first_hand_over(
    report: ReportView,
    stages: Seq<PipelineView>,
    task: TaskView,
    retry_count: u32,
    request_id: Seq<char>,
    at: int,
    next: PipelineStage,
    response: RecoveryView,
    later: TaskView,
    records: Seq<PipelineView>,
    retried: u32,
    k: int,
)
    requires
        runs_first(stages, stage_name(report.stage), at),
        report.status == "completed"@,
        stage_index(next) == stage_index(report.stage) + 1,
        response.action == "retry"@,
        response.run_id == report.run_id,
        retried < 3,
        later.current_stage == stage_name(next),
        is_last(records, stage_name(next), k),
        ({
            let made = of_kind(
                result_steps(report, stages, Some(task), retry_count, request_id),
                StepKind::NewStage,
            )[0];
            &&& records[k].artifact_id == made->CreateStage_artifact_id
            &&& records[k].input_metadata == made->CreateStage_input_metadata
        }),
    ensures
        ({
            let first = event_of(
                of_kind(
                    result_steps(report, stages, Some(task), retry_count, request_id),
                    StepKind::Event,
                )[0],
            );
            let again = event_of(
                of_kind(
                    recovery_steps(response, Some(later), Ok(records), retried),
                    StepKind::Event,
                )[0],
            );
            &&& again.target == first.target
            &&& again.event == first.event
            &&& again.payload.get("run_id"@) == first.payload.get("run_id"@)
            &&& again.payload.get("stage"@) == first.payload.get("stage"@)
            &&& again.payload.get("artifact_id"@) == first.payload.get("artifact_id"@)
            &&& parsed_tree(compact_text(report.output)) == Ok::<JsonTree, Seq<char>>(
                report.output,
            ) ==> again.payload.get("metadata"@) == first.payload.get("metadata"@)
        }),
{
    law_completed_stages_hand_on(
        report,
        stages,
        Some(task),
        retry_count,
        request_id,
        at,
        next,
    );
    law_stage_table();
    lemma_stage_words();
    law_retries_hand_over_the_stored_input(response, later, records, retried, k);
    let first = event_of(
        of_kind(
            result_steps(report, stages, Some(task), retry_count, request_id),
            StepKind::Event,
        )[0],
    );
    let again = event_of(
        of_kind(recovery_steps(response, Some(later), Ok(records), retried), StepKind::Event)[0],
    );
    lemma_same_text(first.payload, again.payload, "run_id"@);
    lemma_same_text(first.payload, again.payload, "stage"@);
    lemma_same_text(first.payload, again.payload, "artifact_id"@);
}

proof fn lemma_same_text(a: JsonTree, b: JsonTree, key: Seq<char>)
    requires
        a.get_text(key) is Some,
        a.get_text(key) == b.get_text(key),
    ensures
        a.get(key) == b.get(key),
{
}

/// Whether a plan aborts the run of a task at its stage, and does nothing else but log
/// what was advised.
pub open spec fn aborts(all: Seq<StepView>, task: TaskView, reason: Seq<char>) -> bool {
    let logs = of_kind(all, StepKind::Log);
    &&& of_kind(all, StepKind::TaskChange) == seq![
        StepView::UpdateTask {
            task_id: task.id,
            status: Some("failed"@),
            current_stage: None,
            summary: Some("Aborted at "@ + task.current_stage + " \u{2014} "@ + reason),
        },
    ]
    &&& logs.len() == 2
    &&& entry_of(logs[1]).task_id == task.id
    &&& entry_of(logs[1]).level == "error"@
    &&& entry_of(logs[1]).message == "Pipeline aborted: "@ + reason
    &&& entry_of(logs[1]).stage == task.current_stage
    &&& of_kind(all, StepKind::TaskNews) == seq![StepView::ShareTask { task_id: task.id }]
    &&& all.len() == 4
}

/// A run is aborted where a stage was retried as often as allowed, where leaving out a
/// stage that may not be left out is advised, and where anything else than a retry, a
/// decomposition or leaving out is advised.
pub proof fn law_runs_are_aborted(
    response: RecoveryView,
    task: TaskView,
    stages: Result<Seq<PipelineView>, Seq<char>>,
    retry_count: u32,
)
    ensures
        ({
            let all = recovery_steps(response, Some(task), stages, retry_count);
            &&& response.action == "retry"@ && retry_count >= 3 ==> aborts(
                all,
                task,
                "Max retries exceeded"@,
            )
            &&& response.action == "skip"@ && task.current_stage != "evaluation"@
                && task.current_stage != "skill_manage"@ ==> aborts(
                all,
                task,
                "Skip not allowed for critical stage"@,
            )
            &&& response.action != "retry"@ && response.action != "decompose"@ && response.action
                != "skip"@ ==> aborts(all, task, response.reasoning)
        }),
{
    broadcast use group_plans;

    lemma_advice();
    let all = recovery_steps(response, Some(task), stages, retry_count);
    let reason = if response.action == "retry"@ {
        "Max retries exceeded"@
    } else if response.action == "skip"@ {
        "Skip not allowed for critical stage"@
    } else {
        response.reasoning
    };
    let change = StepView::UpdateTask {
        task_id: task.id,
        status: Some("failed"@),
        current_stage: None,
        summary: Some("Aborted at "@ + task.current_stage + " \u{2014} "@ + reason),
    };
    if (response.action == "retry"@ && retry_count >= 3) || (response.action == "skip"@
        && task.current_stage != "evaluation"@ && task.current_stage != "skill_manage"@) || (
    response.action != "retry"@ && response.action != "decompose"@ && response.action != "skip"@) {
        assert(of_kind(all, StepKind::TaskChange) =~= seq![change]);
        assert(of_kind(all, StepKind::TaskNews) =~= seq![StepView::ShareTask { task_id: task.id }]);
    }
}

/// Without a record of the stage a retry does nothing, and where the records could not
/// be read the error is passed on.
pub proof fn law_a_retry_needs_a_record(
    response: RecoveryView,
    task: TaskView,
    stages: Result<Seq<PipelineView>, Seq<char>>,
    retry_count: u32,
)
    requires
        response.action == "retry"@,
        retry_count < 3,
        stages matches Ok(records) ==> forall|j: int|
            0 <= j < records.len() ==> (#[trigger] records[j]).stage != task.current_stage,
    ensures
        ({
            let all = recovery_steps(response, Some(task), stages, retry_count);
            match stages {
                Ok(_) => all.len() == 1,
                Err(message) => all.len() == 2 && all[1] == (StepView::Stop { message }),
            }
        }),
{
    lemma_advice();
    match stages {
        Ok(records) => lemma_no_record(records, task.current_stage),
        Err(_) => {},
    }
}

/// On the advice to decompose the task is divided into the subtasks that the advice
/// gives, for the task and its run, and is marked; nothing is handed over.
pub proof fn law_advice_to_decompose_creates_the_subtasks(
    response: RecoveryView,
    task: TaskView,
    stages: Result<Seq<PipelineView>, Seq<char>>,
    retry_count: u32,
)
    requires
        response.action == "decompose"@,
    ensures
        ({
            let all = recovery_steps(response, Some(task), stages, retry_count);
            &&& divides_into(
                of_kind(all, StepKind::Subtask),
                match response.params.get_items("subtasks"@) {
                    Some(defs) => defs,
                    None => Seq::empty(),
                },
                task.id,
                response.run_id,
                "evaluation"@,
            )
            &&& of_kind(all, StepKind::TaskChange) == seq![
                StepView::UpdateTask {
                    task_id: task.id,
                    status: Some("decomposed"@),
                    current_stage: None,
                    summary: Some("Task decomposed into subtasks after failure"@),
                },
            ]
            &&& of_kind(all, StepKind::TaskNews) == seq![StepView::ShareTask { task_id: task.id }]
            &&& of_kind(all, StepKind::Event).len() == 0
            &&& of_kind(all, StepKind::NewStage).len() == 0
            &&& of_kind(all, StepKind::Retry).len() == 0
        }),
{
    broadcast use group_plans;

    lemma_advice();
    let defs = match response.params.get_items("subtasks"@) {
        Some(defs) => defs,
        None => Seq::empty(),
    };
    let made = created(defs, task.id, response.run_id, "evaluation"@);
    assert(Seq::<StepView>::empty() + made =~= made);
    let all = recovery_steps(response, Some(task), stages, retry_count);
    assert(of_kind(all, StepKind::TaskChange) =~= seq![
        StepView::UpdateTask {
            task_id: task.id,
            status: Some("decomposed"@),
            current_stage: None,
            summary: Some("Task decomposed into subtasks after failure"@),
        },
    ]);
    assert(of_kind(all, StepKind::TaskNews) =~= seq![StepView::ShareTask { task_id: task.id }]);
}

/// Where the evaluation is left out the run moves on to the last stage, without input,
/// and where the last stage is left out the run is complete. Either is logged.
pub proof fn law_late_stages_are_left_out(
    response: RecoveryView,
    task: TaskView,
    stages: Result<Seq<PipelineView>, Seq<char>>,
    retry_count: u32,
)
    requires
        response.action == "skip"@,
        task.current_stage == "evaluation"@ || task.current_stage == "skill_manage"@,
    ensures
        ({
            let all = recovery_steps(response, Some(task), stages, retry_count);
            let logs = of_kind(all, StepKind::Log);
            let sent = of_kind(all, StepKind::Event);
            let records = of_kind(all, StepKind::NewStage);
            let changes = of_kind(all, StepKind::TaskChange);
            &&& logs.len() == 2
            &&& entry_of(logs[1]).task_id == task.id
            &&& entry_of(logs[1]).level == "warn"@
            &&& entry_of(logs[1]).message == "Stage "@ + task.current_stage
                + " skipped after failure"@
            &&& entry_of(logs[1]).detail == response.reasoning
            &&& entry_of(logs[1]).stage == task.current_stage
            &&& changes.len() == 1
            &&& changes[0]->UpdateTask_task_id == task.id
            &&& if task.current_stage == "evaluation"@ {
                &&& records.len() == 1
                &&& records[0]->CreateStage_run_id == response.run_id
                &&& records[0]->CreateStage_stage == "skill_manage"@
                &&& records[0]->CreateStage_artifact_id == ""@
                &&& records[0]->CreateStage_input_metadata == compact_text(response.params)
                &&& sent.len() == 1
                &&& hands(
                    event_of(sent[0]),
                    response.run_id,
                    "skill_manage"@,
                    ""@,
                    JsonTree::empty(),
                )
                &&& changes[0]->UpdateTask_status == Some("running"@)
                &&& changes[0]->UpdateTask_current_stage == Some("skill_manage"@)
                &&& changes[0]->UpdateTask_summary == Some(
                    "skill_manage"@ + " \u{2014} "@ + "Managing activation"@,
                )
            } else {
                &&& records.len() == 0
                &&& sent.len() == 0
                &&& changes[0]->UpdateTask_status == Some("completed"@)
                &&& changes[0]->UpdateTask_current_stage is None
                &&& changes[0]->UpdateTask_summary == Some(
                    "Pipeline completed (with skipped stage)"@,
                )
            }
        }),
{
    broadcast use group_plans;

    lemma_advice();
    lemma_stage_words();
    lemma_keys();
}

/// An answer to a request that does not wait has no effect, and one to a request that
/// waits has its whole effect.
pub proof fn law_only_awaited_answers_count(
    pending: Map<Seq<char>, PendingView>,
    request_id: Seq<char>,
    items: Seq<StepView>,
)
    ensures
        pending.dom().contains(request_id) ==> answered_steps(pending, request_id, items) == items,
        !pending.dom().contains(request_id) ==> answered_steps(pending, request_id, items).len()
            == 0,
{
}

// Stages that have timed out.

/// A stage that has timed out is marked so and keeps its agent; the task of its run has
/// failed, which is told and logged. Nothing is handed over.
pub proof fn law_timed_out_stages_fail_their_task(stage: PipelineView, task: Option<TaskView>)
    ensures
        ({
            let all = timeout_steps(stage, task);
            let changes = of_kind(all, StepKind::TaskChange);
            let logs = of_kind(all, StepKind::Log);
            &&& all[0] is UpdateStage
            &&& all[0]->UpdateStage_id == stage.id
            &&& all[0]->UpdateStage_status == "timed_out"@
            &&& all[0]->UpdateStage_agent_id == stage.agent_id
            &&& all[0]->UpdateStage_result is None
            &&& all[0]->UpdateStage_error == Some("stage timed out"@)
            &&& match task {
                Some(t) => {
                    &&& all.len() == 5
                    &&& changes.len() == 1
                    &&& changes[0] == (StepView::UpdateTask {
                        task_id: t.id,
                        status: Some("failed"@),
                        current_stage: None,
                        summary: Some("Timed out at "@ + stage.stage),
                    })
                    &&& logs.len() == 1
                    &&& entry_of(logs[0]).task_id == t.id
                    &&& entry_of(logs[0]).level == "warn"@
                    &&& entry_of(logs[0]).message == "Stage "@ + stage.stage + " timed out after "@
                        + decimal(300) + "s"@
                    &&& entry_of(logs[0]).agent_id == stage.agent_id
                    &&& entry_of(logs[0]).stage == stage.stage
                    &&& of_kind(all, StepKind::TaskNews).len() == 1
                    &&& of_kind(all, StepKind::TaskNews)[0]->ShareTask_task_id == t.id
                    &&& of_kind(all, StepKind::Announcement).len() == 1
                    &&& of_kind(all, StepKind::Announcement)[0]->AnnounceLog_task_id == t.id
                },
                None => all.len() == 1,
            }
        }),
{
    broadcast use group_plans;
}

// Starting a run.

/// A run starts with the record of its first stage and its task, in this order, and the
/// rest is given up where one of them cannot be stored. Then the start is logged, the
/// kernel agents are invited, and the agents that learn are handed the first stage with
/// what triggered the run.
#[verifier::rlimit(40)]
pub proof fn law_runs_start_with_learning(stage: PipelineView, task: TaskView, trigger: JsonTree)
    ensures
        ({
            let all = start_steps(stage, task, trigger);
            let stored = of_kind(all, StepKind::Statement);
            let sent = of_kind(all, StepKind::Event);
            let logs = of_kind(all, StepKind::Log);
            let invite = event_of(sent[1]);
            &&& stored.len() == 2
            &&& all[0] == stored[0] && all[1] == stored[1]
            &&& stored[0]->Execute_statement == create_pipeline_stage_statement(stage)
            &&& stored[1]->Execute_statement == create_task_statement(task)
            &&& logs.len() == 1
            &&& entry_of(logs[0]).task_id == task.id
            &&& entry_of(logs[0]).level == "info"@
            &&& entry_of(logs[0]).message == "Pipeline started"@
            &&& entry_of(logs[0]).stage == "learning"@
            &&& sent.len() == 4
            &&& event_of(sent[0]).target == TargetView::Room("dashboard"@)
            &&& event_of(sent[0]).event == "task:changed"@
            &&& invite.target == TargetView::Room("kernel"@)
            &&& invite.event == "task:invite"@
            &&& invite.payload.get_text("task_id"@) == Some(task.id)
            &&& invite.payload.get_text("task_type"@) == Some("pipeline"@)
            &&& invite.payload.get("payload"@) is Some
            &&& invite.payload.get("payload"@)->0.get_text("run_id"@) == Some(stage.run_id)
            &&& invite.payload.get("payload"@)->0.get_text("stage"@) == Some("learning"@)
            &&& invite.payload.get("payload"@)->0.get("trigger"@) == Some(trigger)
            &&& hands(event_of(sent[2]), stage.run_id, "learning"@, ""@, trigger)
            &&& retells(event_of(sent[3]), event_of(sent[2]))
        }),
{
    broadcast use group_plans;

    lemma_keys();
}

// The order of a plan.

/// What each step of a plan is about, in the order of the steps.
pub open spec fn kinds(items: Seq<StepView>) -> Seq<StepKind> {
    items.map_values(|item: StepView| kind_of(item))
}

/// Steps that each create a subtask.
pub open spec fn subtask_kinds(count: nat) -> Seq<StepKind> {
    Seq::new(count, |i: int| StepKind::Subtask)
}

broadcast proof fn lemma_kinds_push(items: Seq<StepView>, item: StepView)
    ensures
        #[trigger] kinds(items.push(item)) == kinds(items).push(kind_of(item)),
{
    assert(kinds(items.push(item)) =~= kinds(items).push(kind_of(item)));
}

broadcast proof fn lemma_kinds_empty()
    ensures
        #[trigger] kinds(Seq::<StepView>::empty()) == Seq::<StepKind>::empty(),
{
    assert(kinds(Seq::<StepView>::empty()) =~= Seq::<StepKind>::empty());
}

broadcast proof fn lemma_kinds_subtasks(
    base: Seq<StepView>,
    defs: Seq<JsonTree>,
    parent_id: Seq<char>,
    run_id: Seq<char>,
    agent_id: Seq<char>,
)
    ensures
        kinds(#[trigger] with_subtasks(base, defs, parent_id, run_id, agent_id)) == kinds(base)
            + subtask_kinds(defs.len()),
    decreases defs.len(),
{
    if defs.len() > 0 {
        let rest = defs.drop_last();
        lemma_kinds_subtasks(base, rest, parent_id, run_id, agent_id);
        lemma_kinds_push(
            with_subtasks(base, rest, parent_id, run_id, agent_id),
            StepView::CreateSubtask {
                subtask: subtask_of(defs.last(), defs.len() - 1, parent_id, run_id, agent_id),
            },
        );
    }
    assert(kinds(with_subtasks(base, defs, parent_id, run_id, agent_id)) =~= kinds(base)
        + subtask_kinds(defs.len()));
}

broadcast group group_kinds {
    lemma_kinds_push,
    lemma_kinds_empty,
    lemma_kinds_subtasks,
}

/// A completed stage is recorded and remembered before anything is told of it. The next
/// stage is stored before the task moves on to it, and only then is it handed over.
pub proof fn law_completed_stages_move_on_in_order(
    report: ReportView,
    stages: Seq<PipelineView>,
    task: Option<TaskView>,
    retry_count: u32,
    request_id: Seq<char>,
    k: int,
)
    requires
        runs_first(stages, stage_name(report.stage), k),
        report.status == "completed"@,
        report.stage != PipelineStage::SkillManage,
    ensures
        ({
            let order = kinds(result_steps(report, stages, task, retry_count, request_id));
            let known = seq![
                StepKind::StageOutcome,
                StepKind::Memory,
                StepKind::Log,
                StepKind::Announcement,
            ];
            let moved = seq![
                StepKind::NewStage,
                StepKind::TaskChange,
                StepKind::Log,
                StepKind::TaskNews,
                StepKind::Announcement,
                StepKind::Event,
                StepKind::Event,
            ];
            &&& task is None ==> order == seq![
                StepKind::StageOutcome,
                StepKind::Memory,
                StepKind::NewStage,
                StepKind::Event,
                StepKind::Event,
            ]
            &&& task is Some && report.stage != PipelineStage::Evaluation ==> order == known + moved
            &&& task is Some && report.stage == PipelineStage::Evaluation
                ==> match report.output.get_items(
                "subtasks"@,
            ) {
                Some(defs) => order == known + subtask_kinds(defs.len()) + moved,
                None => order == known + moved,
            }
        }),
{
    broadcast use group_kinds;

    lemma_running(stages, stage_name(report.stage), k);
    lemma_words();
}

/// The last stage is recorded and remembered before its run is completed, and an update is
/// started last of all.
pub proof fn law_runs_are_completed_in_order(
    report: ReportView,
    stages: Seq<PipelineView>,
    task: Option<TaskView>,
    retry_count: u32,
    request_id: Seq<char>,
    k: int,
)
    requires
        runs_first(stages, stage_name(report.stage), k),
        report.status == "completed"@,
        report.stage == PipelineStage::SkillManage,
    ensures
        ({
            let order = kinds(result_steps(report, stages, task, retry_count, request_id));
            let upgrades = report.output.get_text("build_type"@) == Some("self_upgrade"@)
                && report.output.get_text("action"@) == Some("activated"@);
            let ended = match task {
                Some(_) => seq![
                    StepKind::StageOutcome,
                    StepKind::Memory,
                    StepKind::Log,
                    StepKind::Announcement,
                    StepKind::TaskChange,
                    StepKind::Log,
                    StepKind::TaskNews,
                    StepKind::Announcement,
                ],
                None => seq![StepKind::StageOutcome, StepKind::Memory],
            };
            order == (if upgrades {
                ended.push(StepKind::Update)
            } else {
                ended
            })
        }),
{
    broadcast use group_kinds;

    lemma_running(stages, stage_name(report.stage), k);
    lemma_words();
}

/// A failed stage is recorded, remembered and logged, and the task is said to recover,
/// before recovery is asked for.
pub proof fn law_failures_are_told_in_order(
    report: ReportView,
    stages: Seq<PipelineView>,
    task: Option<TaskView>,
    retry_count: u32,
    request_id: Seq<char>,
    k: int,
)
    requires
        runs_first(stages, stage_name(report.stage), k),
        report.status == "failed"@,
    ensures
        kinds(result_steps(report, stages, task, retry_count, request_id)) == match task {
            Some(_) => seq![
                StepKind::StageOutcome,
                StepKind::Memory,
                StepKind::Log,
                StepKind::Announcement,
                StepKind::TaskChange,
                StepKind::TaskNews,
                StepKind::Recovery,
            ],
            None => seq![StepKind::StageOutcome, StepKind::Memory, StepKind::Recovery],
        },
{
    broadcast use group_kinds;

    lemma_running(stages, stage_name(report.stage), k);
    lemma_words();
}

/// The first stage and the task of a run are stored before the start is logged and told,
/// and the stage is handed over last.
pub proof fn law_runs_start_in_order(stage: PipelineView, task: TaskView, trigger: JsonTree)
    ensures
        kinds(start_steps(stage, task, trigger)) == seq![
            StepKind::Statement,
            StepKind::Statement,
            StepKind::Log,
            StepKind::Event,
            StepKind::Announcement,
            StepKind::Event,
            StepKind::Event,
            StepKind::Event,
        ],
{
    broadcast use group_kinds;

}

/// What is advised is logged first. A stage is set running again before the task is said
/// to be, and only then is it handed over; the stage after one that is left out is stored
/// before it is handed over; subtasks are created before the task is said to be divided.
pub proof fn law_advice_is_followed_in_order(
    response: RecoveryView,
    task: TaskView,
    stages: Result<Seq<PipelineView>, Seq<char>>,
    retry_count: u32,
)
    ensures
        ({
            let order = kinds(recovery_steps(response, Some(task), stages, retry_count));
            let aborted = seq![
                StepKind::Log,
                StepKind::TaskChange,
                StepKind::Log,
                StepKind::TaskNews,
            ];
            &&& response.action == "retry"@ ==> {
                ||| order == aborted
                ||| order == seq![StepKind::Log, StepKind::Stop]
                ||| order == seq![StepKind::Log]
                ||| order == seq![
                    StepKind::Log,
                    StepKind::Retry,
                    StepKind::TaskChange,
                    StepKind::TaskNews,
                ]
                ||| order == seq![
                    StepKind::Log,
                    StepKind::Retry,
                    StepKind::TaskChange,
                    StepKind::TaskNews,
                    StepKind::Event,
                ]
            }
            &&& response.action == "decompose"@ ==> match response.params.get_items("subtasks"@) {
                Some(defs) => order == seq![StepKind::Log] + subtask_kinds(defs.len()) + seq![
                    StepKind::TaskChange,
                    StepKind::TaskNews,
                ],
                None => order == seq![StepKind::Log, StepKind::TaskChange, StepKind::TaskNews],
            }
            &&& response.action == "skip"@ && task.current_stage == "evaluation"@ ==> order == seq![
                StepKind::Log,
                StepKind::Log,
                StepKind::NewStage,
                StepKind::TaskChange,
                StepKind::TaskNews,
                StepKind::Event,
            ]
            &&& response.action == "skip"@ && task.current_stage == "skill_manage"@ ==> order
                == seq![StepKind::Log, StepKind::Log, StepKind::TaskChange, StepKind::TaskNews]
            &&& response.action == "skip"@ && task.current_stage != "evaluation"@
                && task.current_stage != "skill_manage"@ ==> order == aborted
            &&& response.action != "retry"@ && response.action != "decompose"@ && response.action
                != "skip"@ ==> order == aborted
        }),
{
    broadcast use group_kinds;

    lemma_advice();
    lemma_stage_words();
    reveal_strlit("evaluation");
    reveal_strlit("skill_manage");
    assert(stage_named("evaluation"@) == Some(PipelineStage::Evaluation));
    assert(stage_named("skill_manage"@) == Some(PipelineStage::SkillManage));
}

/// A stage that timed out is recorded before its task fails, and the failure is logged
/// before it is told. Subtasks are created before their task is said to be divided.
pub proof fn law_other_plans_come_in_order(
    stage: PipelineView,
    task: TaskView,
    subtasks: Seq<JsonTree>,
    reasoning: Seq<char>,
)
    ensures
        kinds(timeout_steps(stage, Some(task))) == seq![
            StepKind::StageOutcome,
            StepKind::TaskChange,
            StepKind::Log,
            StepKind::TaskNews,
            StepKind::Announcement,
        ],
        kinds(timeout_steps(stage, None)) == seq![StepKind::StageOutcome],
        subtasks.len() > 0 ==> kinds(decomposition_steps(true, subtasks, reasoning, Some(task)))
            == subtask_kinds(subtasks.len()) + seq![
            StepKind::TaskChange,
            StepKind::TaskNews,
            StepKind::Log,
        ],
        decomposition_steps(false, subtasks, reasoning, Some(task)).len() == 0,
        decomposition_steps(true, subtasks, reasoning, None).len() == 0,
{
    broadcast use group_kinds;

}

// The task of a plan.

/// Whether a step that changes a task, logs something for one or tells of one is about a
/// task.
pub open spec fn concerns(step: StepView, task: Option<TaskView>) -> bool {
    match step {
        StepView::RecordLog { entry } => task matches Some(t) && entry.task_id == t.id,
        StepView::AnnounceLog { task_id } => task matches Some(t) && task_id == t.id,
        StepView::UpdateTask { task_id, .. } => task matches Some(t) && task_id == t.id,
        StepView::ShareTask { task_id } => task matches Some(t) && task_id == t.id,
        _ => true,
    }
}

/// Whether each step of a plan that is about a task is about the given one.
pub open spec fn all_concern(items: Seq<StepView>, task: Option<TaskView>) -> bool {
    forall|i: int| 0 <= i < items.len() ==> concerns(#[trigger] items[i], task)
}

broadcast proof fn lemma_all_concern_push(
    items: Seq<StepView>,
    item: StepView,
    task: Option<TaskView>,
)
    ensures
        #[trigger] all_concern(items.push(item), task) <==> all_concern(items, task) && concerns(
            item,
            task,
        ),
{
    let more = items.push(item);
    assert(more[items.len() as int] == item);
    if all_concern(more, task) {
        assert forall|i: int| 0 <= i < items.len() implies concerns(#[trigger] items[i], task) by {
            assert(more[i] == items[i]);
        }
    }
}

broadcast proof fn lemma_all_concern_subtasks(
    base: Seq<StepView>,
    defs: Seq<JsonTree>,
    parent_id: Seq<char>,
    run_id: Seq<char>,
    agent_id: Seq<char>,
    task: Option<TaskView>,
)
    ensures
        #[trigger] all_concern(
            with_subtasks(base, defs, parent_id, run_id, agent_id),
            task,
        ) <==> all_concern(base, task),
    decreases defs.len(),
{
    if defs.len() > 0 {
        let rest = defs.drop_last();
        lemma_all_concern_subtasks(base, rest, parent_id, run_id, agent_id, task);
        lemma_all_concern_push(
            with_subtasks(base, rest, parent_id, run_id, agent_id),
            StepView::CreateSubtask {
                subtask: subtask_of(defs.last(), defs.len() - 1, parent_id, run_id, agent_id),
            },
            task,
        );
    }
}

broadcast group group_concerns {
    lemma_all_concern_push,
    lemma_all_concern_subtasks,
}

/// All that a plan changes, logs and tells of a task is about the task of its run; without
/// a task it does none of these.
pub proof fn law_plans_are_about_their_task(
    report: ReportView,
    response: RecoveryView,
    task: Option<TaskView>,
    stages: Seq<PipelineView>,
    read: Result<Seq<PipelineView>, Seq<char>>,
    stage: PipelineView,
    retry_count: u32,
    text: Seq<char>,
    subtasks: Seq<JsonTree>,
)
    ensures
        all_concern(result_steps(report, stages, task, retry_count, text), task),
        all_concern(recovery_steps(response, task, read, retry_count), task),
        all_concern(timeout_steps(stage, task), task),
        all_concern(decomposition_steps(true, subtasks, text, task), task),
        task matches Some(t) ==> all_concern(start_steps(stage, t, report.output), task),
{
    broadcast use group_concerns;

}

} // verus!
