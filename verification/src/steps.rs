//! Steps that the king takes on behalf of a task: what is stored, who is told.
//!
//! A list of steps is taken in order. A step that fails is passed over, except
//! where its documentation says that the rest is given up.

use crate::events::{
    Emission, EmissionView, ROOM_DASHBOARD, TASK_CHANGED, TASK_LOG, room_event, task_room,
    task_room_name, to_room,
};
use crate::json::{Fields, JsonTree, copy};
use crate::memory_db::{MemoryRow, create_memory, create_memory_statement, is_new_memory};
use crate::sql::Statement;
use crate::task_db::{
    TaskLogRow, TaskLogView, TaskRow, TaskView, create_task, create_task_log,
    create_task_log_statement, create_task_statement, is_new_log, is_new_task,
};
use crate::text::{concat2, copied, opt_str, opt_text, owned};
use vstd::prelude::*;

verus! {

/// An entry for the log of a task.
pub struct LogEntry {
    pub task_id: String,
    pub level: String,
    pub message: String,
    pub detail: String,
    pub agent_id: String,
    pub stage: String,
}

/// What a [`LogEntry`] holds.
pub struct LogView {
    pub task_id: Seq<char>,
    pub level: Seq<char>,
    pub message: Seq<char>,
    pub detail: Seq<char>,
    pub agent_id: Seq<char>,
    pub stage: Seq<char>,
}

impl View for LogEntry {
    type V = LogView;

    open spec fn view(&self) -> LogView {
        LogView {
            task_id: self.task_id@,
            level: self.level@,
            message: self.message@,
            detail: self.detail@,
            agent_id: self.agent_id@,
            stage: self.stage@,
        }
    }
}

/// What is remembered of a stage of a pipeline run.
pub struct StageMemory {
    pub category: String,
    pub key: String,
    pub agent_id: String,
    pub run_id: String,
    pub l0: String,
    pub l1: String,
    pub l2: String,
    pub task_id: Option<String>,
}

/// What a [`StageMemory`] holds.
pub struct StageMemoryView {
    pub category: Seq<char>,
    pub key: Seq<char>,
    pub agent_id: Seq<char>,
    pub run_id: Seq<char>,
    pub l0: Seq<char>,
    pub l1: Seq<char>,
    pub l2: Seq<char>,
    pub task_id: Option<Seq<char>>,
}

impl View for StageMemory {
    type V = StageMemoryView;

    open spec fn view(&self) -> StageMemoryView {
        StageMemoryView {
            category: self.category@,
            key: self.key@,
            agent_id: self.agent_id@,
            run_id: self.run_id@,
            l0: self.l0@,
            l1: self.l1@,
            l2: self.l2@,
            task_id: opt_text(self.task_id),
        }
    }
}

/// A subtask to create.
pub struct Subtask {
    pub task_type: String,
    pub payload: String,
    pub run_id: String,
    pub summary: String,
    pub parent_id: String,
    pub agent_id: String,
}

/// What a [`Subtask`] holds.
pub struct SubtaskView {
    pub task_type: Seq<char>,
    pub payload: Seq<char>,
    pub run_id: Seq<char>,
    pub summary: Seq<char>,
    pub parent_id: Seq<char>,
    pub agent_id: Seq<char>,
}

impl View for Subtask {
    type V = SubtaskView;

    open spec fn view(&self) -> SubtaskView {
        SubtaskView {
            task_type: self.task_type@,
            payload: self.payload@,
            run_id: self.run_id@,
            summary: self.summary@,
            parent_id: self.parent_id@,
            agent_id: self.agent_id@,
        }
    }
}

/// A step.
#[allow(inconsistent_fields)]
pub enum Step {
    /// Store a statement. Where it fails the rest is given up, with the context as
    /// the error.
    Execute { statement: Statement, context: String },
    /// Store an entry in the log of a task.
    RecordLog { entry: LogEntry },
    /// Tell of the entry that was recorded last, where it was stored.
    AnnounceLog { task_id: String },
    /// Set columns of a task.
    UpdateTask {
        task_id: String,
        status: Option<String>,
        current_stage: Option<String>,
        summary: Option<String>,
    },
    /// Read a task and tell of it, where it is there.
    ShareTask { task_id: String },
    /// Set the outcome of a stage. With a context the rest is given up where this
    /// fails.
    UpdateStage {
        id: String,
        status: String,
        agent_id: String,
        result: Option<String>,
        error: Option<String>,
        context: Option<String>,
    },
    /// Create the record of a stage. Where it fails the rest is given up.
    CreateStage {
        run_id: String,
        stage: String,
        artifact_id: String,
        input_metadata: String,
        context: String,
    },
    /// Set a stage running once more. Where it fails the rest is given up.
    RetryStage { id: String },
    /// Store a memory of a stage, then its tiers and its binding to a task.
    StoreMemory { memory: StageMemory },
    /// Create a subtask.
    CreateSubtask { subtask: Subtask },
    /// Send an event.
    Send { emission: Emission },
    /// Send a request for recovery. Where it fails the request is forgotten and
    /// the run is aborted.
    AskForRecovery {
        request_id: String,
        emission: Emission,
        task_id: Option<String>,
        stage: String,
        reason: String,
    },
    /// Install a new version of a component.
    StartUpdate { component: String, new_version: String, run_id: String },
    /// Give up the rest with an error.
    Stop { message: String },
}

/// What a [`Step`] holds.
#[allow(inconsistent_fields)]
pub enum StepView {
    Execute { statement: crate::sql::StatementView, context: Seq<char> },
    RecordLog { entry: LogView },
    AnnounceLog { task_id: Seq<char> },
    UpdateTask {
        task_id: Seq<char>,
        status: Option<Seq<char>>,
        current_stage: Option<Seq<char>>,
        summary: Option<Seq<char>>,
    },
    ShareTask { task_id: Seq<char> },
    UpdateStage {
        id: Seq<char>,
        status: Seq<char>,
        agent_id: Seq<char>,
        result: Option<Seq<char>>,
        error: Option<Seq<char>>,
        context: Option<Seq<char>>,
    },
    CreateStage {
        run_id: Seq<char>,
        stage: Seq<char>,
        artifact_id: Seq<char>,
        input_metadata: Seq<char>,
        context: Seq<char>,
    },
    RetryStage { id: Seq<char> },
    StoreMemory { memory: StageMemoryView },
    CreateSubtask { subtask: SubtaskView },
    Send { emission: EmissionView },
    AskForRecovery {
        request_id: Seq<char>,
        emission: EmissionView,
        task_id: Option<Seq<char>>,
        stage: Seq<char>,
        reason: Seq<char>,
    },
    StartUpdate { component: Seq<char>, new_version: Seq<char>, run_id: Seq<char> },
    Stop { message: Seq<char> },
}

impl View for Step {
    type V = StepView;

    open spec fn view(&self) -> StepView {
        match self {
            Step::Execute { statement, context } => StepView::Execute {
                statement: statement@,
                context: context@,
            },
            Step::RecordLog { entry } => StepView::RecordLog { entry: entry@ },
            Step::AnnounceLog { task_id } => StepView::AnnounceLog { task_id: task_id@ },
            Step::UpdateTask { task_id, status, current_stage, summary } => StepView::UpdateTask {
                task_id: task_id@,
                status: opt_text(*status),
                current_stage: opt_text(*current_stage),
                summary: opt_text(*summary),
            },
            Step::ShareTask { task_id } => StepView::ShareTask { task_id: task_id@ },
            Step::UpdateStage { id, status, agent_id, result, error, context } => StepView::UpdateStage {
                id: id@,
                status: status@,
                agent_id: agent_id@,
                result: opt_text(*result),
                error: opt_text(*error),
                context: opt_text(*context),
            },
            Step::CreateStage {
                run_id,
                stage,
                artifact_id,
                input_metadata,
                context,
            } => StepView::CreateStage {
                run_id: run_id@,
                stage: stage@,
                artifact_id: artifact_id@,
                input_metadata: input_metadata@,
                context: context@,
            },
            Step::RetryStage { id } => StepView::RetryStage { id: id@ },
            Step::StoreMemory { memory } => StepView::StoreMemory { memory: memory@ },
            Step::CreateSubtask { subtask } => StepView::CreateSubtask { subtask: subtask@ },
            Step::Send { emission } => StepView::Send { emission: emission@ },
            Step::AskForRecovery {
                request_id,
                emission,
                task_id,
                stage,
                reason,
            } => StepView::AskForRecovery {
                request_id: request_id@,
                emission: emission@,
                task_id: opt_text(*task_id),
                stage: stage@,
                reason: reason@,
            },
            Step::StartUpdate { component, new_version, run_id } => StepView::StartUpdate {
                component: component@,
                new_version: new_version@,
                run_id: run_id@,
            },
            Step::Stop { message } => StepView::Stop { message: message@ },
        }
    }
}

/// What each of a list of steps holds.
pub open spec fn steps(items: Seq<Step>) -> Seq<StepView> {
    items.map_values(|item: Step| item@)
}

/// Puts a step at the end of a list.
pub fn put(items: &mut Vec<Step>, item: Step)
    ensures
        steps(final(items)@) == steps(old(items)@).push(item@),
{
    let ghost before = steps(items@);
    items.push(item);
    assert(steps(items@) =~= before.push(item@));
}

/// A list without steps.
pub fn no_steps() -> (r: Vec<Step>)
    ensures
        steps(r@) == Seq::<StepView>::empty(),
{
    let r: Vec<Step> = Vec::new();
    assert(steps(r@) =~= Seq::<StepView>::empty());
    r
}

/// The step that records an entry in the log of a task.
pub open spec fn log_step(
    task_id: Seq<char>,
    level: Seq<char>,
    message: Seq<char>,
    detail: Seq<char>,
    agent_id: Seq<char>,
    stage: Seq<char>,
) -> StepView {
    StepView::RecordLog { entry: LogView { task_id, level, message, detail, agent_id, stage } }
}

/// Puts a step that records an entry in the log of a task.
pub fn put_log(
    items: &mut Vec<Step>,
    task_id: &str,
    level: &str,
    message: &str,
    detail: &str,
    agent_id: &str,
    stage: &str,
)
    ensures
        steps(final(items)@) == steps(old(items)@).push(
            log_step(task_id@, level@, message@, detail@, agent_id@, stage@),
        ),
{
    put(
        items,
        Step::RecordLog {
            entry: LogEntry {
                task_id: task_id.to_string(),
                level: level.to_string(),
                message: message.to_string(),
                detail: detail.to_string(),
                agent_id: agent_id.to_string(),
                stage: stage.to_string(),
            },
        },
    );
}

/// Puts a step that tells of the entry that was recorded last.
pub fn put_announce(items: &mut Vec<Step>, task_id: &str)
    ensures
        steps(final(items)@) == steps(old(items)@).push(
            (StepView::AnnounceLog { task_id: task_id@ }),
        ),
{
    put(items, Step::AnnounceLog { task_id: task_id.to_string() });
}

/// Puts a step that sets columns of a task.
pub fn put_update(
    items: &mut Vec<Step>,
    task_id: &str,
    status: Option<&str>,
    current_stage: Option<&str>,
    summary: Option<&str>,
)
    ensures
        steps(final(items)@) == steps(old(items)@).push(
            (StepView::UpdateTask {
                task_id: task_id@,
                status: opt_str(status),
                current_stage: opt_str(current_stage),
                summary: opt_str(summary),
            }),
        ),
{
    put(
        items,
        Step::UpdateTask {
            task_id: task_id.to_string(),
            status: owned(status),
            current_stage: owned(current_stage),
            summary: owned(summary),
        },
    );
}

/// Puts a step that reads a task and tells of it.
pub fn put_share(items: &mut Vec<Step>, task_id: &str)
    ensures
        steps(final(items)@) == steps(old(items)@).push((StepView::ShareTask { task_id: task_id@ })),
{
    put(items, Step::ShareTask { task_id: task_id.to_string() });
}

/// Puts a step that sends an event.
pub fn put_send(items: &mut Vec<Step>, emission: Emission)
    ensures
        steps(final(items)@) == steps(old(items)@).push((StepView::Send { emission: emission@ })),
{
    put(items, Step::Send { emission });
}

// What is told of tasks and their logs.

/// What is told of a task.
pub open spec fn task_news(task: TaskView) -> JsonTree {
    JsonTree::empty().text("action"@, "updated"@).with(
        "task"@,
        JsonTree::empty().text("id"@, task.id).text("task_type"@, task.task_type).text(
            "status"@,
            task.status,
        ).text("agent_id"@, task.agent_id).text("run_id"@, task.run_id).text(
            "current_stage"@,
            task.current_stage,
        ).text("summary"@, task.summary).text("parent_id"@, task.parent_id).text(
            "payload"@,
            task.payload,
        ).text("created_at"@, task.created_at).text("updated_at"@, task.updated_at),
    )
}

/// Tells the dashboard of a task.
pub fn announce_task(task: &TaskRow) -> (r: Emission)
    ensures
        r@ == room_event(ROOM_DASHBOARD@, TASK_CHANGED@, task_news(task@)),
{
    let body = Fields::new().text("id", task.id.as_str()).text(
        "task_type",
        task.task_type.as_str(),
    ).text("status", task.status.as_str()).text("agent_id", task.agent_id.as_str()).text(
        "run_id",
        task.run_id.as_str(),
    ).text("current_stage", task.current_stage.as_str()).text(
        "summary",
        task.summary.as_str(),
    ).text("parent_id", task.parent_id.as_str()).text("payload", task.payload.as_str()).text(
        "created_at",
        task.created_at.as_str(),
    ).text("updated_at", task.updated_at.as_str()).done();
    let payload = Fields::new().text("action", "updated").with("task", body).done();
    to_room(ROOM_DASHBOARD, TASK_CHANGED, payload)
}

/// What is told of a log entry of a task.
pub open spec fn log_news(task_id: Seq<char>, log: TaskLogView) -> JsonTree {
    JsonTree::empty().text("task_id"@, task_id).with(
        "log"@,
        JsonTree::empty().text("id"@, log.id).text("level"@, log.level).text(
            "message"@,
            log.message,
        ).text("detail"@, log.detail).text("agent_id"@, log.agent_id).text(
            "stage"@,
            log.stage,
        ).text("created_at"@, log.created_at),
    )
}

/// Tells the dashboard and the room of a task of a log entry.
pub fn announce_log(task_id: &str, log: &TaskLogRow) -> (r: (Emission, Emission))
    ensures
        r.0@ == room_event(ROOM_DASHBOARD@, TASK_LOG@, log_news(task_id@, log@)),
        r.1@ == room_event(task_room_name(task_id@), TASK_LOG@, log_news(task_id@, log@)),
{
    let body = Fields::new().text("id", log.id.as_str()).text("level", log.level.as_str()).text(
        "message",
        log.message.as_str(),
    ).text("detail", log.detail.as_str()).text("agent_id", log.agent_id.as_str()).text(
        "stage",
        log.stage.as_str(),
    ).text("created_at", log.created_at.as_str()).done();
    let payload = Fields::new().text("task_id", task_id).with("log", body).done();
    let room = task_room(task_id);
    (
        to_room(ROOM_DASHBOARD, TASK_LOG, copy(&payload)),
        to_room(room.as_str(), TASK_LOG, payload),
    )
}

// Taking a step that creates a subtask.

/// What storing the memory of a stage takes: the memory with the statement that stores
/// it, and then its tiers by name and the task that it is bound to.
pub struct StageMemoryWork {
    pub store: Statement,
    pub memory: MemoryRow,
    pub tiers: Vec<(&'static str, String)>,
    pub task_id: Option<String>,
}

/// The names and contents of a list of tiers.
pub open spec fn named_tiers(items: Seq<(&str, String)>) -> Seq<(Seq<char>, Seq<char>)> {
    items.map_values(|item: (&str, String)| (item.0@, item.1@))
}

/// Stores the memory of a stage: it belongs to the pipeline, is of middling relevance,
/// and has its raw, its processed and its summary tier.
pub fn remember_stage(memory: &StageMemory) -> (r: StageMemoryWork)
    ensures
        is_new_memory(
            r.memory@,
            "pipeline"@,
            memory@.category,
            memory@.key,
            "{}"@,
            ""@,
            memory@.agent_id,
            memory@.run_id,
            ""@,
            "0.5"@,
        ),
        r.store@ == create_memory_statement(r.memory@),
        named_tiers(r.tiers@) == seq![
            ("l0"@, memory@.l0),
            ("l1"@, memory@.l1),
            ("l2"@, memory@.l2),
        ],
        opt_text(r.task_id) == memory@.task_id,
{
    let (store, row) = create_memory(
        "pipeline",
        memory.category.as_str(),
        memory.key.as_str(),
        "{}",
        "",
        memory.agent_id.as_str(),
        memory.run_id.as_str(),
        "",
        "0.5",
    );
    let tiers: Vec<(&'static str, String)> = vec![
        ("l0", memory.l0.clone()),
        ("l1", memory.l1.clone()),
        ("l2", memory.l2.clone()),
    ];
    assert(named_tiers(tiers@) =~= seq![
        ("l0"@, memory@.l0),
        ("l1"@, memory@.l1),
        ("l2"@, memory@.l2),
    ]);
    StageMemoryWork { store, memory: row, tiers, task_id: copied(&memory.task_id) }
}

/// What creating a subtask takes: the statement that stores it, and, where that
/// succeeds, the event that tells of it and the statement that logs it with its
/// parent.
pub struct SubtaskWork {
    pub store: Statement,
    pub task: TaskRow,
    pub announce: Emission,
    pub log: Statement,
    pub entry: TaskLogRow,
}

/// What creating a subtask takes.
pub fn create_subtask(subtask: &Subtask) -> (r: SubtaskWork)
    ensures
        is_new_task(
            r.task@,
            subtask@.task_type,
            "pending"@,
            None,
            subtask@.payload,
            subtask@.run_id,
            ""@,
            subtask@.summary,
            subtask@.parent_id,
        ),
        r.store@ == create_task_statement(r.task@),
        r.announce@ == room_event(ROOM_DASHBOARD@, TASK_CHANGED@, task_news(r.task@)),
        is_new_log(
            r.entry@,
            subtask@.parent_id,
            "info"@,
            "Subtask created: "@ + subtask@.summary,
            crate::json::compact_text(JsonTree::empty().text("subtask_id"@, r.task@.id)),
            subtask@.agent_id,
            "evaluation"@,
        ),
        r.log@ == create_task_log_statement(r.entry@),
{
    let (store, task) = create_task(
        subtask.task_type.as_str(),
        "pending",
        None,
        subtask.payload.as_str(),
        subtask.run_id.as_str(),
        "",
        subtask.summary.as_str(),
        subtask.parent_id.as_str(),
    );
    let announce = announce_task(&task);
    let message = concat2("Subtask created: ", subtask.summary.as_str());
    let detail = Fields::new().text("subtask_id", task.id.as_str()).written();
    let (log, entry) = create_task_log(
        subtask.parent_id.as_str(),
        "info",
        message.as_str(),
        detail.as_str(),
        subtask.agent_id.as_str(),
        "evaluation",
    );
    SubtaskWork { store, task, announce, log, entry }
}

// Taking a step: what its outcome means for those that follow.

/// What the failure of a step means.
pub enum Failure {
    /// The next step is taken.
    PassOver,
    /// The rest is given up with an error.
    GiveUp { message: String },
}

/// Whether the failure of a step means that the rest is given up, and with which
/// context.
pub open spec fn stops_with(step: StepView) -> Option<Option<Seq<char>>> {
    match step {
        StepView::Execute { context, .. } => Some(Some(context)),
        StepView::CreateStage { context, .. } => Some(Some(context)),
        StepView::UpdateStage { context: Some(context), .. } => Some(Some(context)),
        StepView::RetryStage { .. } => Some(None),
        StepView::Stop { message } => Some(Some(message)),
        _ => None,
    }
}

/// What the failure of a step means, given its error.
pub fn on_failure(step: &Step, error: &str) -> (r: Failure)
    ensures
        match stops_with(step@) {
            None => r is PassOver,
            Some(Some(context)) => r is GiveUp && r->message@ == context,
            Some(None) => r is GiveUp && r->message@ == error@,
        },
{
    match step {
        Step::Execute { context, .. } => Failure::GiveUp { message: context.clone() },
        Step::CreateStage { context, .. } => Failure::GiveUp { message: context.clone() },
        Step::UpdateStage { context, .. } => match context {
            Some(text) => Failure::GiveUp { message: text.clone() },
            None => Failure::PassOver,
        },
        Step::RetryStage { .. } => Failure::GiveUp { message: error.to_string() },
        Step::Stop { message } => Failure::GiveUp { message: message.clone() },
        _ => Failure::PassOver,
    }
}

} // verus!
