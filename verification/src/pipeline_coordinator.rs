//! The evolution pipeline: each run moves through five stages in order, and the
//! coordinator says what follows on each report of an agent.

use crate::events::{
    DASHBOARD_EVENT, ERROR_RECOVERY_REQUEST, Emission, PIPELINE_NEXT, ROOM_DASHBOARD,
    ROOM_EVALUATION, ROOM_KERNEL, TASK_CHANGED, TASK_DECOMPOSE, TASK_INVITE, notice,
    notify_dashboard, role_room, role_room_name, room_event, to_room,
};
use crate::json::{
    Fields, JsonTree, compact_text, copy, flag, get, get_items, get_text, object, parse_or_null,
    parse_or_object, parsed_or, pretty_text, text_or_else, to_pretty, to_text, trees, uint,
    value_tree,
};
use crate::keyed::KeyedList;
use crate::paths::{expanded, join_path, joined_path, shellexpand};
use crate::sql::Statement;
use crate::stamp::{is_uuid, new_id};
use crate::steps::{
    StageMemory, StageMemoryView, Step, StepView, Subtask, SubtaskView, announce_task, log_step,
    no_steps, put, put_announce, put_log, put_send, put_share, put_update, steps, task_news,
};
use crate::task_db::{
    PipelineRow, PipelineView, TaskRow, TaskView, create_pipeline_stage,
    create_pipeline_stage_statement, create_task, create_task_statement, get_pipeline_run_stages,
    is_new_stage, is_new_task, list_pipeline_runs, list_pipeline_runs_statement, pipeline_query,
    stage_views,
};
use crate::text::{
    concat2, concat3, concat4, concat5, copied, decimal, decimal_int, decimal_int_text,
    decimal_text, first_chars, leading, opt_str, opt_text, owned, same, text_or, texts,
};
use serde_json::Value;
use vstd::prelude::*;

verus! {

/// Seconds after which a stage has timed out.
pub const DEFAULT_STAGE_TIMEOUT_SECS: i64 = 300;

/// Seconds between two checks for stages that have timed out.
pub const TIMEOUT_CHECK_INTERVAL_SECS: u64 = 60;

/// How often a failed stage is retried.
pub const MAX_STAGE_RETRIES: u32 = 3;

/// Number of characters of the output of a stage that its processed tier keeps.
pub const PROCESSED_CHARS: usize = 2000;

// Stages.

/// A stage of the pipeline.
#[derive(Clone, Copy, Debug, PartialEq, Eq, Structural)]
pub enum PipelineStage {
    Learning,
    Building,
    PreLoad,
    Evaluation,
    SkillManage,
}

/// The stage that follows on another one.
pub open spec fn stage_after(stage: PipelineStage) -> Option<PipelineStage> {
    match stage {
        PipelineStage::Learning => Some(PipelineStage::Building),
        PipelineStage::Building => Some(PipelineStage::PreLoad),
        PipelineStage::PreLoad => Some(PipelineStage::Evaluation),
        PipelineStage::Evaluation => Some(PipelineStage::SkillManage),
        PipelineStage::SkillManage => None,
    }
}

/// The stage that follows on another one.
pub fn next_stage(current: PipelineStage) -> (r: Option<PipelineStage>)
    ensures
        r == stage_after(current),
{
    match current {
        PipelineStage::Learning => Some(PipelineStage::Building),
        PipelineStage::Building => Some(PipelineStage::PreLoad),
        PipelineStage::PreLoad => Some(PipelineStage::Evaluation),
        PipelineStage::Evaluation => Some(PipelineStage::SkillManage),
        PipelineStage::SkillManage => None,
    }
}

/// The name of a stage.
pub open spec fn stage_name(stage: PipelineStage) -> Seq<char> {
    match stage {
        PipelineStage::Learning => "learning"@,
        PipelineStage::Building => "building"@,
        PipelineStage::PreLoad => "pre_load"@,
        PipelineStage::Evaluation => "evaluation"@,
        PipelineStage::SkillManage => "skill_manage"@,
    }
}

/// The name of a stage.
pub fn stage_to_str(stage: PipelineStage) -> (r: &'static str)
    ensures
        r@ == stage_name(stage),
{
    match stage {
        PipelineStage::Learning => "learning",
        PipelineStage::Building => "building",
        PipelineStage::PreLoad => "pre_load",
        PipelineStage::Evaluation => "evaluation",
        PipelineStage::SkillManage => "skill_manage",
    }
}

/// The room of the agent of a stage.
pub fn stage_to_room(stage: PipelineStage) -> (r: String)
    ensures
        r@ == role_room_name(stage_name(stage)),
{
    role_room(stage_to_str(stage))
}

/// The stage with a name.
pub open spec fn stage_named(s: Seq<char>) -> Option<PipelineStage> {
    if s == "learning"@ {
        Some(PipelineStage::Learning)
    } else if s == "building"@ {
        Some(PipelineStage::Building)
    } else if s == "pre_load"@ {
        Some(PipelineStage::PreLoad)
    } else if s == "evaluation"@ {
        Some(PipelineStage::Evaluation)
    } else if s == "skill_manage"@ {
        Some(PipelineStage::SkillManage)
    } else {
        None
    }
}

/// The stage with a name.
pub fn str_to_stage(s: &str) -> (r: Option<PipelineStage>)
    ensures
        r == stage_named(s@),
{
    if same(s, "learning") {
        Some(PipelineStage::Learning)
    } else if same(s, "building") {
        Some(PipelineStage::Building)
    } else if same(s, "pre_load") {
        Some(PipelineStage::PreLoad)
    } else if same(s, "evaluation") {
        Some(PipelineStage::Evaluation)
    } else if same(s, "skill_manage") {
        Some(PipelineStage::SkillManage)
    } else {
        None
    }
}

/// What goes on in the stage with a name.
pub open spec fn summary_of(stage: Seq<char>) -> Seq<char> {
    match stage_named(stage) {
        Some(PipelineStage::Learning) => "Discovering skills"@,
        Some(PipelineStage::Building) => "Packaging skill"@,
        Some(PipelineStage::PreLoad) => "Checking endpoints"@,
        Some(PipelineStage::Evaluation) => "Evaluating quality"@,
        Some(PipelineStage::SkillManage) => "Managing activation"@,
        None => "Processing"@,
    }
}

/// What goes on in the stage with a name.
pub fn stage_summary(stage: &str) -> (r: &'static str)
    ensures
        r@ == summary_of(stage@),
{
    match str_to_stage(stage) {
        Some(PipelineStage::Learning) => "Discovering skills",
        Some(PipelineStage::Building) => "Packaging skill",
        Some(PipelineStage::PreLoad) => "Checking endpoints",
        Some(PipelineStage::Evaluation) => "Evaluating quality",
        Some(PipelineStage::SkillManage) => "Managing activation",
        None => "Processing",
    }
}

/// The stage with the name of a stage is that stage.
pub proof fn law_stage_names_read_back(stage: PipelineStage)
    ensures
        stage_named(stage_name(stage)) == Some(stage),
{
    reveal_strlit("learning");
    reveal_strlit("building");
    reveal_strlit("pre_load");
    reveal_strlit("evaluation");
    reveal_strlit("skill_manage");
    assert("learning"@[0] == 'l' && "building"@[0] == 'b' && "pre_load"@[0] == 'p');
    assert("evaluation"@[0] == 'e' && "skill_manage"@[0] == 's');
}

/// The position of a stage in the pipeline.
pub open spec fn stage_index(stage: PipelineStage) -> nat {
    match stage {
        PipelineStage::Learning => 0,
        PipelineStage::Building => 1,
        PipelineStage::PreLoad => 2,
        PipelineStage::Evaluation => 3,
        PipelineStage::SkillManage => 4,
    }
}

/// A run moves through five stages in order: each stage but the fifth is followed
/// by the one after it.
pub proof fn law_five_stages_in_order(stage: PipelineStage)
    ensures
        stage_index(stage) < 5,
        stage_index(PipelineStage::Learning) == 0,
        match stage_after(stage) {
            Some(next) => stage_index(next) == stage_index(stage) + 1,
            None => stage_index(stage) == 4,
        },
{
}

/// No two stages share a room.
pub proof fn law_stage_rooms_are_distinct(a: PipelineStage, b: PipelineStage)
    ensures
        role_room_name(stage_name(a)) == role_room_name(stage_name(b)) <==> a == b,
{
    crate::events::law_role_rooms_are_distinct(stage_name(a), stage_name(b));
    law_stage_names_read_back(a);
    law_stage_names_read_back(b);
}

/// The summary of a task that is in a stage.
pub open spec fn progress_text(stage: Seq<char>) -> Seq<char> {
    stage + " \u{2014} "@ + summary_of(stage)
}

/// The summary of a task that is in a stage.
fn progress(stage: &str) -> (r: String)
    ensures
        r@ == progress_text(stage@),
{
    concat3(stage, " \u{2014} ", stage_summary(stage))
}

// Starting a run.

/// The payload of the event that hands a stage to its agent.
pub open spec fn next_payload(
    run_id: Seq<char>,
    stage: Seq<char>,
    artifact_id: Seq<char>,
    metadata: JsonTree,
) -> JsonTree {
    JsonTree::empty().text("run_id"@, run_id).text("stage"@, stage).text(
        "artifact_id"@,
        artifact_id,
    ).with("metadata"@, metadata)
}

fn next_fields(run_id: &str, stage: &str, artifact_id: &str, metadata: &Value) -> (r: Fields)
    ensures
        r@ == next_payload(run_id@, stage@, artifact_id@, value_tree(*metadata)),
        r@ is Object,
{
    Fields::new().text("run_id", run_id).text("stage", stage).text("artifact_id", artifact_id).with(
        "metadata",
        copy(metadata),
    )
}

/// The steps with those at their end that hand a stage to its agent and tell the
/// dashboard.
pub open spec fn with_handover(
    base: Seq<StepView>,
    run_id: Seq<char>,
    stage: PipelineStage,
    artifact_id: Seq<char>,
    metadata: JsonTree,
) -> Seq<StepView> {
    let payload = next_payload(run_id, stage_name(stage), artifact_id, metadata);
    base.push(
        StepView::Send {
            emission: room_event(role_room_name(stage_name(stage)), PIPELINE_NEXT@, payload),
        },
    ).push(
        StepView::Send {
            emission: room_event(
                ROOM_DASHBOARD@,
                DASHBOARD_EVENT@,
                notice(PIPELINE_NEXT@, payload),
            ),
        },
    )
}

fn put_handover(
    items: &mut Vec<Step>,
    run_id: &str,
    stage: PipelineStage,
    artifact_id: &str,
    metadata: &Value,
)
    ensures
        steps(final(items)@) == with_handover(
            steps(old(items)@),
            run_id@,
            stage,
            artifact_id@,
            value_tree(*metadata),
        ),
{
    let payload = next_fields(run_id, stage_to_str(stage), artifact_id, metadata).done();
    let room = stage_to_room(stage);
    put_send(items, to_room(room.as_str(), PIPELINE_NEXT, copy(&payload)));
    put_send(items, notify_dashboard(PIPELINE_NEXT, &payload));
}

/// The text that stands for what triggered a run.
pub open spec fn trigger_text(trigger: JsonTree) -> Seq<char> {
    compact_text(JsonTree::empty().with("trigger"@, trigger))
}

/// A run that is being started: its id, the record of its first stage, its task,
/// and the steps that start it.
pub struct StartedRun {
    pub run_id: String,
    pub stage: PipelineRow,
    pub task: TaskRow,
    pub steps: Vec<Step>,
}

/// The payload of the invitation to a task of a run.
pub open spec fn invite_payload(task_id: Seq<char>, run_id: Seq<char>, trigger: JsonTree) -> JsonTree {
    JsonTree::empty().text("task_id"@, task_id).text("task_type"@, "pipeline"@).with(
        "payload"@,
        JsonTree::empty().text("run_id"@, run_id).text(
            "stage"@,
            stage_name(PipelineStage::Learning),
        ).with("trigger"@, trigger),
    )
}

/// The steps that start a run.
pub open spec fn start_steps(stage: PipelineView, task: TaskView, trigger: JsonTree) -> Seq<StepView> {
    let run_id = stage.run_id;
    let base = Seq::<StepView>::empty().push(
        StepView::Execute {
            statement: create_pipeline_stage_statement(stage),
            context: "create initial pipeline stage"@,
        },
    ).push(
        StepView::Execute {
            statement: create_task_statement(task),
            context: "create pipeline task"@,
        },
    ).push(
        log_step(
            task.id,
            "info"@,
            "Pipeline started"@,
            trigger_text(trigger),
            ""@,
            stage_name(PipelineStage::Learning),
        ),
    ).push(
        StepView::Send {
            emission: room_event(ROOM_DASHBOARD@, TASK_CHANGED@, task_news(task)),
        },
    ).push(StepView::AnnounceLog { task_id: task.id }).push(
        StepView::Send {
            emission: room_event(
                ROOM_KERNEL@,
                TASK_INVITE@,
                invite_payload(task.id, run_id, trigger),
            ),
        },
    );
    with_handover(base, run_id, PipelineStage::Learning, ""@, trigger)
}

impl PipelineCoordinator {
    /// Starts a run: the record of its first stage, its task with the first log entry,
    /// the invitation to the kernel agents, and the hand-over to the agent that learns.
    pub fn start_run(&self, trigger_metadata: &Value) -> (r: StartedRun)
        ensures
            is_uuid(r.run_id@),
            is_new_stage(
                r.stage@,
                r.run_id@,
                stage_name(PipelineStage::Learning),
                ""@,
                compact_text(value_tree(*trigger_metadata)),
            ),
            is_new_task(
                r.task@,
                "pipeline"@,
                "running"@,
                None,
                trigger_text(value_tree(*trigger_metadata)),
                r.run_id@,
                stage_name(PipelineStage::Learning),
                progress_text(stage_name(PipelineStage::Learning)),
                ""@,
            ),
            steps(r.steps@) == start_steps(r.stage@, r.task@, value_tree(*trigger_metadata)),
    {
        let run_id = new_id();
        let first = PipelineStage::Learning;
        let stage = stage_to_str(first);
        let metadata = to_text(trigger_metadata);
        let (stage_statement, stage_row) = create_pipeline_stage(
            run_id.as_str(),
            stage,
            "",
            metadata.as_str(),
        );
        let trigger = Fields::new().with("trigger", copy(trigger_metadata)).written();
        let summary = progress(stage);
        let (task_statement, task) = create_task(
            "pipeline",
            "running",
            None,
            trigger.as_str(),
            run_id.as_str(),
            stage,
            summary.as_str(),
            "",
        );
        let mut items = no_steps();
        put(
            &mut items,
            Step::Execute {
                statement: stage_statement,
                context: "create initial pipeline stage".to_string(),
            },
        );
        put(
            &mut items,
            Step::Execute { statement: task_statement, context: "create pipeline task".to_string() },
        );
        put_log(&mut items, task.id.as_str(), "info", "Pipeline started", trigger.as_str(), "", stage);
        put_send(&mut items, announce_task(&task));
        put_announce(&mut items, task.id.as_str());
        let inner = Fields::new().text("run_id", run_id.as_str()).text("stage", stage).with(
            "trigger",
            copy(trigger_metadata),
        ).done();
        let invite = Fields::new().text("task_id", task.id.as_str()).text("task_type", "pipeline").with(
            "payload",
            inner,
        ).done();
        put_send(&mut items, to_room(ROOM_KERNEL, TASK_INVITE, invite));
        put_handover(&mut items, run_id.as_str(), first, "", trigger_metadata);
        StartedRun { run_id, stage: stage_row, task, steps: items }
    }
}

// What is remembered of a stage.

/// The category of the memory of a stage.
pub open spec fn memory_category(stage: Seq<char>) -> Seq<char> {
    match stage_named(stage) {
        Some(PipelineStage::Learning) => "resource"@,
        Some(PipelineStage::Evaluation) => "case"@,
        Some(PipelineStage::SkillManage) => "event"@,
        _ => "fact"@,
    }
}

/// What is remembered of a stage.
pub open spec fn stage_memory(
    run_id: Seq<char>,
    stage: Seq<char>,
    agent_id: Seq<char>,
    artifact_id: Seq<char>,
    output: JsonTree,
    task_id: Option<Seq<char>>,
) -> StageMemoryView {
    StageMemoryView {
        category: memory_category(stage),
        key: "memory://pipeline/"@ + run_id + "/"@ + stage + "/"@ + artifact_id,
        agent_id,
        run_id,
        l0: compact_text(output),
        l1: first_chars(pretty_text(output), PROCESSED_CHARS as nat),
        l2: stage + " completed by "@ + agent_id + " for artifact '"@ + artifact_id + "'"@,
        task_id,
    }
}

/// What is remembered of a stage: all of its output as it came, the first characters
/// of its output set out for reading, and a summary, bound to the task of the run
/// where there is one.
pub fn extract_stage_memory(
    run_id: &str,
    stage: &str,
    agent_id: &str,
    artifact_id: &str,
    output: &Value,
    task_id: Option<&str>,
) -> (r: StageMemory)
    ensures
        r@ == stage_memory(
            run_id@,
            stage@,
            agent_id@,
            artifact_id@,
            value_tree(*output),
            opt_str(task_id),
        ),
{
    let category = match str_to_stage(stage) {
        Some(PipelineStage::Learning) => "resource",
        Some(PipelineStage::Evaluation) => "case",
        Some(PipelineStage::SkillManage) => "event",
        _ => "fact",
    };
    let head = concat5("memory://pipeline/", run_id, "/", stage, "/");
    let key = concat2(head.as_str(), artifact_id);
    let start = concat4(stage, " completed by ", agent_id, " for artifact '");
    let summary = concat3(start.as_str(), artifact_id, "'");
    let pretty = to_pretty(output);
    StageMemory {
        category: category.to_string(),
        key,
        agent_id: agent_id.to_string(),
        run_id: run_id.to_string(),
        l0: to_text(output),
        l1: leading(pretty.as_str(), PROCESSED_CHARS),
        l2: summary,
        task_id: owned(task_id),
    }
}

// Subtasks.

/// The subtask that an entry of a list of subtasks asks for.
pub open spec fn subtask_of(
    def: JsonTree,
    index: int,
    parent_id: Seq<char>,
    run_id: Seq<char>,
    agent_id: Seq<char>,
) -> SubtaskView {
    SubtaskView {
        task_type: text_or(def.get_text("task_type"@), "subtask"@),
        payload: match def.get("payload"@) {
            Some(payload) => compact_text(payload),
            None => compact_text(JsonTree::empty()),
        },
        run_id,
        summary: text_or(def.get_text("summary"@), "Subtask "@ + decimal((index + 1) as nat)),
        parent_id,
        agent_id,
    }
}

/// The steps with those at their end that create the subtasks of a list.
pub open spec fn with_subtasks(
    base: Seq<StepView>,
    defs: Seq<JsonTree>,
    parent_id: Seq<char>,
    run_id: Seq<char>,
    agent_id: Seq<char>,
) -> Seq<StepView>
    decreases defs.len(),
{
    if defs.len() == 0 {
        base
    } else {
        with_subtasks(base, defs.drop_last(), parent_id, run_id, agent_id).push(
            StepView::CreateSubtask {
                subtask: subtask_of(defs.last(), defs.len() - 1, parent_id, run_id, agent_id),
            },
        )
    }
}

/// The subtask that an entry of a list of subtasks asks for: its type, summary and
/// payload where they are given, linked to a parent task and its run.
fn read_subtask(def: &Value, index: usize, parent_id: &str, run_id: &str, agent_id: &str) -> (r: Subtask)
    requires
        index < usize::MAX,
    ensures
        r@ == subtask_of(value_tree(*def), index as int, parent_id@, run_id@, agent_id@),
{
    let number = decimal_text(index as u64 + 1);
    let default_summary = concat2("Subtask ", number.as_str());
    let payload = match get(def, "payload") {
        Some(payload) => to_text(payload),
        None => to_text(&object()),
    };
    Subtask {
        task_type: text_or_else(def, "task_type", "subtask").to_string(),
        payload,
        run_id: run_id.to_string(),
        summary: text_or_else(def, "summary", default_summary.as_str()).to_string(),
        parent_id: parent_id.to_string(),
        agent_id: agent_id.to_string(),
    }
}

/// Puts the steps that create the subtasks of a list.
pub fn create_subtasks(
    items: &mut Vec<Step>,
    parent_id: &str,
    subtask_defs: &Vec<Value>,
    run_id: &str,
    agent_id: &str,
)
    ensures
        steps(final(items)@) == with_subtasks(
            steps(old(items)@),
            trees(subtask_defs@),
            parent_id@,
            run_id@,
            agent_id@,
        ),
{
    let ghost base = steps(items@);
    let ghost all = trees(subtask_defs@);
    let mut i: usize = 0;
    while i < subtask_defs.len()
        invariant
            i <= subtask_defs@.len(),
            all == trees(subtask_defs@),
            steps(items@) == with_subtasks(
                base,
                all.take(i as int),
                parent_id@,
                run_id@,
                agent_id@,
            ),
        decreases subtask_defs@.len() - i,
    {
        proof {
            assert(all.take(i + 1).drop_last() =~= all.take(i as int));
            assert(all.take(i + 1).last() == value_tree(subtask_defs@[i as int]));
        }
        let subtask = read_subtask(&subtask_defs[i], i, parent_id, run_id, agent_id);
        put(items, Step::CreateSubtask { subtask });
        i += 1;
    }
    assert(all.take(i as int) =~= all);
}

// Aborting a run.

/// What a task that may be absent holds.
pub open spec fn opt_task(task: Option<&TaskRow>) -> Option<TaskView> {
    match task {
        Some(row) => Some(row@),
        None => None,
    }
}

/// The steps with those at their end that abort a run with a task.
pub open spec fn with_abort(
    base: Seq<StepView>,
    task_id: Option<Seq<char>>,
    stage: Seq<char>,
    reason: Seq<char>,
) -> Seq<StepView> {
    match task_id {
        Some(id) => base.push(
            StepView::UpdateTask {
                task_id: id,
                status: Some("failed"@),
                current_stage: None,
                summary: Some("Aborted at "@ + stage + " \u{2014} "@ + reason),
            },
        ).push(log_step(id, "error"@, "Pipeline aborted: "@ + reason, ""@, ""@, stage)).push(
            StepView::ShareTask { task_id: id },
        ),
        None => base,
    }
}

/// Puts the steps that abort a run: its task, where it has one, is marked as
/// failed.
pub fn abort_pipeline(items: &mut Vec<Step>, task_id: Option<&str>, stage: &str, reason: &str)
    ensures
        steps(final(items)@) == with_abort(steps(old(items)@), opt_str(task_id), stage@, reason@),
{
    match task_id {
        Some(id) => {
            let summary = concat4("Aborted at ", stage, " \u{2014} ", reason);
            put_update(items, id, Some("failed"), None, Some(summary.as_str()));
            let message = concat2("Pipeline aborted: ", reason);
            put_log(items, id, "error", message.as_str(), "", "", stage);
            put_share(items, id);
        },
        None => {},
    }
}

/// The id of a task that may be absent.
pub open spec fn task_id_of(task: Option<TaskView>) -> Option<Seq<char>> {
    match task {
        Some(t) => Some(t.id),
        None => None,
    }
}

fn id_of<'a>(task: Option<&'a TaskRow>) -> (r: Option<&'a str>)
    ensures
        opt_str(r) == task_id_of(opt_task(task)),
{
    match task {
        Some(row) => Some(row.id.as_str()),
        None => None,
    }
}

// The result of a stage.

/// What an agent reports of a stage.
pub struct StageReport {
    pub run_id: String,
    pub stage: PipelineStage,
    pub agent_id: String,
    pub status: String,
    pub artifact_id: String,
    pub output: Value,
    pub error: Option<String>,
}

/// What a [`StageReport`] holds.
pub struct ReportView {
    pub run_id: Seq<char>,
    pub stage: PipelineStage,
    pub agent_id: Seq<char>,
    pub status: Seq<char>,
    pub artifact_id: Seq<char>,
    pub output: JsonTree,
    pub error: Option<Seq<char>>,
}

impl View for StageReport {
    type V = ReportView;

    open spec fn view(&self) -> ReportView {
        ReportView {
            run_id: self.run_id@,
            stage: self.stage,
            agent_id: self.agent_id@,
            status: self.status@,
            artifact_id: self.artifact_id@,
            output: value_tree(self.output),
            error: opt_text(self.error),
        }
    }
}

/// Position of the first record of a stage that is running, or the number of
/// records.
pub open spec fn running_stage(stages: Seq<PipelineView>, stage: Seq<char>) -> nat
    decreases stages.len(),
{
    if stages.len() == 0 || (stages[0].stage == stage && stages[0].status == "running"@) {
        0
    } else {
        1 + running_stage(stages.drop_first(), stage)
    }
}

/// Position of the first record of a stage that is running, or the number of
/// records.
pub fn find_running_stage(stages: &Vec<PipelineRow>, stage: &str) -> (r: usize)
    ensures
        r == running_stage(stage_views(stages@), stage@),
        r <= stages@.len(),
{
    let ghost all = stage_views(stages@);
    let mut i: usize = 0;
    assert(all.skip(0) =~= all);
    while i < stages.len()
        invariant
            i <= stages@.len(),
            all == stage_views(stages@),
            i + running_stage(all.skip(i as int), stage@) == running_stage(all, stage@),
        decreases stages@.len() - i,
    {
        let ghost rest = all.skip(i as int);
        assert(rest[0] == stages@[i as int]@);
        if same(stages[i].stage.as_str(), stage) && same(stages[i].status.as_str(), "running") {
            return i;
        }
        assert(rest.drop_first() =~= all.skip(i + 1));
        i += 1;
    }
    i
}

/// The steps with the one at their end that remembers a stage.
pub open spec fn with_memory(
    base: Seq<StepView>,
    report: ReportView,
    task: Option<TaskView>,
) -> Seq<StepView> {
    base.push(
        StepView::StoreMemory {
            memory: stage_memory(
                report.run_id,
                stage_name(report.stage),
                report.agent_id,
                report.artifact_id,
                report.output,
                task_id_of(task),
            ),
        },
    )
}

fn put_memory(items: &mut Vec<Step>, report: &StageReport, task: Option<&TaskRow>)
    ensures
        steps(final(items)@) == with_memory(steps(old(items)@), report@, opt_task(task)),
{
    let memory = extract_stage_memory(
        report.run_id.as_str(),
        stage_to_str(report.stage),
        report.agent_id.as_str(),
        report.artifact_id.as_str(),
        &report.output,
        id_of(task),
    );
    put(items, Step::StoreMemory { memory });
}

/// The payload of a request for recovery.
pub open spec fn recovery_payload(
    report: ReportView,
    task: Option<TaskView>,
    retry_count: u32,
    request_id: Seq<char>,
) -> JsonTree {
    JsonTree::empty().text("request_id"@, request_id).text("run_id"@, report.run_id).text(
        "task_id"@,
        text_or(task_id_of(task), ""@),
    ).text("failed_stage"@, stage_name(report.stage)).text(
        "error_message"@,
        text_or(report.error, "unknown error"@),
    ).with("stage_output"@, report.output).with(
        "retry_count"@,
        JsonTree::UInt(retry_count as u64),
    ).text(
        "task_summary"@,
        match task {
            Some(t) => t.summary,
            None => ""@,
        },
    )
}

/// The steps with those at their end that follow on a failed stage: it is
/// remembered and logged, the task is recovering, and the agent that evaluates is
/// asked what to do.
pub open spec fn with_failure(
    base: Seq<StepView>,
    report: ReportView,
    task: Option<TaskView>,
    retry_count: u32,
    request_id: Seq<char>,
) -> Seq<StepView> {
    let stage = stage_name(report.stage);
    let error = text_or(report.error, "unknown error"@);
    let remembered = with_memory(base, report, task);
    let told = match task {
        Some(t) => remembered.push(
            log_step(
                t.id,
                "error"@,
                "Stage "@ + stage + " failed: "@ + error,
                compact_text(report.output),
                report.agent_id,
                stage,
            ),
        ).push(StepView::AnnounceLog { task_id: t.id }).push(
            StepView::UpdateTask {
                task_id: t.id,
                status: Some("recovering"@),
                current_stage: None,
                summary: Some("Error recovery in progress for "@ + stage),
            },
        ).push(StepView::ShareTask { task_id: t.id }),
        None => remembered,
    };
    told.push(
        StepView::AskForRecovery {
            request_id,
            emission: room_event(
                ROOM_EVALUATION@,
                ERROR_RECOVERY_REQUEST@,
                recovery_payload(report, task, retry_count, request_id),
            ),
            task_id: task_id_of(task),
            stage,
            reason: "No recovery agent available"@,
        },
    )
}

fn put_failure(
    items: &mut Vec<Step>,
    report: &StageReport,
    task: Option<&TaskRow>,
    retry_count: u32,
    request_id: &str,
)
    ensures
        steps(final(items)@) == with_failure(
            steps(old(items)@),
            report@,
            opt_task(task),
            retry_count,
            request_id@,
        ),
{
    let stage = stage_to_str(report.stage);
    let error = match &report.error {
        Some(text) => text.as_str(),
        None => "unknown error",
    };
    put_memory(items, report, task);
    let mut task_id = "";
    let mut task_summary = "";
    match task {
        Some(t) => {
            let message = concat4("Stage ", stage, " failed: ", error);
            let detail = to_text(&report.output);
            put_log(
                items,
                t.id.as_str(),
                "error",
                message.as_str(),
                detail.as_str(),
                report.agent_id.as_str(),
                stage,
            );
            put_announce(items, t.id.as_str());
            let summary = concat2("Error recovery in progress for ", stage);
            put_update(items, t.id.as_str(), Some("recovering"), None, Some(summary.as_str()));
            put_share(items, t.id.as_str());
            task_id = t.id.as_str();
            task_summary = t.summary.as_str();
        },
        None => {},
    }
    let payload = Fields::new().text("request_id", request_id).text(
        "run_id",
        report.run_id.as_str(),
    ).text("task_id", task_id).text("failed_stage", stage).text("error_message", error).with(
        "stage_output",
        copy(&report.output),
    ).with("retry_count", uint(retry_count as u64)).text("task_summary", task_summary).done();
    put(
        items,
        Step::AskForRecovery {
            request_id: request_id.to_string(),
            emission: to_room(ROOM_EVALUATION, ERROR_RECOVERY_REQUEST, payload),
            task_id: owned(id_of(task)),
            stage: stage.to_string(),
            reason: "No recovery agent available".to_string(),
        },
    );
}

/// The steps with those at their end that move a run on to a stage.
pub open spec fn with_advance(
    base: Seq<StepView>,
    run_id: Seq<char>,
    next: PipelineStage,
    artifact_id: Seq<char>,
    output: JsonTree,
    task: Option<TaskView>,
) -> Seq<StepView> {
    let stage = stage_name(next);
    let created = base.push(
        StepView::CreateStage {
            run_id,
            stage,
            artifact_id,
            input_metadata: compact_text(output),
            context: "create next pipeline stage"@,
        },
    );
    let told = match task {
        Some(t) => created.push(
            StepView::UpdateTask {
                task_id: t.id,
                status: None,
                current_stage: Some(stage),
                summary: Some(progress_text(stage)),
            },
        ).push(log_step(t.id, "info"@, "Stage "@ + stage + " started"@, ""@, ""@, stage)).push(
            StepView::ShareTask { task_id: t.id },
        ).push(StepView::AnnounceLog { task_id: t.id }),
        None => created,
    };
    with_handover(told, run_id, next, artifact_id, output)
}

fn put_advance(
    items: &mut Vec<Step>,
    report: &StageReport,
    next: PipelineStage,
    task: Option<&TaskRow>,
)
    ensures
        steps(final(items)@) == with_advance(
            steps(old(items)@),
            report@.run_id,
            next,
            report@.artifact_id,
            report@.output,
            opt_task(task),
        ),
{
    let stage = stage_to_str(next);
    put(
        items,
        Step::CreateStage {
            run_id: report.run_id.clone(),
            stage: stage.to_string(),
            artifact_id: report.artifact_id.clone(),
            input_metadata: to_text(&report.output),
            context: "create next pipeline stage".to_string(),
        },
    );
    match task {
        Some(t) => {
            let summary = progress(stage);
            put_update(items, t.id.as_str(), None, Some(stage), Some(summary.as_str()));
            let message = concat3("Stage ", stage, " started");
            put_log(items, t.id.as_str(), "info", message.as_str(), "", "", stage);
            put_share(items, t.id.as_str());
            put_announce(items, t.id.as_str());
        },
        None => {},
    }
    put_handover(
        items,
        report.run_id.as_str(),
        next,
        report.artifact_id.as_str(),
        &report.output,
    );
}

/// Whether the output of the last stage says that a new version of a component is
/// to be installed.
pub open spec fn approves_upgrade(output: JsonTree) -> bool {
    &&& output.get_text("build_type"@) == Some("self_upgrade"@)
    &&& output.get_text("action"@) == Some("activated"@)
}

/// The steps with those at their end that complete a run.
pub open spec fn with_completion(
    base: Seq<StepView>,
    report: ReportView,
    task: Option<TaskView>,
) -> Seq<StepView> {
    let told = match task {
        Some(t) => base.push(
            StepView::UpdateTask {
                task_id: t.id,
                status: Some("completed"@),
                current_stage: None,
                summary: Some("Pipeline completed successfully"@),
            },
        ).push(
            log_step(
                t.id,
                "info"@,
                "Pipeline completed successfully"@,
                ""@,
                report.agent_id,
                stage_name(report.stage),
            ),
        ).push(StepView::ShareTask { task_id: t.id }).push(
            StepView::AnnounceLog { task_id: t.id },
        ),
        None => base,
    };
    if approves_upgrade(report.output) {
        told.push(
            StepView::StartUpdate {
                component: text_or(report.output.get_text("component"@), "unknown"@),
                new_version: text_or(report.output.get_text("new_version"@), "v0.0.0"@),
                run_id: report.run_id,
            },
        )
    } else {
        told
    }
}

fn put_completion(items: &mut Vec<Step>, report: &StageReport, task: Option<&TaskRow>)
    ensures
        steps(final(items)@) == with_completion(steps(old(items)@), report@, opt_task(task)),
{
    match task {
        Some(t) => {
            put_update(
                items,
                t.id.as_str(),
                Some("completed"),
                None,
                Some("Pipeline completed successfully"),
            );
            put_log(
                items,
                t.id.as_str(),
                "info",
                "Pipeline completed successfully",
                "",
                report.agent_id.as_str(),
                stage_to_str(report.stage),
            );
            put_share(items, t.id.as_str());
            put_announce(items, t.id.as_str());
        },
        None => {},
    }
    let output = &report.output;
    if crate::text::is_text(get_text(output, "build_type"), "self_upgrade") && crate::text::is_text(
        get_text(output, "action"),
        "activated",
    ) {
        put(
            items,
            Step::StartUpdate {
                component: text_or_else(output, "component", "unknown").to_string(),
                new_version: text_or_else(output, "new_version", "v0.0.0").to_string(),
                run_id: report.run_id.clone(),
            },
        );
    }
}

/// The steps with those at their end that follow on a completed stage: it is
/// remembered and logged, subtasks are created where the evaluation asks for them,
/// and the run moves on or is complete.
pub open spec fn with_success(
    base: Seq<StepView>,
    report: ReportView,
    task: Option<TaskView>,
) -> Seq<StepView> {
    let stage = stage_name(report.stage);
    let remembered = with_memory(base, report, task);
    let logged = match task {
        Some(t) => remembered.push(
            log_step(
                t.id,
                "info"@,
                "Stage "@ + stage + " completed"@,
                compact_text(report.output),
                report.agent_id,
                stage,
            ),
        ).push(StepView::AnnounceLog { task_id: t.id }),
        None => remembered,
    };
    let divided = match (task, report.output.get_items("subtasks"@)) {
        (Some(t), Some(defs)) => if report.stage == PipelineStage::Evaluation {
            with_subtasks(logged, defs, t.id, report.run_id, report.agent_id)
        } else {
            logged
        },
        _ => logged,
    };
    match stage_after(report.stage) {
        Some(next) => with_advance(
            divided,
            report.run_id,
            next,
            report.artifact_id,
            report.output,
            task,
        ),
        None => with_completion(divided, report, task),
    }
}

fn put_success(items: &mut Vec<Step>, report: &StageReport, task: Option<&TaskRow>)
    ensures
        steps(final(items)@) == with_success(steps(old(items)@), report@, opt_task(task)),
{
    let stage = stage_to_str(report.stage);
    put_memory(items, report, task);
    match task {
        Some(t) => {
            let message = concat3("Stage ", stage, " completed");
            let detail = to_text(&report.output);
            put_log(
                items,
                t.id.as_str(),
                "info",
                message.as_str(),
                detail.as_str(),
                report.agent_id.as_str(),
                stage,
            );
            put_announce(items, t.id.as_str());
        },
        None => {},
    }
    match (task, get_items(&report.output, "subtasks")) {
        (Some(t), Some(defs)) => {
            if report.stage == PipelineStage::Evaluation {
                create_subtasks(
                    items,
                    t.id.as_str(),
                    defs,
                    report.run_id.as_str(),
                    report.agent_id.as_str(),
                );
            }
        },
        _ => {},
    }
    match next_stage(report.stage) {
        Some(next) => put_advance(items, report, next, task),
        None => put_completion(items, report, task),
    }
}

/// The step that records the outcome of a stage.
pub open spec fn outcome_step(report: ReportView, id: Seq<char>) -> StepView {
    StepView::UpdateStage {
        id,
        status: report.status,
        agent_id: report.agent_id,
        result: Some(compact_text(report.output)),
        error: report.error,
        context: Some("update pipeline stage"@),
    }
}

/// The steps that follow on the report of a stage. Where the stage is not running
/// in the run there are none.
pub open spec fn result_steps(
    report: ReportView,
    stages: Seq<PipelineView>,
    task: Option<TaskView>,
    retry_count: u32,
    request_id: Seq<char>,
) -> Seq<StepView> {
    let at = running_stage(stages, stage_name(report.stage));
    if at >= stages.len() {
        Seq::empty()
    } else {
        let base = Seq::<StepView>::empty().push(outcome_step(report, stages[at as int].id));
        if report.status == "failed"@ {
            with_failure(base, report, task, retry_count, request_id)
        } else if report.status == "completed"@ {
            with_success(base, report, task)
        } else {
            base
        }
    }
}

/// Whether the report of a stage asks for recovery.
pub open spec fn asks_for_recovery(report: ReportView, stages: Seq<PipelineView>) -> bool {
    running_stage(stages, stage_name(report.stage)) < stages.len() && report.status == "failed"@
}

/// The steps that follow on the report of a stage. A request for recovery has the
/// given id.
pub fn stage_result_steps(
    report: &StageReport,
    stages: &Vec<PipelineRow>,
    task: Option<&TaskRow>,
    retry_count: u32,
    request_id: &str,
) -> (r: Vec<Step>)
    ensures
        steps(r@) == result_steps(
            report@,
            stage_views(stages@),
            opt_task(task),
            retry_count,
            request_id@,
        ),
{
    let mut items = no_steps();
    let at = find_running_stage(stages, stage_to_str(report.stage));
    if at < stages.len() {
        assert(stage_views(stages@)[at as int] == stages@[at as int]@);
        put(
            &mut items,
            Step::UpdateStage {
                id: stages[at].id.clone(),
                status: report.status.clone(),
                agent_id: report.agent_id.clone(),
                result: Some(to_text(&report.output)),
                error: copied(&report.error),
                context: Some("update pipeline stage".to_string()),
            },
        );
        if same(report.status.as_str(), "failed") {
            put_failure(&mut items, report, task, retry_count, request_id);
        } else if same(report.status.as_str(), "completed") {
            put_success(&mut items, report, task);
        }
    }
    items
}

// The response to a request for recovery.

/// What the agent that evaluates recommends after a failure.
pub struct RecoveryResponse {
    pub run_id: String,
    pub action: String,
    pub params: Value,
    pub reasoning: String,
}

/// What a [`RecoveryResponse`] holds.
pub struct RecoveryView {
    pub run_id: Seq<char>,
    pub action: Seq<char>,
    pub params: JsonTree,
    pub reasoning: Seq<char>,
}

impl View for RecoveryResponse {
    type V = RecoveryView;

    open spec fn view(&self) -> RecoveryView {
        RecoveryView {
            run_id: self.run_id@,
            action: self.action@,
            params: value_tree(self.params),
            reasoning: self.reasoning@,
        }
    }
}

/// The stage that a task is in; empty without a task.
pub open spec fn current_stage_of(task: Option<TaskView>) -> Seq<char> {
    match task {
        Some(t) => t.current_stage,
        None => ""@,
    }
}

/// Position of the last record of a stage, counted from one; zero where there is
/// none.
pub open spec fn last_of_stage(stages: Seq<PipelineView>, stage: Seq<char>) -> nat
    decreases stages.len(),
{
    if stages.len() == 0 {
        0
    } else if stages.last().stage == stage {
        stages.len()
    } else {
        last_of_stage(stages.drop_last(), stage)
    }
}

/// Number of records up to the last one of a stage; zero where there is none.
fn find_last_of_stage(stages: &Vec<PipelineRow>, stage: &str) -> (r: usize)
    ensures
        r == last_of_stage(stage_views(stages@), stage@),
        r <= stages@.len(),
{
    let ghost all = stage_views(stages@);
    let mut n: usize = stages.len();
    assert(all.take(n as int) =~= all);
    while n > 0
        invariant
            n <= stages@.len(),
            all == stage_views(stages@),
            last_of_stage(all.take(n as int), stage@) == last_of_stage(all, stage@),
        decreases n,
    {
        proof {
            assert(all.take(n as int).last() == stages@[n - 1]@);
            assert(all.take(n as int).drop_last() =~= all.take(n - 1));
        }
        if same(stages[n - 1].stage.as_str(), stage) {
            return n;
        }
        n -= 1;
    }
    n
}

/// The payload of the event that hands a stage to its agent once more.
pub open spec fn retry_payload(
    run_id: Seq<char>,
    stage: Seq<char>,
    record: PipelineView,
    retry_count: u32,
) -> JsonTree {
    next_payload(
        run_id,
        stage,
        record.artifact_id,
        parsed_or(record.input_metadata, JsonTree::empty()),
    ).with("is_retry"@, JsonTree::Bool(true)).with(
        "retry_count"@,
        JsonTree::UInt((retry_count + 1) as u64),
    )
}

/// The steps with those at their end that retry a stage.
pub open spec fn with_retry(
    base: Seq<StepView>,
    run_id: Seq<char>,
    record: PipelineView,
    task: Option<TaskView>,
    retry_count: u32,
) -> Seq<StepView> {
    let stage = current_stage_of(task);
    let retried = base.push(StepView::RetryStage { id: record.id });
    let told = match task {
        Some(t) => retried.push(
            StepView::UpdateTask {
                task_id: t.id,
                status: Some("running"@),
                current_stage: None,
                summary: Some(
                    "Retrying "@ + stage + " (attempt "@ + decimal((retry_count + 2) as nat) + ")"@,
                ),
            },
        ).push(StepView::ShareTask { task_id: t.id }),
        None => retried,
    };
    match stage_named(stage) {
        Some(_) => told.push(
            StepView::Send {
                emission: room_event(
                    role_room_name(stage),
                    PIPELINE_NEXT@,
                    retry_payload(run_id, stage, record, retry_count),
                ),
            },
        ),
        None => told,
    }
}

/// The steps with those at their end that follow on the advice to retry: the stage
/// is retried where it has been retried less often than allowed, else the run is
/// aborted.
pub open spec fn with_retry_advice(
    base: Seq<StepView>,
    run_id: Seq<char>,
    task: Option<TaskView>,
    stages: Result<Seq<PipelineView>, Seq<char>>,
    retry_count: u32,
) -> Seq<StepView> {
    let stage = current_stage_of(task);
    if retry_count >= MAX_STAGE_RETRIES {
        with_abort(base, task_id_of(task), stage, "Max retries exceeded"@)
    } else {
        match stages {
            Ok(records) => {
                let n = last_of_stage(records, stage);
                if n > 0 {
                    with_retry(base, run_id, records[n - 1], task, retry_count)
                } else {
                    base
                }
            },
            Err(message) => base.push(StepView::Stop { message }),
        }
    }
}

/// What the records of the stages of a run hold, or the error that came in their
/// place.
pub open spec fn stages_result(stages: Result<&Vec<PipelineRow>, &str>) -> Result<
    Seq<PipelineView>,
    Seq<char>,
> {
    match stages {
        Ok(rows) => Ok(stage_views(rows@)),
        Err(message) => Err(message@),
    }
}

fn stage_of_task<'a>(task: Option<&'a TaskRow>) -> (r: &'a str)
    ensures
        r@ == current_stage_of(opt_task(task)),
{
    match task {
        Some(t) => t.current_stage.as_str(),
        None => "",
    }
}

fn put_retry(
    items: &mut Vec<Step>,
    run_id: &str,
    record: &PipelineRow,
    task: Option<&TaskRow>,
    retry_count: u32,
)
    requires
        retry_count < MAX_STAGE_RETRIES,
    ensures
        steps(final(items)@) == with_retry(
            steps(old(items)@),
            run_id@,
            record@,
            opt_task(task),
            retry_count,
        ),
{
    let stage = stage_of_task(task);
    put(items, Step::RetryStage { id: record.id.clone() });
    match task {
        Some(t) => {
            let attempt = decimal_text(retry_count as u64 + 2);
            let summary = concat5("Retrying ", stage, " (attempt ", attempt.as_str(), ")");
            put_update(items, t.id.as_str(), Some("running"), None, Some(summary.as_str()));
            put_share(items, t.id.as_str());
        },
        None => {},
    }
    match str_to_stage(stage) {
        Some(_) => {
            let metadata = parse_or_object(record.input_metadata.as_str());
            let payload = next_fields(run_id, stage, record.artifact_id.as_str(), &metadata).with(
                "is_retry",
                flag(true),
            ).with("retry_count", uint(retry_count as u64 + 1)).done();
            let room = role_room(stage);
            put_send(items, to_room(room.as_str(), PIPELINE_NEXT, payload));
        },
        None => {},
    }
}

fn put_retry_advice(
    items: &mut Vec<Step>,
    run_id: &str,
    task: Option<&TaskRow>,
    stages: Result<&Vec<PipelineRow>, &str>,
    retry_count: u32,
)
    ensures
        steps(final(items)@) == with_retry_advice(
            steps(old(items)@),
            run_id@,
            opt_task(task),
            stages_result(stages),
            retry_count,
        ),
{
    let stage = stage_of_task(task);
    if retry_count >= MAX_STAGE_RETRIES {
        abort_pipeline(items, id_of(task), stage, "Max retries exceeded");
        return;
    }
    match stages {
        Ok(rows) => {
            let n = find_last_of_stage(rows, stage);
            if n > 0 {
                assert(stage_views(rows@)[n - 1] == rows@[n - 1]@);
                put_retry(items, run_id, &rows[n - 1], task, retry_count);
            }
        },
        Err(message) => put(items, Step::Stop { message: message.to_string() }),
    }
}

/// The steps with those at their end that follow on the advice to divide a task.
pub open spec fn with_division(
    base: Seq<StepView>,
    response: RecoveryView,
    task: Option<TaskView>,
) -> Seq<StepView> {
    match task {
        Some(t) => {
            let divided = match response.params.get_items("subtasks"@) {
                Some(defs) => with_subtasks(base, defs, t.id, response.run_id, "evaluation"@),
                None => base,
            };
            divided.push(
                StepView::UpdateTask {
                    task_id: t.id,
                    status: Some("decomposed"@),
                    current_stage: None,
                    summary: Some("Task decomposed into subtasks after failure"@),
                },
            ).push(StepView::ShareTask { task_id: t.id })
        },
        None => base,
    }
}

fn put_division(items: &mut Vec<Step>, response: &RecoveryResponse, task: Option<&TaskRow>)
    ensures
        steps(final(items)@) == with_division(steps(old(items)@), response@, opt_task(task)),
{
    match task {
        Some(t) => {
            match get_items(&response.params, "subtasks") {
                Some(defs) => create_subtasks(
                    items,
                    t.id.as_str(),
                    defs,
                    response.run_id.as_str(),
                    "evaluation",
                ),
                None => {},
            }
            put_update(
                items,
                t.id.as_str(),
                Some("decomposed"),
                None,
                Some("Task decomposed into subtasks after failure"),
            );
            put_share(items, t.id.as_str());
        },
        None => {},
    }
}

/// The steps with those at their end that move a run on past a stage that is left
/// out.
pub open spec fn with_skip(
    base: Seq<StepView>,
    response: RecoveryView,
    task: Option<TaskView>,
) -> Seq<StepView> {
    let stage = current_stage_of(task);
    let logged = match task {
        Some(t) => base.push(
            log_step(
                t.id,
                "warn"@,
                "Stage "@ + stage + " skipped after failure"@,
                response.reasoning,
                ""@,
                stage,
            ),
        ),
        None => base,
    };
    match stage_named(stage) {
        Some(current) => match stage_after(current) {
            Some(next) => {
                let name = stage_name(next);
                let created = logged.push(
                    StepView::CreateStage {
                        run_id: response.run_id,
                        stage: name,
                        artifact_id: ""@,
                        input_metadata: compact_text(response.params),
                        context: "create next pipeline stage after skip"@,
                    },
                );
                let told = match task {
                    Some(t) => created.push(
                        StepView::UpdateTask {
                            task_id: t.id,
                            status: Some("running"@),
                            current_stage: Some(name),
                            summary: Some(progress_text(name)),
                        },
                    ).push(StepView::ShareTask { task_id: t.id }),
                    None => created,
                };
                told.push(
                    StepView::Send {
                        emission: room_event(
                            role_room_name(name),
                            PIPELINE_NEXT@,
                            next_payload(response.run_id, name, ""@, JsonTree::empty()),
                        ),
                    },
                )
            },
            None => match task {
                Some(t) => logged.push(
                    StepView::UpdateTask {
                        task_id: t.id,
                        status: Some("completed"@),
                        current_stage: None,
                        summary: Some("Pipeline completed (with skipped stage)"@),
                    },
                ).push(StepView::ShareTask { task_id: t.id }),
                None => logged,
            },
        },
        None => logged,
    }
}

fn put_skip(items: &mut Vec<Step>, response: &RecoveryResponse, task: Option<&TaskRow>)
    ensures
        steps(final(items)@) == with_skip(steps(old(items)@), response@, opt_task(task)),
{
    let stage = stage_of_task(task);
    match task {
        Some(t) => {
            let message = concat3("Stage ", stage, " skipped after failure");
            put_log(
                items,
                t.id.as_str(),
                "warn",
                message.as_str(),
                response.reasoning.as_str(),
                "",
                stage,
            );
        },
        None => {},
    }
    match str_to_stage(stage) {
        Some(current) => match next_stage(current) {
            Some(next) => {
                let name = stage_to_str(next);
                put(
                    items,
                    Step::CreateStage {
                        run_id: response.run_id.clone(),
                        stage: name.to_string(),
                        artifact_id: "".to_string(),
                        input_metadata: to_text(&response.params),
                        context: "create next pipeline stage after skip".to_string(),
                    },
                );
                match task {
                    Some(t) => {
                        let summary = progress(name);
                        put_update(
                            items,
                            t.id.as_str(),
                            Some("running"),
                            Some(name),
                            Some(summary.as_str()),
                        );
                        put_share(items, t.id.as_str());
                    },
                    None => {},
                }
                let payload = next_fields(response.run_id.as_str(), name, "", &object()).done();
                let room = stage_to_room(next);
                put_send(items, to_room(room.as_str(), PIPELINE_NEXT, payload));
            },
            None => match task {
                Some(t) => {
                    put_update(
                        items,
                        t.id.as_str(),
                        Some("completed"),
                        None,
                        Some("Pipeline completed (with skipped stage)"),
                    );
                    put_share(items, t.id.as_str());
                },
                None => {},
            },
        },
        None => {},
    }
}

/// Whether a stage may be left out after a failure.
pub open spec fn may_skip(stage: Seq<char>) -> bool {
    stage == "evaluation"@ || stage == "skill_manage"@
}

/// The steps that follow on the response to a request for recovery.
pub open spec fn recovery_steps(
    response: RecoveryView,
    task: Option<TaskView>,
    stages: Result<Seq<PipelineView>, Seq<char>>,
    retry_count: u32,
) -> Seq<StepView> {
    let stage = current_stage_of(task);
    let base = match task {
        Some(t) => Seq::<StepView>::empty().push(
            log_step(
                t.id,
                "info"@,
                "Recovery decision: "@ + response.action + " \u{2014} "@ + response.reasoning,
                compact_text(response.params),
                ""@,
                stage,
            ),
        ),
        None => Seq::empty(),
    };
    if response.action == "retry"@ {
        with_retry_advice(base, response.run_id, task, stages, retry_count)
    } else if response.action == "decompose"@ {
        with_division(base, response, task)
    } else if response.action == "skip"@ {
        if may_skip(stage) {
            with_skip(base, response, task)
        } else {
            with_abort(base, task_id_of(task), stage, "Skip not allowed for critical stage"@)
        }
    } else {
        with_abort(base, task_id_of(task), stage, response.reasoning)
    }
}

/// The steps that follow on the response to a request for recovery, given the task
/// of the run, the records of its stages and how often the stage was retried.
pub fn recovery_response_steps(
    response: &RecoveryResponse,
    task: Option<&TaskRow>,
    stages: Result<&Vec<PipelineRow>, &str>,
    retry_count: u32,
) -> (r: Vec<Step>)
    ensures
        steps(r@) == recovery_steps(
            response@,
            opt_task(task),
            stages_result(stages),
            retry_count,
        ),
{
    let stage = stage_of_task(task);
    let mut items = no_steps();
    match task {
        Some(t) => {
            let message = concat4(
                "Recovery decision: ",
                response.action.as_str(),
                " \u{2014} ",
                response.reasoning.as_str(),
            );
            let detail = to_text(&response.params);
            put_log(
                &mut items,
                t.id.as_str(),
                "info",
                message.as_str(),
                detail.as_str(),
                "",
                stage,
            );
        },
        None => {},
    }
    if same(response.action.as_str(), "retry") {
        put_retry_advice(&mut items, response.run_id.as_str(), task, stages, retry_count);
    } else if same(response.action.as_str(), "decompose") {
        put_division(&mut items, response, task);
    } else if same(response.action.as_str(), "skip") {
        if same(stage, "evaluation") || same(stage, "skill_manage") {
            put_skip(&mut items, response, task);
        } else {
            abort_pipeline(&mut items, id_of(task), stage, "Skip not allowed for critical stage");
        }
    } else {
        abort_pipeline(&mut items, id_of(task), stage, response.reasoning.as_str());
    }
    items
}

// Stages that have timed out.

/// The steps that follow on a stage that has timed out.
pub open spec fn timeout_steps(stage: PipelineView, task: Option<TaskView>) -> Seq<StepView> {
    let base = Seq::<StepView>::empty().push(
        StepView::UpdateStage {
            id: stage.id,
            status: "timed_out"@,
            agent_id: stage.agent_id,
            result: None,
            error: Some("stage timed out"@),
            context: None,
        },
    );
    match task {
        Some(t) => base.push(
            StepView::UpdateTask {
                task_id: t.id,
                status: Some("failed"@),
                current_stage: None,
                summary: Some("Timed out at "@ + stage.stage),
            },
        ).push(
            log_step(
                t.id,
                "warn"@,
                "Stage "@ + stage.stage + " timed out after "@ + decimal(
                    DEFAULT_STAGE_TIMEOUT_SECS as nat,
                ) + "s"@,
                ""@,
                stage.agent_id,
                stage.stage,
            ),
        ).push(StepView::ShareTask { task_id: t.id }).push(
            StepView::AnnounceLog { task_id: t.id },
        ),
        None => base,
    }
}

/// The steps that follow on a stage that has timed out: it is marked so, and the
/// task of its run has failed.
pub fn on_stage_timeout(stage: &PipelineRow, task: Option<&TaskRow>) -> (r: Vec<Step>)
    ensures
        steps(r@) == timeout_steps(stage@, opt_task(task)),
{
    let mut items = no_steps();
    put(
        &mut items,
        Step::UpdateStage {
            id: stage.id.clone(),
            status: "timed_out".to_string(),
            agent_id: stage.agent_id.clone(),
            result: None,
            error: Some("stage timed out".to_string()),
            context: None,
        },
    );
    match task {
        Some(t) => {
            let summary = concat2("Timed out at ", stage.stage.as_str());
            put_update(&mut items, t.id.as_str(), Some("failed"), None, Some(summary.as_str()));
            let secs = decimal_text(DEFAULT_STAGE_TIMEOUT_SECS as u64);
            let message = concat5(
                "Stage ",
                stage.stage.as_str(),
                " timed out after ",
                secs.as_str(),
                "s",
            );
            put_log(
                &mut items,
                t.id.as_str(),
                "warn",
                message.as_str(),
                "",
                stage.agent_id.as_str(),
                stage.stage.as_str(),
            );
            put_share(&mut items, t.id.as_str());
            put_announce(&mut items, t.id.as_str());
        },
        None => {},
    }
    items
}

// Requests that wait for an answer.

/// A request for recovery or decomposition that waits for an answer.
pub struct PendingRequest {
    pub run_id: String,
    pub task_id: String,
    pub request_type: String,
}

/// What a [`PendingRequest`] holds.
pub struct PendingView {
    pub run_id: Seq<char>,
    pub task_id: Seq<char>,
    pub request_type: Seq<char>,
}

impl View for PendingRequest {
    type V = PendingView;

    open spec fn view(&self) -> PendingView {
        PendingView {
            run_id: self.run_id@,
            task_id: self.task_id@,
            request_type: self.request_type@,
        }
    }
}

/// The coordinator of the pipeline: the requests that wait for an answer, by their
/// ids.
pub struct PipelineCoordinator {
    pending_requests: KeyedList<PendingRequest>,
}

impl View for PipelineCoordinator {
    type V = Map<Seq<char>, PendingView>;

    closed spec fn view(&self) -> Map<Seq<char>, PendingView> {
        self.pending_requests@.map_values(|request: PendingRequest| request@)
    }
}

/// The steps that follow on the result of a decomposition.
pub open spec fn decomposition_steps(
    should_decompose: bool,
    subtasks: Seq<JsonTree>,
    reasoning: Seq<char>,
    task: Option<TaskView>,
) -> Seq<StepView> {
    match task {
        Some(t) => if should_decompose && subtasks.len() > 0 {
            with_subtasks(
                Seq::empty(),
                subtasks,
                t.id,
                t.run_id,
                "evaluation"@,
            ).push(
                StepView::UpdateTask {
                    task_id: t.id,
                    status: Some("decomposed"@),
                    current_stage: None,
                    summary: Some("Task decomposed: "@ + reasoning),
                },
            ).push(StepView::ShareTask { task_id: t.id }).push(
                log_step(
                    t.id,
                    "info"@,
                    "Task decomposed into "@ + decimal(subtasks.len()) + " subtasks: "@ + reasoning,
                    ""@,
                    ""@,
                    ""@,
                ),
            )
        } else {
            Seq::empty()
        },
        None => Seq::empty(),
    }
}

/// The payload of a request for decomposition.
pub open spec fn decompose_payload(task: TaskView, trigger: Seq<char>, request_id: Seq<char>) -> JsonTree {
    JsonTree::empty().text("request_id"@, request_id).text("run_id"@, task.run_id).text(
        "task_id"@,
        task.id,
    ).text("task_type"@, task.task_type).text("summary"@, task.summary).with(
        "payload"@,
        parsed_or(task.payload, JsonTree::Null),
    ).with("context"@, JsonTree::empty()).text("trigger"@, trigger)
}

/// The steps that follow on an answer: none where no request waits for it.
pub open spec fn answered_steps(
    pending: Map<Seq<char>, PendingView>,
    request_id: Seq<char>,
    items: Seq<StepView>,
) -> Seq<StepView> {
    if pending.dom().contains(request_id) {
        items
    } else {
        Seq::empty()
    }
}

impl PipelineCoordinator {
    /// Whether each request stands there once.
    pub closed spec fn wf(self) -> bool {
        self.pending_requests.wf()
    }

    /// A coordinator without requests.
    pub fn new() -> (r: PipelineCoordinator)
        ensures
            r.wf(),
            r@ == Map::<Seq<char>, PendingView>::empty(),
    {
        let r = PipelineCoordinator { pending_requests: KeyedList::new() };
        assert(r@ =~= Map::<Seq<char>, PendingView>::empty());
        r
    }

    /// Notes that a request waits for an answer.
    fn wait_for(&mut self, request_id: &str, run_id: &str, task_id: &str, request_type: &str)
        requires
            old(self).wf(),
        ensures
            final(self).wf(),
            final(self)@ == old(self)@.insert(
                request_id@,
                (PendingView {
                    run_id: run_id@,
                    task_id: task_id@,
                    request_type: request_type@,
                }),
            ),
    {
        let request = PendingRequest {
            run_id: run_id.to_string(),
            task_id: task_id.to_string(),
            request_type: request_type.to_string(),
        };
        let ghost before = self.pending_requests@;
        self.pending_requests.insert(request_id.to_string(), request);
        assert(self@ =~= before.map_values(|request: PendingRequest| request@).insert(
            request_id@,
            request@,
        ));
    }

    /// Takes out a request, so that it is answered once; says whether it waited.
    pub fn forget(&mut self, request_id: &str) -> (r: bool)
        requires
            old(self).wf(),
        ensures
            final(self).wf(),
            final(self)@ == old(self)@.remove(request_id@),
            r == old(self)@.dom().contains(request_id@),
    {
        let ghost before = self.pending_requests@;
        let taken = self.pending_requests.remove(request_id);
        assert(self@ =~= before.map_values(|request: PendingRequest| request@).remove(request_id@));
        taken.is_some()
    }

    /// Handles the report of a stage: moves the run on, completes it, or asks the
    /// agent that evaluates what to do about a failure. A report of a stage that is
    /// not running is passed over.
    pub fn on_stage_result(
        &mut self,
        report: &StageReport,
        stages: &Vec<PipelineRow>,
        task: Option<&TaskRow>,
        retry_count: u32,
    ) -> (r: Vec<Step>)
        requires
            old(self).wf(),
        ensures
            final(self).wf(),
            asks_for_recovery(report@, stage_views(stages@)) ==> exists|id: Seq<char>| #[trigger]
                is_uuid(id) && steps(r@) == result_steps(
                    report@,
                    stage_views(stages@),
                    opt_task(task),
                    retry_count,
                    id,
                ) && final(self)@ == old(self)@.insert(
                    id,
                    (PendingView {
                        run_id: report@.run_id,
                        task_id: text_or(task_id_of(opt_task(task)), ""@),
                        request_type: "recovery"@,
                    }),
                ),
            !asks_for_recovery(report@, stage_views(stages@)) ==> final(self)@ == old(self)@ && steps(
                r@,
            ) == result_steps(
                report@,
                stage_views(stages@),
                opt_task(task),
                retry_count,
                ""@,
            ),
    {
        let at = find_running_stage(stages, stage_to_str(report.stage));
        if at < stages.len() && same(report.status.as_str(), "failed") {
            let request_id = new_id();
            let task_id = match task {
                Some(t) => t.id.as_str(),
                None => "",
            };
            self.wait_for(request_id.as_str(), report.run_id.as_str(), task_id, "recovery");
            assert(is_uuid(request_id@));
            stage_result_steps(report, stages, task, retry_count, request_id.as_str())
        } else {
            stage_result_steps(report, stages, task, retry_count, "")
        }
    }

    /// Handles the response to a request for recovery. Only the first response to a
    /// request counts.
    pub fn on_recovery_response(
        &mut self,
        request_id: &str,
        response: &RecoveryResponse,
        task: Option<&TaskRow>,
        stages: Result<&Vec<PipelineRow>, &str>,
        retry_count: u32,
    ) -> (r: Vec<Step>)
        requires
            old(self).wf(),
        ensures
            final(self).wf(),
            final(self)@ == old(self)@.remove(request_id@),
            steps(r@) == answered_steps(
                old(self)@,
                request_id@,
                recovery_steps(response@, opt_task(task), stages_result(stages), retry_count),
            ),
    {
        if !self.forget(request_id) {
            return no_steps();
        }
        recovery_response_steps(response, task, stages, retry_count)
    }

    /// Asks the agent that evaluates to divide a task: the id of the request, which
    /// then waits for an answer, and the event to send.
    pub fn request_decomposition(&mut self, task: &TaskRow, trigger: &str) -> (r: (String, Emission))
        requires
            old(self).wf(),
        ensures
            final(self).wf(),
            is_uuid(r.0@),
            final(self)@ == old(self)@.insert(
                r.0@,
                (PendingView {
                    run_id: task@.run_id,
                    task_id: task@.id,
                    request_type: "decompose"@,
                }),
            ),
            r.1@ == room_event(
                ROOM_EVALUATION@,
                TASK_DECOMPOSE@,
                decompose_payload(task@, trigger@, r.0@),
            ),
    {
        let request_id = new_id();
        self.wait_for(request_id.as_str(), task.run_id.as_str(), task.id.as_str(), "decompose");
        let payload = Fields::new().text("request_id", request_id.as_str()).text(
            "run_id",
            task.run_id.as_str(),
        ).text("task_id", task.id.as_str()).text("task_type", task.task_type.as_str()).text(
            "summary",
            task.summary.as_str(),
        ).with("payload", parse_or_null(task.payload.as_str())).with("context", object()).text(
            "trigger",
            trigger,
        ).done();
        (request_id, to_room(ROOM_EVALUATION, TASK_DECOMPOSE, payload))
    }

    /// Handles the result of a decomposition. Only the first result of a request
    /// counts.
    pub fn on_decompose_result(
        &mut self,
        request_id: &str,
        should_decompose: bool,
        subtasks: &Vec<Value>,
        reasoning: &str,
        task: Option<&TaskRow>,
    ) -> (r: Vec<Step>)
        requires
            old(self).wf(),
        ensures
            final(self).wf(),
            final(self)@ == old(self)@.remove(request_id@),
            steps(r@) == answered_steps(
                old(self)@,
                request_id@,
                decomposition_steps(should_decompose, trees(subtasks@), reasoning@, opt_task(task)),
            ),
    {
        let mut items = no_steps();
        if !self.forget(request_id) {
            return items;
        }
        match task {
            Some(t) => if should_decompose && subtasks.len() > 0 {
                create_subtasks(
                    &mut items,
                    t.id.as_str(),
                    subtasks,
                    t.run_id.as_str(),
                    "evaluation",
                );
                let summary = concat2("Task decomposed: ", reasoning);
                put_update(
                    &mut items,
                    t.id.as_str(),
                    Some("decomposed"),
                    None,
                    Some(summary.as_str()),
                );
                put_share(&mut items, t.id.as_str());
                let count = decimal_text(subtasks.len() as u64);
                let message = concat4(
                    "Task decomposed into ",
                    count.as_str(),
                    " subtasks: ",
                    reasoning,
                );
                put_log(&mut items, t.id.as_str(), "info", message.as_str(), "", "", "");
            },
            None => {},
        }
        items
    }
}

// Installing a new version of a component.

/// The home of the installation.
pub fn evo_home(configured: Option<&str>, home: Option<&str>) -> (r: String)
    ensures
        r@ == expanded(text_or(opt_str(configured), "~/.evo-agents"@), opt_str(home)),
{
    let raw = match configured {
        Some(path) => path,
        None => "~/.evo-agents",
    };
    shellexpand(raw, home)
}

/// Where the script that installs a new version may stand.
pub open spec fn update_scripts(home: Seq<char>, agents_dir: Option<Seq<char>>) -> Seq<Seq<char>> {
    seq![
        joined_path(home, "update.sh"@),
        joined_path(home, "bin/update.sh"@),
        joined_path(text_or(agents_dir, ".."@), "evo-king/update.sh"@),
    ]
}

/// Where the script that installs a new version may stand, the first place first.
pub fn update_candidates(home: &str, agents_dir: Option<&str>) -> (r: Vec<String>)
    ensures
        texts(r@) == update_scripts(home@, opt_str(agents_dir)),
{
    let dir = match agents_dir {
        Some(path) => path,
        None => "..",
    };
    let r = vec![
        join_path(home, "update.sh"),
        join_path(home, "bin/update.sh"),
        join_path(dir, "evo-king/update.sh"),
    ];
    assert(texts(r@) =~= update_scripts(home@, opt_str(agents_dir)));
    r
}

/// How the script that installs a new version is run.
pub struct UpdateCommand {
    pub program: String,
    pub args: Vec<String>,
    pub evo_home: String,
}

/// Position of the first place where the script is, or the number of places.
pub open spec fn first_present(present: Seq<bool>) -> nat
    decreases present.len(),
{
    if present.len() == 0 || present[0] {
        0
    } else {
        1 + first_present(present.drop_first())
    }
}

/// How a new version is installed, given which of the places hold the script; by
/// nothing where none does.
pub fn trigger_update(
    candidates: &Vec<String>,
    present: &Vec<bool>,
    component: &str,
    new_version: &str,
    home: &str,
) -> (r: Option<UpdateCommand>)
    requires
        candidates@.len() == present@.len(),
    ensures
        match r {
            Some(command) => {
                let at = first_present(present@);
                &&& at < present@.len()
                &&& command.program@ == "bash"@
                &&& texts(command.args@) == seq![candidates@[at as int]@, component@, new_version@]
                &&& command.evo_home@ == home@
            },
            None => first_present(present@) == present@.len(),
        },
{
    let mut i: usize = 0;
    assert(present@.skip(0) =~= present@);
    while i < present.len()
        invariant
            i <= present@.len(),
            candidates@.len() == present@.len(),
            i + first_present(present@.skip(i as int)) == first_present(present@),
        decreases present@.len() - i,
    {
        let ghost rest = present@.skip(i as int);
        if present[i] {
            let args = vec![
                candidates[i].clone(),
                component.to_string(),
                new_version.to_string(),
            ];
            assert(texts(args@) =~= seq![candidates@[i as int]@, component@, new_version@]);
            return Some(
                UpdateCommand { program: "bash".to_string(), args, evo_home: home.to_string() },
            );
        }
        assert(rest.drop_first() =~= present@.skip(i + 1));
        i += 1;
    }
    None
}

/// The error of a script that did not succeed: its exit code, minus one where it
/// has none, and what it wrote.
pub fn update_error(code: Option<i32>, stderr: &str) -> (r: String)
    ensures
        r@ == "update.sh exited with code "@ + decimal_int(
            match code {
                Some(n) => n as int,
                None => -1,
            },
        ) + ": "@ + stderr@,
{
    let n: i64 = match code {
        Some(n) => n as i64,
        None => -1,
    };
    let number = decimal_int_text(n);
    concat4("update.sh exited with code ", number.as_str(), ": ", stderr)
}

// Queries.

impl PipelineCoordinator {
    /// Lists the stages of all runs, newest first.
    pub fn list_runs(&self, limit: u32, status_filter: Option<&str>) -> (r: Statement)
        ensures
            r@ == list_pipeline_runs_statement(limit, opt_str(status_filter)),
    {
        list_pipeline_runs(limit, status_filter)
    }

    /// Lists the stages of a run, oldest first.
    pub fn get_run_stages(&self, run_id: &str) -> (r: Statement)
        ensures
            r@ == pipeline_query(
                " FROM pipeline_runs WHERE run_id = ?1 ORDER BY created_at ASC"@,
            ).text(run_id@),
    {
        get_pipeline_run_stages(run_id)
    }
}

// What holds of every plan.

/// Whether a step hands a stage to an agent.
pub open spec fn hands_over(step: StepView) -> bool {
    step is Send && step->Send_emission.event == PIPELINE_NEXT@
}

/// Number of steps that hand a stage to an agent.
pub open spec fn handovers(items: Seq<StepView>) -> nat
    decreases items.len(),
{
    if items.len() == 0 {
        0
    } else {
        handovers(items.drop_last()) + (if hands_over(items.last()) {
            1nat
        } else {
            0nat
        })
    }
}

/// Number of steps that create the record of a stage.
pub open spec fn created_stages(items: Seq<StepView>) -> nat
    decreases items.len(),
{
    if items.len() == 0 {
        0
    } else {
        created_stages(items.drop_last()) + (if items.last() is CreateStage {
            1nat
        } else {
            0nat
        })
    }
}

/// Number of steps that set a stage running once more.
pub open spec fn retried_stages(items: Seq<StepView>) -> nat
    decreases items.len(),
{
    if items.len() == 0 {
        0
    } else {
        retried_stages(items.drop_last()) + (if items.last() is RetryStage {
            1nat
        } else {
            0nat
        })
    }
}

broadcast proof fn lemma_push_counts(items: Seq<StepView>, item: StepView)
    ensures
        handovers(#[trigger] items.push(item)) == handovers(items) + (if hands_over(item) {
            1nat
        } else {
            0nat
        }),
        created_stages(items.push(item)) == created_stages(items) + (if item is CreateStage {
            1nat
        } else {
            0nat
        }),
        retried_stages(items.push(item)) == retried_stages(items) + (if item is RetryStage {
            1nat
        } else {
            0nat
        }),
{
    assert(items.push(item).drop_last() =~= items);
}

proof fn lemma_subtask_counts(
    base: Seq<StepView>,
    defs: Seq<JsonTree>,
    parent_id: Seq<char>,
    run_id: Seq<char>,
    agent_id: Seq<char>,
)
    ensures
        handovers(with_subtasks(base, defs, parent_id, run_id, agent_id)) == handovers(base),
        created_stages(with_subtasks(base, defs, parent_id, run_id, agent_id)) == created_stages(base),
        retried_stages(with_subtasks(base, defs, parent_id, run_id, agent_id)) == retried_stages(base),
    decreases defs.len(),
{
    if defs.len() > 0 {
        lemma_subtask_counts(base, defs.drop_last(), parent_id, run_id, agent_id);
        broadcast use lemma_push_counts;
    }
}

proof fn lemma_dashboard_is_no_handover()
    ensures
        DASHBOARD_EVENT@ != PIPELINE_NEXT@,
        TASK_CHANGED@ != PIPELINE_NEXT@,
        TASK_INVITE@ != PIPELINE_NEXT@,
{
    reveal_strlit("dashboard:event");
    reveal_strlit("pipeline:next");
    reveal_strlit("task:changed");
    reveal_strlit("task:invite");
    assert("dashboard:event"@[0] == 'd' && "pipeline:next"@[0] == 'p');
    assert("task:changed"@[0] == 't' && "task:invite"@[0] == 't');
}

/// A run is started by exactly one hand-over, of the first stage.
pub proof fn law_start_hands_over_once(stage: PipelineView, task: TaskView, trigger: JsonTree)
    ensures
        handovers(start_steps(stage, task, trigger)) == 1,
        start_steps(stage, task, trigger).contains(
            (StepView::Send {
                emission: room_event(
                    role_room_name("learning"@),
                    PIPELINE_NEXT@,
                    next_payload(stage.run_id, "learning"@, ""@, trigger),
                ),
            }),
        ),
{
    broadcast use lemma_push_counts;

    lemma_dashboard_is_no_handover();
    assert(handovers(Seq::empty()) == 0);
    let all = start_steps(stage, task, trigger);
    assert(all[6] == (StepView::Send {
        emission: room_event(
            role_room_name("learning"@),
            PIPELINE_NEXT@,
            next_payload(stage.run_id, "learning"@, ""@, trigger),
        ),
    }));
}

/// A completed stage that is not the last moves its run on by exactly one new stage
/// record and one hand-over, to the room of the next stage.
pub proof fn law_success_moves_on_once(
    report: ReportView,
    stages: Seq<PipelineView>,
    task: Option<TaskView>,
    retry_count: u32,
    request_id: Seq<char>,
    next: PipelineStage,
)
    requires
        report.status == "completed"@,
        running_stage(stages, stage_name(report.stage)) < stages.len(),
        stage_after(report.stage) == Some(next),
    ensures
        ({
            let all = result_steps(report, stages, task, retry_count, request_id);
            &&& handovers(all) == 1
            &&& created_stages(all) == 1
            &&& retried_stages(all) == 0
            &&& all.contains(
                (StepView::Send {
                    emission: room_event(
                        role_room_name(stage_name(next)),
                        PIPELINE_NEXT@,
                        next_payload(
                            report.run_id,
                            stage_name(next),
                            report.artifact_id,
                            report.output,
                        ),
                    ),
                }),
            )
        }),
{
    broadcast use lemma_push_counts;

    lemma_dashboard_is_no_handover();
    lemma_status_names();
    assert(handovers(Seq::empty()) == 0);
    let at = running_stage(stages, stage_name(report.stage));
    let base = Seq::<StepView>::empty().push(outcome_step(report, stages[at as int].id));
    let logged = match task {
        Some(t) => with_memory(base, report, task).push(
            log_step(
                t.id,
                "info"@,
                "Stage "@ + stage_name(report.stage) + " completed"@,
                compact_text(report.output),
                report.agent_id,
                stage_name(report.stage),
            ),
        ).push(StepView::AnnounceLog { task_id: t.id }),
        None => with_memory(base, report, task),
    };
    match (task, report.output.get_items("subtasks"@)) {
        (Some(t), Some(defs)) => {
            lemma_subtask_counts(logged, defs, t.id, report.run_id, report.agent_id);
        },
        _ => {},
    }
    let all = result_steps(report, stages, task, retry_count, request_id);
    assert(all[all.len() - 2] == (StepView::Send {
        emission: room_event(
            role_room_name(stage_name(next)),
            PIPELINE_NEXT@,
            next_payload(report.run_id, stage_name(next), report.artifact_id, report.output),
        ),
    }));
}

/// The names of the outcomes of a stage are distinct.
proof fn lemma_status_names()
    ensures
        "failed"@ != "completed"@,
{
    reveal_strlit("failed");
    reveal_strlit("completed");
    assert("failed"@[0] == 'f' && "completed"@[0] == 'c');
}

/// A completed last stage ends its run: nothing is handed over.
pub proof fn law_last_stage_ends_the_run(
    report: ReportView,
    stages: Seq<PipelineView>,
    task: Option<TaskView>,
    retry_count: u32,
    request_id: Seq<char>,
)
    requires
        report.status == "completed"@,
        stage_after(report.stage) is None,
    ensures
        handovers(result_steps(report, stages, task, retry_count, request_id)) == 0,
        created_stages(result_steps(report, stages, task, retry_count, request_id)) == 0,
{
    broadcast use lemma_push_counts;

    lemma_status_names();
    assert(handovers(Seq::empty()) == 0);
}

/// A stage that did not complete is followed by nothing: no stage record and no
/// hand-over.
pub proof fn law_no_move_without_success(
    report: ReportView,
    stages: Seq<PipelineView>,
    task: Option<TaskView>,
    retry_count: u32,
    request_id: Seq<char>,
)
    requires
        report.status != "completed"@ || running_stage(stages, stage_name(report.stage))
            >= stages.len(),
    ensures
        handovers(result_steps(report, stages, task, retry_count, request_id)) == 0,
        created_stages(result_steps(report, stages, task, retry_count, request_id)) == 0,
        retried_stages(result_steps(report, stages, task, retry_count, request_id)) == 0,
{
    broadcast use lemma_push_counts;

    assert(handovers(Seq::empty()) == 0);
}

proof fn lemma_actions()
    ensures
        "retry"@ != "decompose"@,
        "retry"@ != "skip"@,
        "decompose"@ != "skip"@,
{
    reveal_strlit("retry");
    reveal_strlit("decompose");
    reveal_strlit("skip");
    assert("retry"@[0] == 'r' && "decompose"@[0] == 'd' && "skip"@[0] == 's');
}

/// A stage is retried only where that is advised, and at most three times.
pub proof fn law_retries_are_bounded(
    response: RecoveryView,
    task: Option<TaskView>,
    stages: Result<Seq<PipelineView>, Seq<char>>,
    retry_count: u32,
)
    ensures
        retried_stages(recovery_steps(response, task, stages, retry_count)) <= 1,
        retried_stages(recovery_steps(response, task, stages, retry_count)) == 1
            ==> response.action == "retry"@ && retry_count < 3,
{
    broadcast use lemma_push_counts;

    lemma_actions();
    lemma_recovery_base(response, task, stages, retry_count);
}

/// A run moves on past a failed stage only where leaving it out is advised and the
/// stage is one of the last two.
pub proof fn law_only_late_stages_are_skipped(
    response: RecoveryView,
    task: Option<TaskView>,
    stages: Result<Seq<PipelineView>, Seq<char>>,
    retry_count: u32,
)
    ensures
        created_stages(recovery_steps(response, task, stages, retry_count)) <= 1,
        created_stages(recovery_steps(response, task, stages, retry_count)) == 1
            ==> response.action == "skip"@ && may_skip(current_stage_of(task)),
{
    broadcast use lemma_push_counts;

    lemma_actions();
    lemma_recovery_base(response, task, stages, retry_count);
}

/// The response to a request for recovery hands over at most one stage, and none
/// where the run is aborted or the task divided.
pub proof fn law_recovery_hands_over_at_most_once(
    response: RecoveryView,
    task: Option<TaskView>,
    stages: Result<Seq<PipelineView>, Seq<char>>,
    retry_count: u32,
)
    ensures
        handovers(recovery_steps(response, task, stages, retry_count)) <= 1,
        handovers(recovery_steps(response, task, stages, retry_count)) == 1 ==> response.action
            == "retry"@ || response.action == "skip"@,
{
    broadcast use lemma_push_counts;

    lemma_actions();
    lemma_recovery_base(response, task, stages, retry_count);
}

proof fn lemma_recovery_base(
    response: RecoveryView,
    task: Option<TaskView>,
    stages: Result<Seq<PipelineView>, Seq<char>>,
    retry_count: u32,
)
    ensures
        ({
            let all = recovery_steps(response, task, stages, retry_count);
            &&& handovers(all) <= 1
            &&& created_stages(all) <= 1
            &&& retried_stages(all) <= 1
            &&& response.action == "decompose"@ ==> handovers(all) == 0 && created_stages(all) == 0
                && retried_stages(all) == 0
        }),
{
    broadcast use lemma_push_counts;

    lemma_actions();
    assert(handovers(Seq::empty()) == 0);
    match task {
        Some(t) => {
            let base = Seq::<StepView>::empty().push(
                log_step(
                    t.id,
                    "info"@,
                    "Recovery decision: "@ + response.action + " \u{2014} "@ + response.reasoning,
                    compact_text(response.params),
                    ""@,
                    t.current_stage,
                ),
            );
            match response.params.get_items("subtasks"@) {
                Some(defs) => {
                    lemma_subtask_counts(base, defs, t.id, response.run_id, "evaluation"@);
                },
                None => {},
            }
        },
        None => {},
    }
}

/// Once a response to a request was handled, no further one to it has any effect.
pub proof fn law_second_response_is_ignored(
    pending: Map<Seq<char>, PendingView>,
    request_id: Seq<char>,
    response: RecoveryView,
    task: Option<TaskView>,
    stages: Result<Seq<PipelineView>, Seq<char>>,
    retry_count: u32,
)
    ensures
        answered_steps(
            pending.remove(request_id),
            request_id,
            recovery_steps(response, task, stages, retry_count),
        ) == Seq::<StepView>::empty(),
        pending.remove(request_id).remove(request_id) == pending.remove(request_id),
{
    assert(pending.remove(request_id).remove(request_id) =~= pending.remove(request_id));
}

} // verus!
