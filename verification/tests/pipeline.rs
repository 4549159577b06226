use evo_king::events::{Emission, Target};
use evo_king::pipeline_coordinator::{
    PipelineCoordinator, PipelineStage, RecoveryResponse, StageReport, abort_pipeline, evo_home,
    extract_stage_memory, find_running_stage, next_stage, on_stage_timeout, recovery_response_steps,
    stage_result_steps, stage_summary, stage_to_room, stage_to_str, str_to_stage, trigger_update,
    update_candidates, update_error,
};
use evo_king::steps::{
    Failure, LogEntry, Step, Subtask, announce_log, announce_task, create_subtask, on_failure,
    remember_stage,
};
use evo_king::task_db::{PipelineRow, TaskLogRow, TaskRow};
use serde_json::Value;

fn json(text: &str) -> Value {
    serde_json::from_str(text).unwrap()
}

fn stage_row(id: &str, stage: &str, status: &str) -> PipelineRow {
    PipelineRow {
        id: id.to_string(),
        run_id: "r1".to_string(),
        stage: stage.to_string(),
        artifact_id: "art".to_string(),
        status: status.to_string(),
        agent_id: "ag".to_string(),
        result: None,
        error: None,
        created_at: "t0".to_string(),
        updated_at: "t0".to_string(),
        input_metadata: "{\"in\":1}".to_string(),
    }
}

fn task_row(stage: &str) -> TaskRow {
    TaskRow {
        id: "t1".to_string(),
        task_type: "pipeline".to_string(),
        status: "running".to_string(),
        agent_id: String::new(),
        payload: "{}".to_string(),
        run_id: "r1".to_string(),
        current_stage: stage.to_string(),
        summary: "sum".to_string(),
        parent_id: String::new(),
        created_at: "t0".to_string(),
        updated_at: "t0".to_string(),
    }
}

fn report(stage: PipelineStage, status: &str, output: &str) -> StageReport {
    StageReport {
        run_id: "r1".to_string(),
        stage,
        agent_id: "ag".to_string(),
        status: status.to_string(),
        artifact_id: "art".to_string(),
        output: json(output),
        error: None,
    }
}

fn room(emission: &Emission) -> &str {
    match &emission.target {
        Target::Everyone => "*",
        Target::Room(room) => room,
        Target::Peers(room) => room,
    }
}

fn kind(step: &Step) -> String {
    match step {
        Step::Execute { context, .. } => format!("execute {context}"),
        Step::RecordLog { entry } => format!("log {}: {}", entry.level, entry.message),
        Step::AnnounceLog { .. } => "announce".to_string(),
        Step::UpdateTask { status, current_stage, summary, .. } => format!(
            "task {} {} {}",
            status.as_deref().unwrap_or("-"),
            current_stage.as_deref().unwrap_or("-"),
            summary.as_deref().unwrap_or("-")
        ),
        Step::ShareTask { .. } => "share".to_string(),
        Step::UpdateStage { id, status, .. } => format!("stage {id} {status}"),
        Step::CreateStage { stage, .. } => format!("create {stage}"),
        Step::RetryStage { id } => format!("retry {id}"),
        Step::StoreMemory { memory } => format!("memory {}", memory.key),
        Step::CreateSubtask { subtask } => format!("subtask {}", subtask.summary),
        Step::Send { emission } => format!("send {} {}", room(emission), emission.event),
        Step::AskForRecovery { emission, .. } => format!("ask {} {}", room(emission), emission.event),
        Step::StartUpdate { component, new_version, .. } => format!("update {component} {new_version}"),
        Step::Stop { message } => format!("stop {message}"),
    }
}

fn kinds(steps: &[Step]) -> Vec<String> {
    steps.iter().map(kind).collect()
}

#[test]
fn five_stages_in_order() {
    let mut stage = PipelineStage::Learning;
    let mut names = vec![stage_to_str(stage)];
    while let Some(next) = next_stage(stage) {
        stage = next;
        names.push(stage_to_str(stage));
    }
    assert_eq!(names, vec!["learning", "building", "pre_load", "evaluation", "skill_manage"]);
    for name in &names {
        assert_eq!(stage_to_str(str_to_stage(name).unwrap()), *name);
    }
    assert!(str_to_stage("update").is_none());
    assert_eq!(stage_to_room(PipelineStage::PreLoad), "role:pre_load");
    assert_eq!(stage_summary("building"), "Packaging skill");
    assert_eq!(stage_summary("other"), "Processing");
}

#[test]
fn runs_start_with_learning() {
    let coordinator = PipelineCoordinator::new();
    let run = coordinator.start_run(&json(r#""manual""#));
    assert_eq!(run.stage.stage, "learning");
    assert_eq!(run.stage.status, "running");
    assert_eq!(run.stage.input_metadata, r#""manual""#);
    assert_eq!(run.task.payload, r#"{"trigger":"manual"}"#);
    assert_eq!(run.task.run_id, run.run_id);
    assert_eq!(run.task.summary, "learning \u{2014} Discovering skills");
    assert_eq!(
        kinds(&run.steps),
        vec![
            "execute create initial pipeline stage",
            "execute create pipeline task",
            "log info: Pipeline started",
            "send dashboard task:changed",
            "announce",
            "send kernel task:invite",
            "send role:learning pipeline:next",
            "send dashboard dashboard:event",
        ]
    );
    match &run.steps[6] {
        Step::Send { emission } => {
            assert_eq!(emission.payload["run_id"], Value::String(run.run_id.clone()));
            assert_eq!(emission.payload["stage"], json(r#""learning""#));
        }
        _ => panic!("no hand-over"),
    }
    assert!(coordinator.list_runs(3, None).sql.contains("FROM pipeline_runs"));
    assert!(coordinator.get_run_stages("r").sql.ends_with("ORDER BY created_at ASC"));
}

#[test]
fn completed_stage_hands_over() {
    let stages = vec![stage_row("s0", "learning", "completed"), stage_row("s1", "building", "running")];
    assert_eq!(find_running_stage(&stages, "building"), 1);
    let mut coordinator = PipelineCoordinator::new();
    let steps = coordinator.on_stage_result(
        &report(PipelineStage::Building, "completed", r#"{"built":true}"#),
        &stages,
        Some(&task_row("building")),
        0,
    );
    let seen = kinds(&steps);
    assert_eq!(seen[0], "stage s1 completed");
    assert!(seen[1].starts_with("memory "));
    assert_eq!(
        seen[2..].to_vec(),
        vec![
            "log info: Stage building completed",
            "announce",
            "create pre_load",
            "task - pre_load pre_load \u{2014} Checking endpoints",
            "log info: Stage pre_load started",
            "share",
            "announce",
            "send role:pre_load pipeline:next",
            "send dashboard dashboard:event",
        ]
    );
}

#[test]
fn reports_of_other_stages_are_ignored() {
    let stages = vec![stage_row("s0", "learning", "completed")];
    let mut coordinator = PipelineCoordinator::new();
    let steps = coordinator.on_stage_result(
        &report(PipelineStage::Learning, "completed", "{}"),
        &stages,
        None,
        0,
    );
    assert!(steps.is_empty());
    let stages = vec![stage_row("s0", "learning", "running")];
    let steps = coordinator.on_stage_result(
        &report(PipelineStage::Learning, "working", "{}"),
        &stages,
        None,
        0,
    );
    assert_eq!(kinds(&steps), vec!["stage s0 working"]);
}

#[test]
fn last_stage_completes_the_run_and_may_update() {
    let stages = vec![stage_row("s4", "skill_manage", "running")];
    let output = r#"{"build_type":"self_upgrade","action":"activated","component":"evo-king"}"#;
    let steps = stage_result_steps(
        &report(PipelineStage::SkillManage, "completed", output),
        &stages,
        Some(&task_row("skill_manage")),
        0,
        "",
    );
    let seen = kinds(&steps);
    assert!(seen.contains(&"task completed - Pipeline completed successfully".to_string()));
    assert_eq!(seen.last().unwrap(), "update evo-king v0.0.0");
    let plain = stage_result_steps(
        &report(PipelineStage::SkillManage, "completed", "{}"),
        &stages,
        None,
        0,
        "",
    );
    assert!(!kinds(&plain).iter().any(|k| k.starts_with("update")));
}

#[test]
fn evaluation_may_divide_the_task() {
    let stages = vec![stage_row("s3", "evaluation", "running")];
    let output = r#"{"subtasks":[{"summary":"one"},{"task_type":"x"}]}"#;
    let steps = stage_result_steps(
        &report(PipelineStage::Evaluation, "completed", output),
        &stages,
        Some(&task_row("evaluation")),
        0,
        "",
    );
    let seen = kinds(&steps);
    assert!(seen.contains(&"subtask one".to_string()));
    assert!(seen.contains(&"subtask Subtask 2".to_string()));
    let subtask = Subtask {
        task_type: "subtask".to_string(),
        payload: "{}".to_string(),
        run_id: "r1".to_string(),
        summary: "one".to_string(),
        parent_id: "t1".to_string(),
        agent_id: "ag".to_string(),
    };
    let work = create_subtask(&subtask);
    assert_eq!((work.task.status.as_str(), work.task.parent_id.as_str()), ("pending", "t1"));
    assert_eq!(work.entry.message, "Subtask created: one");
    assert_eq!(work.entry.detail, format!("{{\"subtask_id\":\"{}\"}}", work.task.id));
    assert_eq!(work.entry.stage, "evaluation");
}

#[test]
fn failure_asks_for_recovery_once() {
    let stages = vec![stage_row("s1", "building", "running")];
    let mut coordinator = PipelineCoordinator::new();
    let mut failed = report(PipelineStage::Building, "failed", "{}");
    failed.error = Some("no compiler".to_string());
    let steps = coordinator.on_stage_result(&failed, &stages, Some(&task_row("building")), 2);
    let seen = kinds(&steps);
    assert_eq!(seen[0], "stage s1 failed");
    assert!(seen.contains(&"log error: Stage building failed: no compiler".to_string()));
    assert!(seen.contains(&"task recovering - Error recovery in progress for building".to_string()));
    assert_eq!(seen.last().unwrap(), "ask role:evaluation error:recovery_request");
    assert!(!seen.iter().any(|k| k.contains("pipeline:next")));
    let (id, emission) = match steps.last().unwrap() {
        Step::AskForRecovery { request_id, emission, .. } => (request_id.clone(), emission),
        _ => panic!("no request"),
    };
    assert_eq!(emission.payload["retry_count"], json("2"));
    assert_eq!(emission.payload["error_message"], json(r#""no compiler""#));
    let response = recovery("retry");
    let first = coordinator.on_recovery_response(&id, &response, Some(&task_row("building")), Ok(&stages), 0);
    assert!(!first.is_empty());
    let second = coordinator.on_recovery_response(&id, &response, Some(&task_row("building")), Ok(&stages), 0);
    assert!(second.is_empty());
    assert!(!coordinator.forget(&id));
}

fn recovery(action: &str) -> RecoveryResponse {
    RecoveryResponse {
        run_id: "r1".to_string(),
        action: action.to_string(),
        params: json("{}"),
        reasoning: "because".to_string(),
    }
}

#[test]
fn retries_are_bounded() {
    let stages = vec![stage_row("s1", "building", "failed")];
    let task = task_row("building");
    let steps = recovery_response_steps(&recovery("retry"), Some(&task), Ok(&stages), 2);
    let seen = kinds(&steps);
    assert!(seen.contains(&"retry s1".to_string()));
    assert!(seen.contains(&"send role:building pipeline:next".to_string()));
    let steps = recovery_response_steps(&recovery("retry"), Some(&task), Ok(&stages), 3);
    let seen = kinds(&steps);
    assert!(!seen.iter().any(|k| k.starts_with("retry")));
    assert!(seen.iter().any(|k| k.starts_with("task failed")));
}

#[test]
fn only_some_stages_are_skipped() {
    for (stage, skipped) in [
        ("learning", false),
        ("building", false),
        ("pre_load", false),
        ("evaluation", true),
        ("skill_manage", false),
    ] {
        let stages = vec![stage_row("s", stage, "failed")];
        let steps =
            recovery_response_steps(&recovery("skip"), Some(&task_row(stage)), Ok(&stages), 0);
        let handed = kinds(&steps).iter().any(|k| k.contains("pipeline:next"));
        assert_eq!(handed, skipped, "{stage}");
    }
    let stages = vec![stage_row("s", "skill_manage", "failed")];
    let steps =
        recovery_response_steps(&recovery("skip"), Some(&task_row("skill_manage")), Ok(&stages), 0);
    assert_eq!(
        kinds(&steps)[1..].to_vec(),
        vec![
            "log warn: Stage skill_manage skipped after failure",
            "task completed - Pipeline completed (with skipped stage)",
            "share",
        ]
    );
}

#[test]
fn other_actions_abort() {
    let stages = vec![stage_row("s", "building", "failed")];
    let steps = recovery_response_steps(&recovery("abort"), Some(&task_row("building")), Ok(&stages), 0);
    assert!(kinds(&steps).iter().any(|k| k.starts_with("task failed")));
    let mut items = Vec::new();
    abort_pipeline(&mut items, Some("t1"), "building", "why");
    assert!(kinds(&items)[0].starts_with("task failed"));
    let mut none = Vec::new();
    abort_pipeline(&mut none, None, "building", "why");
    assert!(none.is_empty());
}

#[test]
fn decomposition_waits_for_its_answer() {
    let mut coordinator = PipelineCoordinator::new();
    let task = task_row("building");
    let (id, emission) = coordinator.request_decomposition(&task, "manual");
    assert_eq!((room(&emission), emission.event.as_str()), ("role:evaluation", "task:decompose"));
    assert_eq!(emission.payload["task_id"], json(r#""t1""#));
    let defs = vec![json(r#"{"summary":"a"}"#)];
    let unknown = coordinator.on_decompose_result("other", true, &defs, "why", Some(&task));
    assert!(unknown.is_empty());
    let steps = coordinator.on_decompose_result(&id, true, &defs, "why", Some(&task));
    let seen = kinds(&steps);
    assert_eq!(seen[0], "subtask a");
    assert!(seen.contains(&"task decomposed - Task decomposed: why".to_string()));
    assert!(seen.contains(&"log info: Task decomposed into 1 subtasks: why".to_string()));
    assert!(coordinator.on_decompose_result(&id, true, &defs, "why", Some(&task)).is_empty());
}

#[test]
fn stages_time_out() {
    let steps = on_stage_timeout(&stage_row("s1", "building", "running"), Some(&task_row("building")));
    assert_eq!(
        kinds(&steps),
        vec![
            "stage s1 timed_out",
            "task failed - Timed out at building",
            "log warn: Stage building timed out after 300s",
            "share",
            "announce",
        ]
    );
}

#[test]
fn stages_are_remembered() {
    let memory = extract_stage_memory("run-1", "building", "ag", "art", &json(r#"{"a":1}"#), Some("t1"));
    assert_eq!(memory.l0, "{\"a\":1}");
    assert_eq!(memory.l1, "{\n  \"a\": 1\n}");
    assert_eq!(memory.l2, "building completed by ag for artifact 'art'");
    assert_eq!(memory.run_id, "run-1");
    assert_eq!(memory.task_id.as_deref(), Some("t1"));

    let work = remember_stage(&memory);
    assert_eq!(work.memory.scope, "pipeline");
    assert_eq!(work.memory.category, memory.category);
    assert_eq!(work.memory.key, memory.key);
    assert_eq!(work.memory.relevance_score, "0.5");
    assert_eq!(work.memory.access_count, 0);
    assert!(work.store.sql.contains("INSERT INTO memories"));
    let tiers: Vec<(&str, &str)> = work.tiers.iter().map(|t| (t.0, t.1.as_str())).collect();
    assert_eq!(tiers, vec![("l0", memory.l0.as_str()), ("l1", memory.l1.as_str()), ("l2", memory.l2.as_str())]);
    assert_eq!(work.task_id.as_deref(), Some("t1"));
}

#[test]
fn updates_run_the_first_script_that_is_there() {
    assert_eq!(evo_home(None, Some("/home/u")), "/home/u/.evo-agents");
    assert_eq!(evo_home(Some("/opt/evo"), Some("/home/u")), "/opt/evo");
    assert_eq!(evo_home(Some("~/x"), None), "~/x");
    let candidates = update_candidates("/e", None);
    assert_eq!(candidates, vec!["/e/update.sh", "/e/bin/update.sh", "../evo-king/update.sh"]);
    let command = trigger_update(&candidates, &vec![false, true, true], "evo-king", "v1", "/e").unwrap();
    assert_eq!(command.program, "bash");
    assert_eq!(command.args, vec!["/e/bin/update.sh", "evo-king", "v1"]);
    assert_eq!(command.evo_home, "/e");
    assert!(trigger_update(&candidates, &vec![false, false, false], "c", "v", "/e").is_none());
    assert_eq!(update_error(Some(2), "bad"), "update.sh exited with code 2: bad");
    assert_eq!(update_error(None, "bad"), "update.sh exited with code -1: bad");
}

#[test]
fn failed_steps_give_up_or_not() {
    let entry = LogEntry {
        task_id: "t".to_string(),
        level: "info".to_string(),
        message: "m".to_string(),
        detail: String::new(),
        agent_id: String::new(),
        stage: String::new(),
    };
    assert!(matches!(on_failure(&Step::RecordLog { entry }, "e"), Failure::PassOver));
    let create = Step::CreateStage {
        run_id: "r".to_string(),
        stage: "s".to_string(),
        artifact_id: String::new(),
        input_metadata: String::new(),
        context: "create next pipeline stage".to_string(),
    };
    match on_failure(&create, "disk full") {
        Failure::GiveUp { message } => assert_eq!(message, "create next pipeline stage"),
        Failure::PassOver => panic!("passed over"),
    }
}

#[test]
fn tasks_and_logs_are_announced() {
    let emission = announce_task(&task_row("building"));
    assert_eq!((room(&emission), emission.event.as_str()), ("dashboard", "task:changed"));
    assert_eq!(emission.payload["action"], json(r#""updated""#));
    assert_eq!(emission.payload["task"]["current_stage"], json(r#""building""#));
    let log = TaskLogRow {
        id: "l".to_string(),
        task_id: "t1".to_string(),
        level: "info".to_string(),
        message: "m".to_string(),
        detail: String::new(),
        agent_id: String::new(),
        stage: String::new(),
        created_at: "t0".to_string(),
    };
    let (a, b) = announce_log("t1", &log);
    assert_eq!((room(&a), room(&b)), ("dashboard", "task:t1"));
    assert_eq!(a.payload, b.payload);
}
