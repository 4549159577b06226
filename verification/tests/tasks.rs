use evo_king::memory_db::{
    bind_task_memory, count_memories_by_scope, create_memory, delete_memory, delete_tier,
    find_tier, get_memory, get_memory_by_key, get_tier, get_tiers, list_memories,
    list_memories_for_task, list_tasks_for_memory, memory_columns, row_to_memory,
    row_to_scope_count, row_to_task_memory, row_to_tier, search_memories, touch_memory,
    unbind_task_memory, update_memory, upsert_tier,
};
use evo_king::sql::{SqlValue, Statement, check_row};
use evo_king::stamp::Instant;
use evo_king::task_db::{
    AgentMetadata, LogText, MAX_TIMEOUT_SECS, PipelineRow, SetupKind, SetupOutcome, after_setup, agent_columns, count_subtasks, count_task_logs,
    create_pipeline_stage, create_task, create_task_log, cron_job_columns, current_task,
    delete_task,
    get_active_pipeline_runs, get_agent, get_agent_model, get_cron_job_id, get_current_task,
    get_pipeline_run_stages, get_stage_retry_count, get_task, get_task_by_run_id,
    get_task_logs_text, get_timed_out_stages, init_db, list_agents, list_config_history,
    list_cron_jobs, list_log_texts, list_pipeline_runs, list_running_stages, list_subtasks, list_task_logs, list_tasks,
    log_config_event, mark_agent_crashed_by_role, mark_agent_failed_by_role, pipeline_columns,
    read_agent_model, read_count, read_subtask_counts, register_agent, retry_pipeline_stage, row_to_agent,
    row_to_config_history, row_to_cron_job, row_to_pipeline, row_to_task, row_to_task_log,
    set_agent_model, stages_created_before, task_columns, timed_out_stages_at, update_cron_run, update_pipeline_stage,
    update_task, upsert_agent, upsert_cron_job,
};

fn text(s: &str) -> SqlValue {
    SqlValue::Text(s.to_string())
}

fn shown(value: &SqlValue) -> String {
    match value {
        SqlValue::Null => "NULL".to_string(),
        SqlValue::Integer(n) => n.to_string(),
        SqlValue::Real(r) => format!("~{r}"),
        SqlValue::Text(t) => format!("'{t}'"),
    }
}

fn params(statement: &Statement) -> Vec<String> {
    statement.params.iter().map(shown).collect()
}

fn is_uuid(id: &str) -> bool {
    id.len() == 36
        && id.char_indices().all(|(i, c)| {
            if [8, 13, 18, 23].contains(&i) { c == '-' } else { c.is_ascii_hexdigit() }
        })
        && id.as_bytes()[14] == b'4'
}

#[test]
fn new_tasks_get_an_id_and_a_time() {
    let (statement, task) =
        create_task("pipeline", "running", Some("a1"), "{}", "r1", "learning", "sum", "p1");
    assert!(is_uuid(&task.id));
    assert_eq!(task.created_at, task.updated_at);
    assert_eq!(task.agent_id, "a1");
    assert!(statement.sql.starts_with("INSERT INTO tasks (id, task_type, status, agent_id"));
    assert_eq!(statement.params.len(), 11);
    assert_eq!(shown(&statement.params[5]), "'r1'");
    let (_, other) = create_task("t", "pending", None, "{}", "", "", "", "");
    assert_eq!(other.agent_id, "");
    assert_ne!(other.id, task.id);
}

#[test]
fn stored_tasks_are_read_back() {
    let (statement, task) =
        create_task("pipeline", "running", Some("a1"), "{\"k\":1}", "r1", "learning", "sum", "p1");
    assert!(check_row(&statement.params, &task_columns()));
    let back = row_to_task(&statement.params).unwrap();
    assert_eq!(back.id, task.id);
    assert_eq!(back.payload, task.payload);
    assert_eq!(back.parent_id, "p1");
    assert_eq!(back.updated_at, task.updated_at);
    let (log, entry) = create_task_log("t1", "info", "m", "d", "a", "s");
    let back = row_to_task_log(&log.params).unwrap();
    assert_eq!((back.id, back.detail, back.created_at), (entry.id, entry.detail, entry.created_at));
    let (stage, row) = create_pipeline_stage("r1", "learning", "art", "{\"m\":2}");
    let mut cells = Vec::new();
    for value in ["id", "run", "stage", "art"].iter().enumerate().map(|(i, _)| &stage.params[i]) {
        cells.push(text(shown(value).trim_matches('\'')));
    }
    cells.extend([text("running"), text(""), SqlValue::Null, SqlValue::Null]);
    for i in 4..7 {
        cells.push(text(shown(&stage.params[i]).trim_matches('\'')));
    }
    assert!(check_row(&cells, &pipeline_columns()));
    let back = row_to_pipeline(&cells).unwrap();
    assert_eq!((back.id, back.status, back.result), (row.id, row.status, None));
    assert_eq!(back.input_metadata, "{\"m\":2}");
}

#[test]
fn tasks_without_their_columns_are_errors() {
    let mut cells = vec![SqlValue::Null; 0];
    for _ in 0..11 {
        cells.push(text("x"));
    }
    cells[5] = SqlValue::Null;
    assert_eq!(row_to_task(&cells).unwrap().run_id, "");
    cells[4] = SqlValue::Null;
    assert_eq!(row_to_task(&cells).err().as_deref(), Some("read payload"));
    cells[0] = SqlValue::Null;
    assert_eq!(row_to_task(&cells).err().as_deref(), Some("read id"));
    cells[0] = SqlValue::Integer(1);
    assert!(!check_row(&cells, &task_columns()));
}

#[test]
fn tasks_are_listed_by_filters() {
    let all = list_tasks(50, None, None, None);
    assert!(all.sql.ends_with("FROM tasks WHERE 1=1 ORDER BY created_at DESC LIMIT ?1"));
    assert_eq!(params(&all), vec!["50"]);
    let some = list_tasks(7, Some("running"), None, Some("p"));
    assert!(some.sql.ends_with(
        "WHERE 1=1 AND status = ?1 AND parent_id = ?2 ORDER BY created_at DESC LIMIT ?3"
    ));
    assert_eq!(params(&some), vec!["'running'", "'p'", "7"]);
}

#[test]
fn tasks_are_updated_by_what_is_given() {
    let none = update_task("t", None, None, None, None, None);
    assert_eq!(none.sql, "UPDATE tasks SET updated_at = ?1 WHERE id = ?2");
    let some = update_task("t", Some("done"), None, Some("{}"), None, Some("s"));
    assert_eq!(
        some.sql,
        "UPDATE tasks SET updated_at = ?1, status = ?2, payload = ?3, summary = ?4 WHERE id = ?5"
    );
    assert_eq!(params(&some)[1..].to_vec(), vec!["'done'", "'{}'", "'s'", "'t'"]);
}

#[test]
fn other_task_statements() {
    assert!(get_task("t").sql.ends_with("FROM tasks WHERE id = ?1"));
    assert_eq!(delete_task("t").sql, "DELETE FROM tasks WHERE id = ?1");
    let (running, newest) = get_current_task();
    assert!(running.sql.ends_with("WHERE status = 'running' ORDER BY created_at DESC LIMIT 1"));
    assert!(newest.sql.ends_with("FROM tasks ORDER BY created_at DESC LIMIT 1"));
    let by_run = get_task_by_run_id("r");
    assert!(by_run.sql.ends_with(
        "WHERE run_id = ?1 AND status = 'running' ORDER BY created_at DESC LIMIT 1"
    ));
    assert_eq!(params(&by_run), vec!["'r'"]);
    assert_eq!(params(&list_subtasks("p", 9)), vec!["'p'", "9"]);
    assert_eq!(params(&count_subtasks("p")), vec!["'p'"]);
    let counts = vec![SqlValue::Integer(4), SqlValue::Integer(3)];
    assert_eq!(read_subtask_counts(Some(&counts)), (4, 3));
    assert_eq!(read_subtask_counts(Some(&vec![SqlValue::Integer(0), SqlValue::Null])), (0, 0));
    assert_eq!(read_subtask_counts(None), (0, 0));
    assert_eq!(params(&list_task_logs("t", 10, 20)), vec!["'t'", "10", "20"]);
    assert_eq!(params(&count_task_logs("t")), vec!["'t'"]);
    assert_eq!(read_count(Some(&vec![SqlValue::Integer(5)])), 5);
    assert_eq!(read_count(None), 0);
    assert!(list_log_texts("t").sql.contains("SELECT message, detail FROM task_logs"));
}

fn log(message: &str, detail: &str) -> LogText {
    LogText { message: message.to_string(), detail: detail.to_string() }
}

#[test]
fn logs_are_gathered_up_to_a_length() {
    let rows = vec![log("one", "first"), log("", "second"), log("three", "")];
    assert_eq!(get_task_logs_text(&rows, 100), "one\nfirst\nsecond\nthree\n");
    assert_eq!(get_task_logs_text(&rows, 6), "one\nfi");
    assert_eq!(get_task_logs_text(&rows, 4), "one\n");
    assert_eq!(get_task_logs_text(&rows, 0), "");
    assert_eq!(get_task_logs_text(&Vec::new(), 5), "");
    for max in 0..30 {
        assert!(get_task_logs_text(&rows, max).len() <= max);
    }
}

#[test]
fn the_text_of_a_log_is_counted_in_characters() {
    let rows = vec![log("h\u{e9}llo", "\u{4e16}\u{754c}"), log("end", "")];
    assert_eq!(get_task_logs_text(&rows, 2), "h\u{e9}");
    assert_eq!(get_task_logs_text(&rows, 7), "h\u{e9}llo\n\u{4e16}");
    assert_eq!(get_task_logs_text(&rows, 9), "h\u{e9}llo\n\u{4e16}\u{754c}\n");
    assert_eq!(get_task_logs_text(&rows, 13), "h\u{e9}llo\n\u{4e16}\u{754c}\nend\n");
    assert_eq!(get_task_logs_text(&rows, 99), "h\u{e9}llo\n\u{4e16}\u{754c}\nend\n");
}

#[test]
fn agents_are_stored_and_read() {
    let statement = upsert_agent("a1", "learning", "online", None, Some("[\"s\"]"), None);
    assert!(statement.sql.contains("ON CONFLICT(agent_id) DO UPDATE SET"));
    let shown = params(&statement);
    assert_eq!(shown[0..3].to_vec(), vec!["'a1'", "'learning'", "'online'"]);
    assert_eq!(shown[4..].to_vec(), vec!["'[]'", "'[\"s\"]'", "0"]);
    assert_eq!(params(&upsert_agent("a", "", "b", None, None, Some(9)))[6], "9");
    assert!(list_agents().sql.ends_with("FROM agent_status ORDER BY agent_id"));
    let cells = vec![
        text("a1"),
        text("learning"),
        text("online"),
        text("t"),
        SqlValue::Null,
        SqlValue::Null,
        SqlValue::Null,
        SqlValue::Null,
        text("soul"),
        text("/bin/a"),
        text("1.2"),
        text("t0"),
        SqlValue::Integer(3),
        SqlValue::Integer(2),
        SqlValue::Null,
    ];
    assert!(check_row(&cells, &agent_columns()));
    let row = row_to_agent(&cells).unwrap();
    assert_eq!((row.capabilities.as_str(), row.skills.as_str(), row.pid), ("[]", "[]", 0));
    assert_eq!(row.preferred_model, "");
    assert_eq!((row.soul_content.as_str(), row.binary_path.as_str()), ("soul", "/bin/a"));
    assert_eq!((row.version.as_str(), row.first_registered_at.as_str()), ("1.2", "t0"));
    assert_eq!((row.registration_count, row.crash_count, row.socket_id.as_str()), (3, 2, ""));
    assert_eq!(params(&get_agent("a1")), vec!["'a1'"]);
    assert_eq!(params(&set_agent_model("a", "m")), vec!["'m'", "'a'"]);
    assert_eq!(params(&get_agent_model("a")), vec!["'a'"]);
    assert_eq!(read_agent_model(Some(&vec![text("m")])), "m");
    assert_eq!(read_agent_model(None), "");
    let crashed = mark_agent_crashed_by_role("learning");
    assert!(crashed.sql.contains("status = 'crashed'"));
    assert!(crashed.sql.contains("crash_count = crash_count + 1"));
    assert_eq!(params(&crashed)[1], "'learning'");
    let failed = mark_agent_failed_by_role("learning", "no \"luck\"");
    assert_eq!(params(&failed)[1], "'{\"spawn_error\":\"no \\\"luck\\\"\"}'");
}

#[test]
fn registrations_are_counted() {
    let agent = AgentMetadata {
        agent_id: "a1".to_string(),
        role: "learning".to_string(),
        capabilities: "[]".to_string(),
        skills: "[]".to_string(),
        pid: 42,
        soul_content: "soul".to_string(),
        binary_path: "/bin/a".to_string(),
        version: "1.2".to_string(),
        socket_id: "s1".to_string(),
    };
    let statement = register_agent(&agent);
    let shown = params(&statement);
    assert_eq!(shown[0..3].to_vec(), vec!["'a1'", "'learning'", "'online'"]);
    assert_eq!(
        shown[4..].to_vec(),
        vec!["'[]'", "'[]'", "42", "'soul'", "'/bin/a'", "'1.2'", "'s1'"]
    );
    assert!(statement.sql.contains("registration_count  = registration_count + 1"));
}

#[test]
fn configuration_and_cron_statements() {
    let event = log_config_event("h", "config_changed", None);
    assert_eq!(params(&event)[1..4].to_vec(), vec!["'h'", "'config_changed'", "''"]);
    assert_eq!(params(&list_config_history(3)), vec!["3"]);
    let row = row_to_config_history(&vec![text("i"), text("h"), text("a"), SqlValue::Null, text("t")]);
    assert_eq!(row.unwrap().backup_path, "");
    let cron = upsert_cron_job("n", "0 0 * * *", true);
    assert!(cron.sql.contains("schedule = cron_jobs.schedule"));
    assert!(cron.sql.contains("enabled  = cron_jobs.enabled"));
    assert_eq!(params(&cron)[1..4].to_vec(), vec!["'n'", "'0 0 * * *'", "1"]);
    assert_eq!(params(&upsert_cron_job("n", "s", false))[3], "0");
    assert_eq!(params(&get_cron_job_id("n")), vec!["'n'"]);
    let run = update_cron_run("n", "ok", None, None);
    assert_eq!(params(&run)[1..].to_vec(), vec!["'ok'", "''", "''", "'n'"]);
    assert!(list_cron_jobs().sql.ends_with("FROM cron_jobs ORDER BY name"));
    let cells = vec![
        text("i"),
        text("n"),
        text("s"),
        SqlValue::Integer(0),
        SqlValue::Null,
        SqlValue::Null,
        text("ok"),
        SqlValue::Null,
        text("t"),
    ];
    assert!(check_row(&cells, &cron_job_columns()));
    let job = row_to_cron_job(&cells).unwrap();
    assert!(!job.enabled && job.last_run_at.is_none());
    assert_eq!(job.last_status.as_deref(), Some("ok"));
}

#[test]
fn pipeline_statements() {
    assert!(get_pipeline_run_stages("r").sql.ends_with("WHERE run_id = ?1 ORDER BY created_at ASC"));
    assert!(list_running_stages().sql.ends_with("WHERE status = 'running' ORDER BY created_at DESC"));
    let done = update_pipeline_stage("i", "completed", "a", Some("{}"), None);
    let shown = params(&done);
    assert_eq!(shown[0..4].to_vec(), vec!["'completed'", "'a'", "'{}'", "''"]);
    assert_eq!(shown[5], "'i'");
    assert_eq!(params(&retry_pipeline_stage("i")).last().map(|s| s.as_str()), Some("'i'"));
    assert_eq!(params(&get_stage_retry_count("r", "s")), vec!["'r'", "'s'"]);
    assert_eq!(params(&stages_created_before("c")), vec!["'c'"]);
    let before = get_timed_out_stages(300).unwrap();
    assert!(before.sql.ends_with("WHERE status = 'running' AND created_at < ?1"));
    assert!(get_timed_out_stages(0).unwrap().params.len() == 1);
    let runs = list_pipeline_runs(100, Some("failed"));
    assert!(runs.sql.ends_with("WHERE 1=1 AND status = ?1 ORDER BY created_at DESC LIMIT ?2"));
}

#[test]
fn stages_time_out_at_a_cutoff() {
    // 2024-01-01T00:00:00Z
    let now = Instant { secs: 1_704_067_200, nanos: 0 };
    let at = timed_out_stages_at(now, 300);
    assert!(at.sql.ends_with("WHERE status = 'running' AND created_at < ?1"));
    assert_eq!(params(&at), vec!["'2023-12-31T23:55:00+00:00'"]);
    assert_eq!(params(&timed_out_stages_at(now, 0)), vec!["'2024-01-01T00:00:00+00:00'"]);
    assert_eq!(params(&timed_out_stages_at(now, -60)), vec!["'2024-01-01T00:01:00+00:00'"]);
    let present = params(&get_timed_out_stages(0).unwrap());
    let ago = params(&get_timed_out_stages(300).unwrap());
    assert!(ago[0] < present[0] && ago[0].as_str() > "'2024");
    assert!(params(&get_timed_out_stages(-3600).unwrap())[0] > present[0]);
    assert!(get_timed_out_stages(MAX_TIMEOUT_SECS).is_some());
    assert!(get_timed_out_stages(i64::MAX).is_none());
    assert!(get_timed_out_stages(i64::MIN).is_none());
}

#[test]
fn the_running_task_is_the_current_one() {
    let (_, running) = create_task("t", "running", None, "{}", "", "", "", "");
    let (_, newest) = create_task("t", "done", None, "{}", "", "", "", "");
    let (run_id, new_id) = (running.id.clone(), newest.id.clone());
    let chosen = current_task(Some(running), Some(newest.clone())).unwrap();
    assert_eq!(chosen.id, run_id);
    assert_eq!(current_task(Some(chosen), None).unwrap().id, run_id);
    assert_eq!(current_task(None, Some(newest)).unwrap().id, new_id);
    assert!(current_task(None, None).is_none());
}

fn running(id: &str, run_id: &str, created_at: &str) -> PipelineRow {
    PipelineRow {
        id: id.to_string(),
        run_id: run_id.to_string(),
        stage: "building".to_string(),
        artifact_id: "art".to_string(),
        status: "running".to_string(),
        agent_id: "ag".to_string(),
        result: None,
        error: Some("e".to_string()),
        created_at: created_at.to_string(),
        updated_at: "u".to_string(),
        input_metadata: "{}".to_string(),
    }
}

#[test]
fn active_runs_are_listed_by_their_newest_stage() {
    let rows = vec![
        running("5", "r1", "2024-01-05"),
        running("4", "r2", "2024-01-04"),
        running("3", "r1", "2024-01-03"),
        running("2", "r2", "2024-01-04"),
        running("1", "r3", "2024-01-01"),
    ];
    let active = get_active_pipeline_runs(&rows);
    let ids: Vec<&str> = active.iter().map(|row| row.id.as_str()).collect();
    assert_eq!(ids, vec!["5", "4", "1"]);
    assert_eq!((active[0].stage.as_str(), active[0].error.as_deref()), ("building", Some("e")));
    let reversed: Vec<PipelineRow> = rows.into_iter().rev().collect();
    let ids: Vec<String> = get_active_pipeline_runs(&reversed).into_iter().map(|row| row.id).collect();
    assert_eq!(ids, vec!["1", "2", "5"]);
    assert!(get_active_pipeline_runs(&Vec::new()).is_empty());
}

#[test]
fn tables_are_set_up_before_migrations() {
    let steps = init_db();
    assert!(matches!(steps[0].kind, SetupKind::Batch));
    let tables = steps.iter().filter(|s| matches!(s.kind, SetupKind::Table)).count();
    assert_eq!(tables, 11);
    let sql: Vec<&str> = steps.iter().map(|s| s.sql.as_str()).collect();
    assert!(sql.iter().any(|s| s.contains("EXISTS agent_history (")));
    assert!(sql.iter().any(|s| s.contains("EXISTS socket_events (")));
    assert!(sql.iter().any(|s| s.contains("ON socket_events(event_name)")));
    assert!(sql.iter().any(|s| s.contains("ADD COLUMN crash_count INTEGER")));
    for step in &steps {
        match step.kind {
            SetupKind::Migration => {
                assert!(
                    step.sql.starts_with("ALTER TABLE") || step.sql.starts_with("CREATE INDEX")
                );
                assert!(matches!(
                    after_setup(step, Some("duplicate column name: x")),
                    SetupOutcome::Present
                ));
                assert!(matches!(after_setup(step, Some("disk full")), SetupOutcome::Warning));
            }
            _ => assert!(matches!(after_setup(step, Some("disk full")), SetupOutcome::Stop)),
        }
        assert!(matches!(after_setup(step, None), SetupOutcome::Done));
    }
}

#[test]
fn memories_are_stored_and_read_back() {
    let (statement, row) =
        create_memory("system", "general", "k", "{}", "a,b", "ag", "r", "s", "0.75");
    assert!(is_uuid(&row.id));
    assert_eq!(row.access_count, 0);
    assert_eq!(shown(&statement.params[9]), "~0.75");
    let mut cells: Vec<SqlValue> = Vec::new();
    for (i, value) in statement.params.iter().enumerate() {
        if i == 9 {
            cells.push(SqlValue::Real("0.75".to_string()));
        } else if i == 10 {
            cells.push(SqlValue::Integer(0));
            cells.push(text(shown(value).trim_matches('\'')));
            cells.push(text(shown(value).trim_matches('\'')));
        } else {
            cells.push(text(shown(value).trim_matches('\'')));
        }
    }
    assert!(check_row(&cells, &memory_columns()));
    let back = row_to_memory(&cells).unwrap();
    assert_eq!((back.id, back.tags, back.relevance_score), (row.id, row.tags, row.relevance_score));
    assert_eq!(back.created_at, row.created_at);
    cells[4] = SqlValue::Null;
    cells[9] = SqlValue::Null;
    let back = row_to_memory(&cells).unwrap();
    assert_eq!((back.metadata.as_str(), back.relevance_score.as_str()), ("{}", "0"));
    cells[3] = SqlValue::Null;
    assert_eq!(row_to_memory(&cells).err().as_deref(), Some("read key"));
}

#[test]
fn memory_statements() {
    assert_eq!(params(&get_memory("m")), vec!["'m'"]);
    assert_eq!(params(&get_memory_by_key("k")), vec!["'k'"]);
    let listed = list_memories(5, Some("system"), None, Some("a"), None, None, Some("t"));
    assert_eq!(listed.params.len(), 4);
    assert!(listed.sql.contains("scope = ?1") && listed.sql.contains("agent_id = ?2"));
    let changed = update_memory("m", None, Some("x,y"), Some("0.5"));
    assert_eq!(params(&changed)[1..].to_vec(), vec!["'x,y'", "~0.5", "'m'"]);
    let (a, b, c) = delete_memory("m");
    for statement in [&a, &b, &c] {
        assert_eq!(params(statement), vec!["'m'"]);
    }
    assert!(c.sql.starts_with("DELETE FROM memories"));
    assert_eq!(params(&touch_memory("m")).last().map(|s| s.as_str()), Some("'m'"));
    assert!(count_memories_by_scope().sql.contains("GROUP BY scope"));
    let count = row_to_scope_count(&vec![text("system"), SqlValue::Integer(2)]).unwrap();
    assert_eq!((count.scope.as_str(), count.count), ("system", 2));
    let found = search_memories("two words", 20, None, None, None, None);
    assert!(params(&found).iter().any(|p| p.contains("two")));
    assert!(params(&found).iter().any(|p| p.contains("words")));
}

#[test]
fn tiers_are_inserted_once() {
    assert_eq!(params(&find_tier("m", "l0")), vec!["'m'", "'l0'"]);
    let (insert, row) = upsert_tier(None, "m", "l0", "c");
    assert!(insert.sql.starts_with("INSERT INTO memory_tiers"));
    assert!(is_uuid(&row.id));
    let (update, kept) = upsert_tier(Some("id1"), "m", "l0", "c2");
    assert!(update.sql.starts_with("UPDATE memory_tiers"));
    assert_eq!(kept.id, "id1");
    assert_eq!(params(&update)[0], "'c2'");
    assert_eq!(params(&get_tiers("m")), vec!["'m'"]);
    assert_eq!(params(&get_tier("m", "l1")), vec!["'m'", "'l1'"]);
    assert_eq!(params(&delete_tier("m", "l1")), vec!["'m'", "'l1'"]);
    let back = row_to_tier(&vec![
        text("i"),
        text("m"),
        text("l0"),
        SqlValue::Null,
        text("t"),
        text("t"),
    ]);
    assert_eq!(back.unwrap().content, "");
}

#[test]
fn memories_are_bound_to_tasks() {
    let (statement, row) = bind_task_memory("t", "m");
    assert!(statement.sql.starts_with("INSERT OR IGNORE INTO task_memories"));
    let back = row_to_task_memory(&statement.params).unwrap();
    assert_eq!((back.id, back.task_id, back.memory_id), (row.id, row.task_id, row.memory_id));
    assert_eq!(params(&unbind_task_memory("t", "m")), vec!["'t'", "'m'"]);
    assert_eq!(params(&list_memories_for_task("t", 4)), vec!["'t'", "4"]);
    assert_eq!(params(&list_tasks_for_memory("m")), vec!["'m'"]);
}
