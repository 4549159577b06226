use evo_king::api::{
    MemoriesQuery, TaskLogsQuery, TasksQuery, admin_config_sync_handler, admin_list_crons_handler,
    admin_run_cron_handler, config_history_handler, config_synced, gateway_config_get_handler,
    gateway_config_put_handler, gateway_config_written, health_handler, history_listed,
    list_agents_handler, memories_list_handler, memories_listed, memory_changed,
    memory_create_handler, memory_created, memory_delete_handler, memory_get_handler,
    memory_search_handler, memory_stats_handler, memory_tasks_handler, memory_tier_delete_handler,
    memory_tier_get_handler, memory_tier_upsert_handler, memory_tier_upserted,
    memory_tiers_handler, pipeline_detail_handler, pipeline_list_handler, pipeline_start_handler,
    pipeline_started, runs_listed, subtasks_listed, task_current_handler, task_logs_handler,
    task_logs_listed, task_memories_handler, task_memory_bind_handler, task_memory_bound,
    task_subtasks_handler, tasks_list_handler, tasks_listed,
};
use evo_king::config_watcher::{FileChange, is_config_change};
use evo_king::cron_manager::{
    CronAction, dispatch_cron_job, dispatch_error, init_system_cron, is_enabled, record_run,
    system_crons,
};
use evo_king::events::{Emission, Target};
use evo_king::gateway_manager::{
    backup_path_at, config_backed_up, hex_text, on_config_change, quick_hash,
};
use evo_king::memory_db::{MemoryRow, MemoryTierRow, ScopeCount};
use evo_king::pipeline_coordinator::PipelineCoordinator;
use evo_king::sql::SqlValue;
use evo_king::stamp::Instant;
use evo_king::task_db::{
    AgentRow, ConfigHistoryRow, CronJobRow, PipelineRow, TaskLogRow, TaskRow,
};
use serde_json::Value;
use std::collections::hash_map::DefaultHasher;
use std::hash::{Hash, Hasher};

fn json(text: &str) -> Value {
    serde_json::from_str(text).unwrap()
}

fn to(emission: &Emission) -> String {
    match &emission.target {
        Target::Everyone => "*".to_string(),
        Target::Room(room) => format!("room {room}"),
        Target::Peers(room) => format!("peers {room}"),
    }
}

fn task(id: &str) -> TaskRow {
    TaskRow {
        id: id.to_string(),
        task_type: "job".to_string(),
        status: "running".to_string(),
        agent_id: String::new(),
        payload: "not json".to_string(),
        run_id: String::new(),
        current_stage: String::new(),
        summary: "s".to_string(),
        parent_id: String::new(),
        created_at: "t0".to_string(),
        updated_at: "t1".to_string(),
    }
}

fn memory(id: &str) -> MemoryRow {
    MemoryRow {
        id: id.to_string(),
        scope: "system".to_string(),
        category: "general".to_string(),
        key: "k".to_string(),
        metadata: "{\"m\":1}".to_string(),
        tags: "a, b ,c".to_string(),
        agent_id: String::new(),
        run_id: String::new(),
        skill_id: String::new(),
        relevance_score: "0.1".to_string(),
        access_count: 2,
        created_at: "t0".to_string(),
        updated_at: "t0".to_string(),
    }
}

fn tier() -> MemoryTierRow {
    MemoryTierRow {
        id: "i".to_string(),
        memory_id: "m1".to_string(),
        tier: "l0".to_string(),
        content: "c".to_string(),
        created_at: "t0".to_string(),
        updated_at: "t1".to_string(),
    }
}

#[test]
fn health_and_agents() {
    assert_eq!(health_handler(), json(r#"{"status":"ok","service":"evo-king"}"#));
    let agent = AgentRow {
        agent_id: "a1".to_string(),
        role: "learning".to_string(),
        status: "online".to_string(),
        last_heartbeat: "t0".to_string(),
        capabilities: "[\"c\"]".to_string(),
        skills: "broken".to_string(),
        pid: 7,
        preferred_model: String::new(),
        soul_content: "soul".to_string(),
        binary_path: String::new(),
        version: "1.2".to_string(),
        first_registered_at: "t0".to_string(),
        registration_count: 2,
        crash_count: 1,
        socket_id: "s1".to_string(),
    };
    assert_eq!(
        list_agents_handler(Ok(&vec![agent])),
        json(
            r#"{"agents":[{"agent_id":"a1","role":"learning","status":"online","last_heartbeat":"t0",
                "capabilities":["c"],"skills":[],"pid":7,"preferred_model":"","soul_content":"soul",
                "binary_path":"","version":"1.2","first_registered_at":"t0","registration_count":2,
                "crash_count":1,"socket_id":"s1"}],"count":1}"#
        )
    );
    assert_eq!(list_agents_handler(Err("list agents")), json(r#"{"error":"list agents"}"#));
}

#[test]
fn pipeline_requests() {
    let coordinator = PipelineCoordinator::new();
    let run = pipeline_start_handler(&coordinator, &json("{}"));
    assert_eq!(run.task.payload, r#"{"trigger":"manual"}"#);
    let run = pipeline_start_handler(&coordinator, &json(r#"{"trigger":{"by":"me"}}"#));
    assert_eq!(run.task.payload, r#"{"trigger":{"by":"me"}}"#);
    assert_eq!(pipeline_started(Ok("r1")), json(r#"{"success":true,"run_id":"r1"}"#));
    assert_eq!(pipeline_started(Err("e")), json(r#"{"success":false,"error":"e"}"#));
    assert!(matches!(pipeline_list_handler(&coordinator).params[0], SqlValue::Integer(100)));
    let row = PipelineRow {
        id: "s".to_string(),
        run_id: "r1".to_string(),
        stage: "learning".to_string(),
        artifact_id: String::new(),
        status: "completed".to_string(),
        agent_id: "a".to_string(),
        result: Some("{\"x\":1}".to_string()),
        error: None,
        created_at: "t0".to_string(),
        updated_at: "t1".to_string(),
        input_metadata: "{}".to_string(),
    };
    let listed = runs_listed(Ok(&vec![row.clone()]));
    assert_eq!(listed["runs"][0]["result"], json(r#"{"x":1}"#));
    assert_eq!(listed["runs"][0]["error"], Value::Null);
    assert!(listed["runs"][0].get("input_metadata").is_none());
    let detail = pipeline_detail_handler("r1", Ok(&vec![row]));
    assert_eq!((detail["run_id"].as_str(), detail["count"].as_u64()), (Some("r1"), Some(1)));
}

#[test]
fn administration() {
    let sync = admin_config_sync_handler();
    assert_eq!((to(&sync).as_str(), sync.event.as_str()), ("*", "king:config_update"));
    assert_eq!(sync.payload["reason"], json(r#""post_dependency_update""#));
    assert_eq!(config_synced(Ok(())), json(r#"{"success":true}"#));
    assert_eq!(config_synced(Err("x")), json(r#"{"success":false,"error":"x"}"#));
    assert_eq!(admin_run_cron_handler("n", Ok(())), json(r#"{"success":true,"cron":"n"}"#));
    assert_eq!(admin_run_cron_handler("n", Err("x")), json(r#"{"success":false,"error":"x"}"#));
    let job = CronJobRow {
        id: "i".to_string(),
        name: "n".to_string(),
        schedule: "0 0 * * *".to_string(),
        enabled: true,
        last_run_at: None,
        next_run_at: None,
        last_status: Some("ok".to_string()),
        last_error: None,
        created_at: "t0".to_string(),
    };
    let listed = admin_list_crons_handler(Ok(&vec![job]));
    assert_eq!(listed["crons"][0]["enabled"], Value::Bool(true));
    assert_eq!(listed["crons"][0]["last_run_at"], Value::Null);
    assert_eq!(listed["count"], json("1"));
}

#[test]
fn gateway_configuration() {
    assert_eq!(gateway_config_get_handler("/c", Ok("{\"a\":1}")), json(r#"{"a":1}"#));
    let broken = gateway_config_get_handler("/c", Ok("{"));
    assert!(broken["error"].as_str().unwrap().starts_with("invalid config JSON: "));
    assert_eq!(
        gateway_config_get_handler("/c", Err("no such file")),
        json(r#"{"error":"cannot read /c: no such file"}"#)
    );
    let refused = gateway_config_put_handler(&json(r#"{"providers":"many"}"#)).err().unwrap();
    assert!(refused["error"].as_str().unwrap().starts_with("invalid config: "));
    assert_eq!(gateway_config_written(Ok(())), json(r#"{"success":true}"#));
    assert_eq!(
        gateway_config_written(Err("full")),
        json(r#"{"success":false,"error":"write error: full"}"#)
    );
    assert!(matches!(config_history_handler().params[0], SqlValue::Integer(100)));
    let row = ConfigHistoryRow {
        id: "i".to_string(),
        config_hash: "h".to_string(),
        action: "config_changed".to_string(),
        backup_path: String::new(),
        timestamp: "t0".to_string(),
    };
    assert_eq!(history_listed(Ok(&vec![row]))["history"][0]["config_hash"], json(r#""h""#));
}

const CONFIG: &str = r#"{"server":{"host":"0.0.0.0","port":3301},"providers":[]}"#;

#[test]
fn good_configurations_are_written_and_told() {
    let written = gateway_config_put_handler(&json(CONFIG));
    let text = match written {
        Ok(text) => text,
        Err(reply) => panic!("{reply}"),
    };
    assert!(text.contains("\n  \"providers\": []"));
    let change = on_config_change("/c/gateway.json", "/c", CONFIG).unwrap();
    assert_eq!(change.providers, 0);
    assert_eq!(change.config_hash, quick_hash(CONFIG));
    assert_eq!(change.backup_dir, "/c/backups");
    assert!(change.backup_path.starts_with("/c/backups/gateway-backup-20"));
    assert!(change.backup_path.ends_with(".json"));
    let (kept, told) = config_backed_up(&change, true);
    assert!(matches!(&kept.params[3], SqlValue::Text(p) if p == &change.backup_path));
    assert_eq!(told.event, "king:config_update");
    assert_eq!(told.payload["providers"], json("0"));
    let (lost, _) = config_backed_up(&change, false);
    assert!(matches!(&lost.params[3], SqlValue::Text(p) if p.is_empty()));
    let error = on_config_change("/c/gateway.json", "/c", "{").err().unwrap();
    assert_eq!(error, "Invalid JSON in /c/gateway.json");
}

#[test]
fn hashes_and_stamps() {
    assert_eq!(hex_text(255, 4), "00ff");
    assert_eq!(hex_text(u64::MAX, 16), "ffffffffffffffff");
    let hash = quick_hash("x");
    assert_eq!(hash.len(), 16);
    assert_ne!(hash, quick_hash("y"));
    assert_eq!(hash, quick_hash("x"));
    let mut hasher = DefaultHasher::new();
    "x".hash(&mut hasher);
    assert_eq!(hash, format!("{:016x}", hasher.finish()));
    assert_eq!(
        backup_path_at("/c", Instant { secs: 1_704_067_200, nanos: 0 }),
        "/c/backups/gateway-backup-20240101_000000.json"
    );
    assert!(is_config_change(FileChange::Modified, true));
    assert!(is_config_change(FileChange::Created, true));
    assert!(!is_config_change(FileChange::Modified, false));
    for change in [FileChange::Accessed, FileChange::Removed, FileChange::Other] {
        assert!(!is_config_change(change, true));
    }
}

#[test]
fn cron_jobs() {
    let crons = system_crons();
    assert_eq!((crons[0].name, crons[0].schedule, crons[0].interval_secs),
        ("daily_update_check", "0 0 * * *", 86400));
    assert_eq!(crons[1].interval_secs, 3600);
    assert!(matches!(init_system_cron(&crons[0]).params[3], SqlValue::Integer(1)));
    match dispatch_cron_job("daily_update_check") {
        CronAction::UpdateCheck { emission, stage, .. } => {
            assert_eq!((to(&emission).as_str(), emission.event.as_str()), ("room role:update", "pipeline:next"));
            assert_eq!(emission.payload["run_id"].as_str(), Some(stage.run_id.as_str()));
            assert_eq!(emission.payload["metadata"]["cron_job"], json(r#""daily_update_check""#));
        }
        _ => panic!("no update check"),
    }
    let health = dispatch_cron_job("gateway_health_check");
    match &health {
        CronAction::GatewayHealth { emission } => assert_eq!(to(emission), "*"),
        _ => panic!("no health check"),
    }
    assert_eq!(
        dispatch_error(&health, "closed").as_deref(),
        Some("failed to broadcast king:config_update: closed")
    );
    for (name, table) in
        [("socket_event_purge", "socket_events"), ("agent_history_purge", "agent_history")]
    {
        assert!(crons.iter().any(|c| c.name == name && c.interval_secs == 86400));
        let purge = dispatch_cron_job(name);
        match &purge {
            CronAction::Purge { statement } => {
                assert_eq!(statement.sql, format!("DELETE FROM {table} WHERE created_at < ?1"));
                assert_eq!(statement.params.len(), 1);
            }
            _ => panic!("nothing purged"),
        }
        assert_eq!(dispatch_error(&purge, "e").as_deref(), Some("failed to purge old records: e"));
    }
    let nothing = dispatch_cron_job("other");
    assert!(matches!(nothing, CronAction::Nothing));
    assert!(dispatch_error(&nothing, "closed").is_none());
    assert!(matches!(&record_run("n", Some("e")).params[1], SqlValue::Text(s) if s == "error"));
    assert!(matches!(&record_run("n", None).params[1], SqlValue::Text(s) if s == "ok"));
    assert!(!is_enabled(&Vec::new(), "n"));
}

#[test]
fn task_requests() {
    let query = TasksQuery {
        status: Some("running".to_string()),
        agent_id: None,
        parent_id: None,
        limit: Some(1000),
    };
    assert!(matches!(tasks_list_handler(&query).params[1], SqlValue::Integer(500)));
    let none = TasksQuery { status: None, agent_id: None, parent_id: None, limit: None };
    assert!(matches!(tasks_list_handler(&none).params[0], SqlValue::Integer(50)));
    assert!(matches!(task_subtasks_handler("t", &none).params[1], SqlValue::Integer(100)));
    let listed = tasks_listed(Ok(&vec![task("a")]));
    assert_eq!(listed["tasks"][0]["payload"], json("{}"));
    assert_eq!(listed["count"], json("1"));
    assert_eq!(task_current_handler(Ok(None)), json(r#"{"task":null}"#));
    assert_eq!(task_current_handler(Ok(Some(&task("a"))))["task"]["id"], json(r#""a""#));
    assert_eq!(task_current_handler(Err("e")), json(r#"{"error":"e"}"#));
    let logs = task_logs_handler("t", &TaskLogsQuery { limit: None, offset: Some(3) });
    assert!(matches!(logs.params[1], SqlValue::Integer(100)));
    assert!(matches!(logs.params[2], SqlValue::Integer(3)));
    let entry = TaskLogRow {
        id: "l".to_string(),
        task_id: "t".to_string(),
        level: "info".to_string(),
        message: "m".to_string(),
        detail: String::new(),
        agent_id: String::new(),
        stage: String::new(),
        created_at: "t0".to_string(),
    };
    let listed = task_logs_listed(9, Ok(&vec![entry]));
    assert_eq!((listed["count"].as_u64(), listed["logs"][0]["level"].as_str()), (Some(9), Some("info")));
    let listed = subtasks_listed(Ok(&vec![task("a")]), 4, 1);
    assert_eq!(listed["progress"], json(r#"{"total":4,"completed":1}"#));
}

#[test]
fn memory_lists_and_searches() {
    let query = MemoriesQuery {
        scope: Some("system".to_string()),
        category: None,
        agent_id: None,
        run_id: None,
        skill_id: None,
        tag: None,
        limit: None,
    };
    assert!(matches!(memories_list_handler(&query).params.last(), Some(SqlValue::Integer(50))));
    let listed = memories_listed(Ok(&vec![memory("m1")]));
    assert_eq!(listed["memories"][0]["tags"], json(r#"["a","b","c"]"#));
    assert_eq!(listed["memories"][0]["relevance_score"], json("0.1"));
    let search = memory_search_handler(&json(r#"{"query":"x","limit":4294967297}"#));
    assert!(matches!(search.params.last(), Some(SqlValue::Integer(1))));
    let search = memory_search_handler(&json("{}"));
    assert!(matches!(search.params.last(), Some(SqlValue::Integer(20))));
    let counts = vec![
        ScopeCount { scope: "a".to_string(), count: 2 },
        ScopeCount { scope: "b".to_string(), count: 3 },
    ];
    assert_eq!(memory_stats_handler(Ok(&counts)), json(r#"{"stats":{"a":2,"b":3}}"#));
    assert!(matches!(task_memories_handler("t").params[1], SqlValue::Integer(100)));
}

#[test]
fn memory_changes_are_told_to_everyone_concerned() {
    let request = memory_create_handler(&json(r#"{"key":"k"}"#));
    assert_eq!(request.memory.key, "k");
    let reply = memory_created(Ok(&memory("m1")));
    assert_eq!(reply.ack["memory"]["id"], json(r#""m1""#));
    let rooms: Vec<String> = reply.events.iter().map(to).collect();
    assert_eq!(rooms, vec!["room kernel", "room dashboard"]);
    assert_eq!(reply.events[0].payload, json(r#"{"action":"created","memory_id":"m1"}"#));
    let failed = memory_created(Err("create memory"));
    assert_eq!(failed.ack, json(r#"{"success":false,"error":"create memory"}"#));
    assert!(failed.events.is_empty());
    let changed = memory_changed("m1", Ok(Some(&memory("m1"))));
    assert_eq!(changed.events[1].payload["data"]["action"], json(r#""updated""#));
    assert_eq!(memory_changed("m1", Ok(None)).ack["error"], json(r#""not found""#));
    assert_eq!(memory_delete_handler("m1", Ok(true)).ack, json(r#"{"success":true}"#));
    assert!(memory_delete_handler("m1", Ok(false)).events.is_empty());
    assert!(memory_delete_handler("m1", Err("e")).events.is_empty());
}

#[test]
fn memory_details_and_tiers() {
    let ids = vec!["t1".to_string()];
    let whole = memory_get_handler(Ok(Some(&memory("m1"))), Some(&vec![tier()]), Some(&ids));
    assert_eq!(whole["memory"]["tiers"][0]["updated_at"], json(r#""t1""#));
    assert_eq!(whole["memory"]["task_ids"], json(r#"["t1"]"#));
    let bare = memory_get_handler(Ok(Some(&memory("m1"))), None, None);
    assert!(bare["memory"].get("tiers").is_none());
    assert_eq!(memory_get_handler(Ok(None), None, None), json(r#"{"error":"not found"}"#));
    assert_eq!(memory_tiers_handler(Ok(&vec![tier()]))["count"], json("1"));
    let (name, content) = memory_tier_upsert_handler(&json(r#"{"tier":"l2"}"#)).ok().unwrap();
    assert_eq!((name.as_str(), content.as_str()), ("l2", ""));
    let refused = memory_tier_upsert_handler(&json("{}")).err().unwrap();
    assert_eq!(refused["error"], json(r#""tier is required (l0, l1, or l2)""#));
    assert_eq!(memory_tier_upserted(Ok(&tier()))["tier"]["tier"], json(r#""l0""#));
    assert_eq!(memory_tier_get_handler(Ok(None)), json(r#"{"error":"not found"}"#));
    assert_eq!(memory_tier_get_handler(Ok(Some(&tier())))["tier"]["content"], json(r#""c""#));
    assert_eq!(
        memory_tier_delete_handler(Ok(false)),
        json(r#"{"success":false,"error":"not found"}"#)
    );
    assert_eq!(memory_tier_delete_handler(Ok(true)), json(r#"{"success":true}"#));
    assert_eq!(memory_tasks_handler(Ok(&ids)), json(r#"{"task_ids":["t1"],"count":1}"#));
    assert_eq!(
        task_memory_bind_handler(&json(r#"{"memory_id":"m"}"#)).ok().as_deref(),
        Some("m")
    );
    let refused = task_memory_bind_handler(&json(r#"{"memory_id":""}"#)).err().unwrap();
    assert_eq!(refused["error"], json(r#""memory_id is required""#));
    assert_eq!(task_memory_bound(Ok(())), json(r#"{"success":true}"#));
}
