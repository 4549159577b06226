use evo_common::messages::events as common;
use evo_king::agent_manager::{AgentProcess, AgentRegistry};
use evo_king::events::{
    self, Emission, Target, notify_dashboard, role_room, task_room, to_everyone, to_peers, to_room,
};
use evo_king::memory_db::{MemoryRow, MemoryTierRow};
use evo_king::pipeline_coordinator::{PipelineStage, stage_to_str};
use evo_king::socket_server::{
    FoundMemory, FoundTask, Handler, MemoryOutcome, Role, ack_error, is_kernel_role, memories_found, memory_deleted,
    memory_stored, memory_updated, on_debug_response, on_debug_stream, on_health, on_memory_delete,
    on_memory_query, on_memory_store, on_memory_update, on_pipeline_stage_result, on_register,
    on_skill_report, on_status, on_task_create, on_task_get, on_task_join, on_task_list,
    on_task_summary, on_task_update, read_limit, read_tags, read_tiers, register_handlers,
    rooms_to_join, summary_stored, task_created, task_deleted, task_evaluated, task_got,
    task_updated, tasks_listed,
};
use evo_king::sql::SqlValue;
use evo_king::task_db::TaskRow;
use serde_json::Value;

fn json(text: &str) -> Value {
    serde_json::from_str(text).unwrap()
}

fn to(emission: &Emission) -> String {
    match &emission.target {
        Target::Everyone => "*".to_string(),
        Target::Room(room) => format!("room {room}"),
        Target::Peers(room) => format!("peers {room}"),
    }
}

fn told(events: &[Emission]) -> Vec<String> {
    events.iter().map(|e| format!("{} {}", to(e), e.event)).collect()
}

fn param(value: &SqlValue) -> &str {
    match value {
        SqlValue::Text(text) => text,
        _ => "?",
    }
}

fn task(id: &str) -> TaskRow {
    TaskRow {
        id: id.to_string(),
        task_type: "job".to_string(),
        status: "pending".to_string(),
        agent_id: String::new(),
        payload: "{\"k\":1}".to_string(),
        run_id: String::new(),
        current_stage: String::new(),
        summary: "s".to_string(),
        parent_id: String::new(),
        created_at: "t0".to_string(),
        updated_at: "t1".to_string(),
    }
}

fn memory(id: &str) -> MemoryRow {
    MemoryRow {
        id: id.to_string(),
        scope: "system".to_string(),
        category: "general".to_string(),
        key: "k".to_string(),
        metadata: "{}".to_string(),
        tags: "a, b".to_string(),
        agent_id: String::new(),
        run_id: String::new(),
        skill_id: String::new(),
        relevance_score: "0.5".to_string(),
        access_count: 2,
        created_at: "t0".to_string(),
        updated_at: "t0".to_string(),
    }
}

#[test]
fn event_names_are_those_of_the_agents() {
    assert_eq!(events::AGENT_REGISTER, common::AGENT_REGISTER);
    assert_eq!(events::AGENT_STATUS, common::AGENT_STATUS);
    assert_eq!(events::AGENT_SKILL_REPORT, common::AGENT_SKILL_REPORT);
    assert_eq!(events::AGENT_HEALTH, common::AGENT_HEALTH);
    assert_eq!(events::KING_CONFIG_UPDATE, common::KING_CONFIG_UPDATE);
    assert_eq!(events::KING_SYSTEM_INFO, common::KING_SYSTEM_INFO);
    assert_eq!(events::PIPELINE_NEXT, common::PIPELINE_NEXT);
    assert_eq!(events::PIPELINE_STAGE_RESULT, common::PIPELINE_STAGE_RESULT);
    assert_eq!(events::TASK_CREATE, common::TASK_CREATE);
    assert_eq!(events::TASK_UPDATE, common::TASK_UPDATE);
    assert_eq!(events::TASK_GET, common::TASK_GET);
    assert_eq!(events::TASK_LIST, common::TASK_LIST);
    assert_eq!(events::TASK_DELETE, common::TASK_DELETE);
    assert_eq!(events::TASK_CHANGED, common::TASK_CHANGED);
    assert_eq!(events::TASK_INVITE, common::TASK_INVITE);
    assert_eq!(events::TASK_JOIN, common::TASK_JOIN);
    assert_eq!(events::TASK_OUTPUT, common::TASK_OUTPUT);
    assert_eq!(events::TASK_EVALUATE, common::TASK_EVALUATE);
    assert_eq!(events::TASK_SUMMARY, common::TASK_SUMMARY);
    assert_eq!(events::DEBUG_PROMPT, common::DEBUG_PROMPT);
    assert_eq!(events::DEBUG_RESPONSE, common::DEBUG_RESPONSE);
    assert_eq!(events::DEBUG_STREAM, common::DEBUG_STREAM);
    assert_eq!(events::MEMORY_STORE, common::MEMORY_STORE);
    assert_eq!(events::MEMORY_QUERY, common::MEMORY_QUERY);
    assert_eq!(events::MEMORY_UPDATE, common::MEMORY_UPDATE);
    assert_eq!(events::MEMORY_DELETE, common::MEMORY_DELETE);
    assert_eq!(events::MEMORY_CHANGED, common::MEMORY_CHANGED);
    assert_eq!(events::ROOM_KERNEL, common::ROOM_KERNEL);
    assert_eq!(events::ROOM_ROLE_PREFIX, common::ROOM_ROLE_PREFIX);
    assert_eq!(events::ROOM_TASK_PREFIX, common::ROOM_TASK_PREFIX);
}

#[test]
fn every_event_has_one_handler() {
    let handlers = register_handlers();
    assert_eq!(handlers.len(), 20);
    assert!(handlers.contains(&("king:system_info", Handler::SystemInfo)));
    for (i, (event, _)) in handlers.iter().enumerate() {
        assert!(handlers[..i].iter().all(|(other, _)| other != event));
    }
    assert!(handlers.contains(&("agent:register", Handler::Register)));
    assert!(handlers.contains(&("dashboard:subscribe", Handler::Subscribe)));
}

#[test]
fn emissions_are_addressed() {
    assert_eq!(to(&to_room("r", "e", Value::Null)), "room r");
    assert_eq!(to(&to_peers("r", "e", Value::Null)), "peers r");
    assert_eq!(to(&to_everyone("e", Value::Null)), "*");
    let notice = notify_dashboard("x:y", &json(r#"{"a":1}"#));
    assert_eq!((to(&notice), notice.event.as_str()), ("room dashboard".to_string(), "dashboard:event"));
    assert_eq!(notice.payload, json(r#"{"event":"x:y","data":{"a":1}}"#));
    assert_eq!(role_room("update"), "role:update");
    assert_eq!(task_room("t"), "task:t");
}

#[test]
fn kernel_agents_join_the_kernel_room() {
    let mut registry = AgentRegistry::new();
    registry.register(
        "k",
        AgentProcess { pid: 42, agent_folder: "/e/evo-kernel-agent-learning".to_string() },
    );
    let data = json(r#"{"agent_id":"a1","role":"learning","capabilities":["c"],"skills":[],
            "soul_content":"be kind","version":"1.2","binary_path":"/bin/a"}"#);
    let registration = on_register(&data, &registry, "s1").unwrap();
    assert!(registration.rooms.contains(&"kernel".to_string()));
    assert!(registration.rooms.contains(&"role:learning".to_string()));
    assert_eq!(param(&registration.statement.params[0]), "a1");
    assert_eq!(param(&registration.statement.params[2]), "online");
    assert_eq!(param(&registration.statement.params[4]), "[\"c\"]");
    assert!(matches!(registration.statement.params[6], SqlValue::Integer(42)));
    let rest: Vec<&str> = registration.statement.params[7..].iter().map(param).collect();
    assert_eq!(rest, vec!["be kind", "/bin/a", "1.2", "s1"]);
    assert_eq!(param(&registration.record.params[1]), "a1");
    let user = json(r#"{"agent_id":"u1","role":{"user":"bot"}}"#);
    let registration = on_register(&user, &registry, "s2").unwrap();
    assert!(!registration.rooms.contains(&"kernel".to_string()));
    for role in ["skill_manage", "learning", "pre_load", "building", "evaluation"] {
        let data = json(&format!("{{\"agent_id\":\"a\",\"role\":\"{role}\"}}"));
        let rooms = on_register(&data, &registry, "s4").unwrap().rooms;
        assert_eq!(rooms, vec!["kernel".to_string(), format!("role:{role}")]);
    }
    for role in ["user", "update", "Learning", "pre-load", ""] {
        let data = json(&format!("{{\"agent_id\":\"a\",\"role\":\"{role}\"}}"));
        assert!(on_register(&data, &registry, "s4").unwrap().rooms.is_empty());
    }
    assert!(is_kernel_role(Some(Role::PreLoad)) && is_kernel_role(Some(Role::SkillManage)));
    assert!(!is_kernel_role(Some(Role::User)) && !is_kernel_role(None));
    assert!(on_register(&json(r#"{"role":"learning"}"#), &registry, "s3").is_none());
    assert!(rooms_to_join(&data, true).contains(&"kernel".to_string()));
}

#[test]
fn status_and_reports_are_stored() {
    let (statement, notice) = on_status(&json(r#"{"agent_id":"a1","status":"busy"}"#)).unwrap();
    assert_eq!(param(&statement.params[0]), "a1");
    assert_eq!(param(&statement.params[2]), "busy");
    assert_eq!(notice.event, "dashboard:event");
    assert!(on_status(&json(r#"{"status":"busy"}"#)).is_none());
    let (_, report) = on_skill_report(&json(r#"{"agent_id":"a1","skill_id":"s","score":0.5}"#));
    assert_eq!(report.agent_id, "a1");
    let (_, health) = on_health(&json(r#"{"agent_id":"a1"}"#));
    assert_eq!(health.agent_id, "a1");
    assert_ne!(report.task_type, health.task_type);
}

#[test]
fn stage_results_are_read() {
    let data = json(
        r#"{"run_id":"r","stage":"pre_load","agent_id":"a","status":"failed","error":"e","output":{"x":1}}"#,
    );
    let (report, notice) = on_pipeline_stage_result(&data).unwrap();
    assert_eq!(stage_to_str(report.stage), "pre_load");
    assert!(matches!(report.stage, PipelineStage::PreLoad));
    assert_eq!(report.error.as_deref(), Some("e"));
    assert_eq!(report.output, json(r#"{"x":1}"#));
    assert_eq!(notice.event, "dashboard:event");
    assert!(on_pipeline_stage_result(&json(r#"{"run_id":"r","stage":"other"}"#)).is_none());
    assert!(on_pipeline_stage_result(&json("{}")).is_none());
}

#[test]
fn debug_output_goes_to_the_dashboard_and_the_task() {
    let plain = on_debug_stream(&json(r#"{"request_id":"q","delta":"d"}"#));
    assert_eq!(told(&plain), vec!["room dashboard dashboard:event"]);
    let tasked = on_debug_stream(&json(r#"{"request_id":"q","delta":"d","task_id":"t1"}"#));
    assert!(told(&tasked).contains(&"room task:t1 task:output".to_string()));
    assert!(!on_debug_response(&json(r#"{"request_id":"q","response":"r"}"#)).is_empty());
    assert_eq!(on_task_join(&json(r#"{"task_id":"t1"}"#)).as_deref(), Some("task:t1"));
    assert!(on_task_join(&json(r#"{"task_id":""}"#)).is_none());
}

#[test]
fn tasks_are_created_on_request() {
    let (statement, row) =
        on_task_create(&json(r#"{"task_type":"job","payload":{"a":1}}"#)).ok().unwrap();
    assert_eq!(row.task_type, "job");
    assert_eq!(row.status, "pending");
    assert_eq!(row.payload, r#"{"a":1}"#);
    assert_eq!(param(&statement.params[0]), row.id);
    let long = format!(r#"{{"task_type":"{}"}}"#, "x".repeat(65));
    for bad in ["{}", r#"{"task_type":""}"#, long.as_str()] {
        let reply = on_task_create(&json(bad)).err().unwrap();
        assert_eq!(reply.ack["success"], Value::Bool(false));
        assert!(reply.events.is_empty());
    }
    let reply = task_created(Some(&task("t1")));
    assert_eq!(reply.ack["success"], Value::Bool(true));
    assert_eq!(
        told(&reply.events),
        vec!["peers kernel task:changed", "peers dashboard task:changed"]
    );
    assert_eq!(task_created(None).ack["error"], json(r#""internal server error""#));
}

#[test]
fn tasks_are_changed_on_request() {
    let (id, statement) =
        on_task_update(&json(r#"{"task_id":"t1","status":"done","payload":[1]}"#)).ok().unwrap();
    assert_eq!(id, "t1");
    assert!(statement.sql.contains("status = ?2, payload = ?3 WHERE id = ?4"));
    let reply = on_task_update(&json("{}")).err().unwrap();
    assert_eq!(reply.ack, json(r#"{"success":false,"error":"missing task_id"}"#));
    let reply = task_updated("t1", &FoundTask::Row { task: task("t1") });
    assert_eq!(reply.events.len(), 2);
    assert_eq!(reply.events[0].payload["action"], json(r#""updated""#));
    let reply = task_updated("t1", &FoundTask::Missing);
    assert_eq!(reply.ack["error"], json(r#""task not found: t1""#));
    let reply = task_updated("t1", &FoundTask::Failed);
    assert_eq!(reply.ack["error"], json(r#""internal server error""#));
}

#[test]
fn tasks_are_given_on_request() {
    assert_eq!(on_task_get(&json(r#"{"task_id":"t1"}"#)).ok().as_deref(), Some("t1"));
    assert!(on_task_get(&json("{}")).is_err());
    let reply = task_got("t1", &FoundTask::Row { task: task("t1") });
    assert_eq!(reply.ack["task"]["payload"], json(r#"{"k":1}"#));
    assert!(reply.events.is_empty());
    let statement = on_task_list(&json(r#"{"status":"done","limit":9999}"#));
    assert!(matches!(statement.params[1], SqlValue::Integer(500)));
    let reply = tasks_listed(Some(&vec![task("a"), task("b")]));
    assert_eq!(reply.ack["count"], json("2"));
    assert_eq!(tasks_listed(None).ack["success"], Value::Bool(false));
    let reply = task_deleted("t1", Some(true));
    assert_eq!(reply.ack, json(r#"{"success":true,"task_id":"t1"}"#));
    assert_eq!(reply.events[0].payload, json(r#"{"action":"deleted","task_id":"t1"}"#));
    assert_eq!(task_deleted("t1", Some(false)).ack["error"], json(r#""task not found: t1""#));
}

#[test]
fn limits_are_bounded() {
    assert_eq!(read_limit(&json(r#"{"limit":7}"#), 50), 7);
    assert_eq!(read_limit(&json(r#"{"limit":501}"#), 50), 500);
    assert_eq!(read_limit(&json(r#"{"limit":-1}"#), 50), 50);
    assert_eq!(read_limit(&json("{}"), 20), 20);
}

#[test]
fn memories_are_stored_on_request() {
    let data = json(
        r#"{"key":"k","metadata":{"m":1},"tags":["x",2,"y"],"relevance_score":0.25,
            "tiers":[{"tier":"l1","content":"c"},{}],"task_id":"t1"}"#,
    );
    let request = on_memory_store(&data);
    assert_eq!((request.memory.scope.as_str(), request.memory.category.as_str()), ("system", "general"));
    assert_eq!(request.memory.metadata, r#"{"m":1}"#);
    assert_eq!(request.memory.tags, "x,y");
    assert_eq!(request.memory.relevance_score, "0.25");
    assert_eq!(request.tiers.len(), 2);
    assert_eq!((request.tiers[1].tier.as_str(), request.tiers[1].content.as_str()), ("l0", ""));
    assert_eq!(request.task_id.as_deref(), Some("t1"));
    assert!(matches!(&request.statement.params[9], SqlValue::Real(r) if r == "0.25"));
    let bare = on_memory_store(&json("{}"));
    assert_eq!((bare.memory.metadata.as_str(), bare.memory.relevance_score.as_str()), ("{}", "0"));
    assert!(bare.task_id.is_none() && bare.tiers.is_empty());
    assert_eq!(read_tags(&json(r#"{"tags":[]}"#)).as_deref(), Some(""));
    assert!(read_tags(&json(r#"{"tags":"x"}"#)).is_none());
    assert!(read_tiers(&json(r#"{"tiers":{}}"#)).is_empty());
    let reply = memory_stored(Some("m1"));
    assert_eq!(reply.ack, json(r#"{"success":true,"memory_id":"m1"}"#));
    assert_eq!(
        told(&reply.events),
        vec!["peers kernel memory:changed", "peers dashboard dashboard:event"]
    );
    assert_eq!(
        reply.events[1].payload,
        json(r#"{"event":"memory:changed","data":{"action":"created","memory_id":"m1"}}"#)
    );
}

#[test]
fn memories_are_searched_and_given() {
    let statement = on_memory_query(&json(r#"{"query":"one two","scope":"system"}"#));
    assert!(statement.params.iter().any(|p| param(p).contains("one")));
    let tier = MemoryTierRow {
        id: "i".to_string(),
        memory_id: "m1".to_string(),
        tier: "l0".to_string(),
        content: "c".to_string(),
        created_at: "t0".to_string(),
        updated_at: "t0".to_string(),
    };
    let found = vec![FoundMemory { memory: memory("m1"), tiers: vec![tier] }];
    let reply = memories_found(Some(&found));
    assert_eq!(reply.ack["count"], json("1"));
    assert_eq!(reply.ack["memories"][0]["id"], json(r#""m1""#));
    assert_eq!(reply.ack["memories"][0]["tiers"][0]["content"], json(r#""c""#));
    assert_eq!(reply.ack["memories"][0]["relevance_score"], json("0.5"));
    assert_eq!(memories_found(None).ack["success"], Value::Bool(false));
}

#[test]
fn memories_are_changed_and_deleted_on_request() {
    let change = on_memory_update(&json(r#"{"memory_id":"m1","tags":["z"]}"#)).ok().unwrap();
    assert_eq!(change.memory_id, "m1");
    assert!(change.statement.sql.contains("tags = ?2"));
    assert!(on_memory_update(&json(r#"{"memory_id":""}"#)).is_err());
    let reply = memory_updated("m1", &MemoryOutcome::Row { memory: memory("m1") });
    assert_eq!(reply.ack["memory"]["access_count"], json("2"));
    assert_eq!(
        memory_updated("m1", &MemoryOutcome::Missing).ack["error"],
        json(r#""memory not found: m1""#)
    );
    assert_eq!(
        memory_updated("m1", &MemoryOutcome::Failed).ack["error"],
        json(r#""internal server error""#)
    );
    assert_eq!(on_memory_delete(&json(r#"{"memory_id":"m1"}"#)).ok().as_deref(), Some("m1"));
    assert!(on_memory_delete(&json("{}")).is_err());
    assert_eq!(memory_deleted("m1", Some(true)).events.len(), 2);
    assert!(memory_deleted("m1", Some(false)).events.is_empty());
    assert!(memory_deleted("m1", None).events.is_empty());
    assert!(ack_error("x").events.is_empty());
}

#[test]
fn summaries_are_remembered() {
    let data = json(r#"{"task_id":"t1","summary":"went well","score":0.75,"agent_id":"ev"}"#);
    let summary = on_task_summary(&data).ok().unwrap();
    assert_eq!(summary.tiers.len(), 1);
    assert_eq!(summary.tiers[0].tier, "l2");
    assert_eq!(summary.tiers[0].content, "went well");
    assert_eq!(summary.memory.key, "task:t1");
    assert_eq!(summary.memory.relevance_score, "0.75");
    assert_eq!(summary.entry.message, "task evaluated: score=0.75");
    assert!(summary.update.sql.starts_with("UPDATE tasks SET"));
    assert_eq!(summary.entry.task_id, "t1");
    assert_eq!(summary.memory.metadata, r#"{"score":0.75,"task_id":"t1"}"#);
    assert!(on_task_summary(&json(r#"{"summary":"x"}"#)).is_err());
    assert_eq!(summary_stored("t1", true).ack["success"], Value::Bool(true));
    assert!(!task_evaluated(&task("t1")).is_empty());
}
