use evo_king::api::{
    EventsQuery, agent_detail_handler, agent_detailed, agent_history_handler, agent_history_listed,
    agent_model_handler, agent_model_put_handler, agent_model_set, events_handler, events_listed,
    gateway_models_handler, log_tailed, models_listed, models_url, newest_log_file,
};
use evo_king::events::{to_everyone, to_peers, to_room};
use evo_king::history::{
    EventFilter, agent_crashed, agent_disconnected, agent_failed, agent_registered, agent_respawned,
    event_answered, event_came, event_columns, event_went, history_columns, list_agent_history,
    list_socket_events, purge_agent_history, purge_agent_history_at, purge_socket_events,
    purge_socket_events_at, row_to_event, row_to_history,
};
use evo_king::sql::{SqlValue, Statement, check_row};
use evo_king::stamp::Instant;
use evo_king::task_db::{
    AgentMetadata, AgentRow, SetupKind, SetupOutcome, after_setup, agent_columns, get_agent, init_db,
    row_to_agent,
};
use serde_json::Value;

fn json(text: &str) -> Value {
    serde_json::from_str(text).unwrap()
}

fn texts(statement: &Statement) -> Vec<String> {
    statement
        .params
        .iter()
        .map(|value| match value {
            SqlValue::Null => "NULL".to_string(),
            SqlValue::Integer(n) => n.to_string(),
            SqlValue::Real(r) => r.clone(),
            SqlValue::Text(t) => t.clone(),
        })
        .collect()
}

fn agent(version: &str, socket_id: &str) -> AgentMetadata {
    AgentMetadata {
        agent_id: "a1".to_string(),
        role: "learning".to_string(),
        capabilities: "[\"c\"]".to_string(),
        skills: "[]".to_string(),
        pid: 42,
        soul_content: "be kind".to_string(),
        binary_path: "/bin/a".to_string(),
        version: version.to_string(),
        socket_id: socket_id.to_string(),
    }
}

/// A database in memory.
struct Database {
    runtime: tokio::runtime::Runtime,
    connection: libsql::Connection,
}

impl Database {
    fn new() -> Database {
        let runtime = tokio::runtime::Runtime::new().unwrap();
        let connection = runtime.block_on(async {
            libsql::Builder::new_local(":memory:").build().await.unwrap().connect().unwrap()
        });
        let database = Database { runtime, connection };
        for step in init_db() {
            let outcome = database.runtime.block_on(async {
                match step.kind {
                    SetupKind::Batch => database.connection.execute_batch(&step.sql).await.map(|_| ()),
                    _ => database.connection.execute(&step.sql, ()).await.map(|_| ()),
                }
            });
            let error = outcome.err().map(|e| e.to_string());
            let after = after_setup(&step, error.as_deref());
            assert!(matches!(after, SetupOutcome::Done | SetupOutcome::Present), "{:?}", error);
        }
        database
    }

    fn values(statement: &Statement) -> Vec<libsql::Value> {
        statement
            .params
            .iter()
            .map(|param| match param {
                SqlValue::Null => libsql::Value::Null,
                SqlValue::Integer(n) => libsql::Value::Integer(*n),
                SqlValue::Real(text) => libsql::Value::Real(text.parse().unwrap()),
                SqlValue::Text(text) => libsql::Value::Text(text.clone()),
            })
            .collect()
    }

    fn execute(&self, statement: &Statement) -> u64 {
        let values = Self::values(statement);
        self.runtime.block_on(self.connection.execute(&statement.sql, values)).unwrap()
    }

    fn both(&self, work: (Statement, Statement)) -> (u64, u64) {
        (self.execute(&work.0), self.execute(&work.1))
    }

    fn query(&self, statement: &Statement) -> Vec<Vec<SqlValue>> {
        let values = Self::values(statement);
        self.runtime.block_on(async {
            let mut rows = self.connection.query(&statement.sql, values).await.unwrap();
            let mut all = Vec::new();
            while let Some(row) = rows.next().await.unwrap() {
                let mut cells = Vec::new();
                for i in 0..row.column_count() {
                    cells.push(match row.get_value(i).unwrap() {
                        libsql::Value::Null => SqlValue::Null,
                        libsql::Value::Integer(n) => SqlValue::Integer(n),
                        libsql::Value::Real(r) => SqlValue::Real(r.to_string()),
                        libsql::Value::Text(text) => SqlValue::Text(text),
                        libsql::Value::Blob(_) => panic!("blob"),
                    });
                }
                all.push(cells);
            }
            all
        })
    }

    fn agent(&self) -> AgentRow {
        let rows = self.query(&get_agent("a1"));
        assert_eq!(rows.len(), 1);
        assert!(check_row(&rows[0], &agent_columns()));
        row_to_agent(&rows[0]).unwrap()
    }

    /// The changes of the agent, oldest first.
    fn changes(&self) -> Vec<String> {
        let mut changes: Vec<String> = Vec::new();
        for row in self.query(&list_agent_history("a1", 100, 0)) {
            assert!(check_row(&row, &history_columns()));
            let change = row_to_history(&row).unwrap();
            assert_eq!(change.pid, 42);
            changes.insert(0, format!(
                "{} -> {} ({}) {}",
                change.prev_status, change.new_status, change.trigger, change.detail
            ));
        }
        changes
    }
}

#[test]
fn changes_of_agents_are_recorded_in_the_database() {
    let db = Database::new();
    assert_eq!(db.both(agent_registered(&agent("1.2", "s1"))), (1, 1));
    let first = db.agent();
    assert_eq!((first.registration_count, first.crash_count), (1, 0));
    assert_eq!((first.soul_content.as_str(), first.version.as_str()), ("be kind", "1.2"));
    assert_eq!((first.socket_id.as_str(), first.status.as_str()), ("s1", "online"));

    assert_eq!(db.both(agent_crashed("learning")), (1, 1));
    assert_eq!(db.both(agent_crashed("learning")), (0, 0));
    assert_eq!(db.both(agent_crashed("building")), (0, 0));
    assert_eq!((db.agent().crash_count, db.agent().status), (1, "crashed".to_string()));
    assert_eq!(db.both(agent_respawned("learning")), (1, 1));
    assert_eq!(db.both(agent_registered(&agent("", "s2"))), (1, 1));
    assert_eq!(db.both(agent_respawned("learning")), (0, 0));
    let again = db.agent();
    assert_eq!((again.registration_count, again.crash_count), (2, 1));
    assert_eq!(again.first_registered_at, first.first_registered_at);
    assert_eq!((again.version.as_str(), again.socket_id.as_str()), ("1.2", "s2"));

    // The old socket no longer stands for the agent.
    assert_eq!(db.both(agent_disconnected("s1")), (0, 0));
    assert_eq!(db.both(agent_disconnected("")), (0, 0));
    assert_eq!(db.both(agent_disconnected("s2")), (1, 1));
    assert_eq!((db.agent().status.as_str(), db.agent().socket_id.as_str()), ("disconnected", ""));
    assert_eq!(db.both(agent_failed("learning", "no binary")), (1, 1));
    assert_eq!(
        db.changes(),
        vec![
            " -> online (register) ",
            "online -> crashed (monitor) ",
            "crashed -> respawned (monitor) ",
            "respawned -> online (register) ",
            "online -> disconnected (disconnect) ",
            "disconnected -> failed (monitor) no binary",
        ]
    );
    assert_eq!(db.execute(&purge_agent_history()), 0);
    assert_eq!(db.changes().len(), 6);
}

#[test]
fn registering_again_is_no_change() {
    let db = Database::new();
    db.both(agent_registered(&agent("1.2", "s1")));
    assert_eq!(db.both(agent_registered(&agent("1.3", "s1"))), (0, 1));
    assert_eq!((db.agent().registration_count, db.agent().version), (2, "1.3".to_string()));
}

#[test]
fn events_are_recorded_in_the_database() {
    let db = Database::new();
    db.execute(&event_came("agent:status", "s1", &json(r#"{"agent_id":"a1"}"#)));
    db.execute(&event_went(&to_room("kernel", "king:command", json(r#"{"x":1}"#))));
    let all = EventFilter { agent_id: None, event_name: None, direction: None, since: None, until: None };
    let rows = db.query(&list_socket_events(&all, 10, 0));
    assert_eq!(rows.len(), 2);
    assert!(check_row(&rows[0], &event_columns()));
    let sent = EventFilter { direction: Some("outbound"), ..all };
    let rows = db.query(&list_socket_events(&sent, 10, 0));
    assert_eq!(rows.len(), 1);
    let event = row_to_event(&rows[0]).unwrap();
    assert_eq!((event.event_name.as_str(), event.room.as_str()), ("king:command", "kernel"));
    assert_eq!((event.payload.as_str(), event.socket_id.as_str()), ("{\"x\":1}", ""));
    let of_agent = EventFilter {
        agent_id: Some("a1"),
        event_name: Some("agent:status"),
        direction: Some("inbound"),
        since: Some("2000"),
        until: Some("9999"),
    };
    assert_eq!(db.query(&list_socket_events(&of_agent, 10, 0)).len(), 1);
    assert_eq!(db.query(&list_socket_events(&of_agent, 10, 1)).len(), 0);
    assert_eq!(db.execute(&purge_socket_events()), 0);
}

#[test]
fn old_records_are_purged_at_a_time() {
    // 2024-01-31T00:00:00Z
    let now = Instant { secs: 1_706_659_200, nanos: 0 };
    assert_eq!(texts(&purge_socket_events_at(now)), vec!["2024-01-24T00:00:00+00:00"]);
    assert_eq!(texts(&purge_agent_history_at(now)), vec!["2024-01-01T00:00:00+00:00"]);
    let start = Instant { secs: 0, nanos: 0 };
    assert_eq!(texts(&purge_socket_events_at(start)), vec!["1969-12-25T00:00:00+00:00"]);
    let present = texts(&purge_socket_events());
    assert!(present[0].as_str() > "2024" && texts(&purge_agent_history()) < present);
    let db = Database::new();
    db.both(agent_registered(&agent("1.2", "s1")));
    db.execute(&event_came("agent:status", "s1", &json("{}")));
    // The end of the year 9998.
    let late = Instant { secs: 253_370_764_800, nanos: 0 };
    assert_eq!(db.execute(&purge_socket_events_at(now)), 0);
    assert_eq!(db.execute(&purge_socket_events_at(late)), 1);
    assert_eq!(db.execute(&purge_agent_history_at(late)), 1);
    assert!(db.changes().is_empty());
}

#[test]
fn recorded_payloads_are_cut() {
    let long = Value::String("\u{e9}".repeat(3000));
    let recorded = texts(&event_came("e", "s", &long));
    assert_eq!(recorded[6], format!("\"{}", "\u{e9}".repeat(2047)));
    assert_eq!(recorded[6].len(), 4095);
    assert_eq!(texts(&event_came("e", "s", &json("{}")))[6], "{}");
    let went = texts(&event_went(&to_peers("task:t", "e", json(r#"{"agent_id":"a"}"#))));
    assert_eq!(went[1..6].to_vec(), vec!["e", "outbound", "a", "", "task:t"]);
    assert_eq!(texts(&event_went(&to_everyone("e", json("{}"))))[5], "");
    let answered = texts(&event_answered("king:system_info", "s9", &json("{}")));
    assert_eq!(answered[1..6].to_vec(), vec!["king:system_info", "outbound", "", "s9", ""]);
}

#[test]
fn rows_without_what_they_must_hold_are_refused() {
    let cells = |hole: usize| -> Vec<SqlValue> {
        (0..8)
            .map(|i| {
                if i == hole {
                    SqlValue::Null
                } else if i == 6 {
                    SqlValue::Integer(7)
                } else {
                    SqlValue::Text(format!("c{i}"))
                }
            })
            .collect()
    };
    for (hole, error) in [
        (0, "read id"),
        (1, "read agent_id"),
        (3, "read new_status"),
        (7, "read created_at"),
    ] {
        assert_eq!(row_to_history(&cells(hole)).err().as_deref(), Some(error));
    }
    let change = row_to_history(&cells(2)).unwrap();
    assert_eq!((change.prev_status.as_str(), change.detail.as_str(), change.pid), ("", "c5", 7));
    let event = |hole: usize| -> Vec<SqlValue> {
        (0..8)
            .map(|i| if i == hole { SqlValue::Null } else { SqlValue::Text(format!("c{i}")) })
            .collect()
    };
    for (hole, error) in [(0, "read id"), (1, "read event_name"), (7, "read created_at")] {
        assert_eq!(row_to_event(&event(hole)).err().as_deref(), Some(error));
    }
    assert_eq!(row_to_event(&event(2)).unwrap().direction, "inbound");
    assert_eq!(row_to_event(&event(6)).unwrap().payload, "{}");
}

#[test]
fn agents_are_shown_in_detail() {
    let db = Database::new();
    db.both(agent_registered(&agent("1.2", "s1")));
    let (agent_query, changes_query) = agent_detail_handler("a1");
    assert_eq!(texts(&changes_query), vec!["a1", "20", "0"]);
    let found = row_to_agent(&db.query(&agent_query)[0]).unwrap();
    let changes = vec![row_to_history(&db.query(&changes_query)[0]).unwrap()];
    let detail = agent_detailed(Ok(Some(&found)), Ok(&changes));
    assert_eq!(detail["agent"]["soul_content"], json(r#""be kind""#));
    assert_eq!(detail["agent"]["capabilities"], json(r#"["c"]"#));
    assert_eq!(detail["history"][0]["new_status"], json(r#""online""#));
    assert_eq!(agent_detailed(Ok(None), Ok(&changes)), json(r#"{"error":"agent not found"}"#));
    assert_eq!(agent_detailed(Err("x"), Ok(&changes)), json(r#"{"error":"x"}"#));
    assert_eq!(agent_detailed(Ok(Some(&found)), Err("y")), json(r#"{"error":"y"}"#));

    assert_eq!(texts(&agent_history_handler("a1", None, None)), vec!["a1", "100", "0"]);
    assert_eq!(texts(&agent_history_handler("a1", Some(9999), Some(3))), vec!["a1", "500", "3"]);
    let listed = agent_history_listed("a1", Ok(&changes));
    assert_eq!((&listed["count"], &listed["agent_id"]), (&json("1"), &json(r#""a1""#)));
    assert_eq!(agent_history_listed("a1", Err("x")), json(r#"{"error":"x"}"#));

    assert_eq!(agent_model_handler("a1", Ok("m")), json(r#"{"agent_id":"a1","model":"m"}"#));
    assert_eq!(agent_model_handler("a1", Err("x")), json(r#"{"error":"x"}"#));
    let set = agent_model_put_handler("a1", &json(r#"{"model":"m"}"#)).ok().unwrap();
    assert_eq!(db.execute(&set), 1);
    assert_eq!(db.agent().preferred_model, "m");
    assert_eq!(
        agent_model_put_handler("a1", &json("{}")).err(),
        Some(json(r#"{"success":false,"error":"model is required"}"#))
    );
    assert_eq!(agent_model_set(Ok(())), json(r#"{"success":true}"#));
}

#[test]
fn events_and_logs_are_asked_for() {
    let asked = EventsQuery {
        agent_id: Some("a1".to_string()),
        event_name: None,
        direction: None,
        since: Some("t0".to_string()),
        until: None,
        limit: None,
        offset: None,
    };
    let statement = events_handler(&asked);
    assert!(statement.sql.ends_with(
        "WHERE 1=1 AND agent_id = ?1 AND created_at >= ?2 ORDER BY created_at DESC LIMIT ?3 OFFSET ?4"
    ));
    assert_eq!(texts(&statement), vec!["a1", "t0", "100", "0"]);
    assert_eq!(events_listed(Ok(&Vec::new())), json(r#"{"events":[],"count":0}"#));
    assert_eq!(events_listed(Err("x")), json(r#"{"error":"x"}"#));

    let names: Vec<String> = ["king.log.2024-01-02", "gate.log", "king.log.2024-01-03", "king.log"]
        .iter()
        .map(|name| name.to_string())
        .collect();
    assert_eq!(newest_log_file(&names, "king").as_deref(), Some("king.log.2024-01-03"));
    assert_eq!(newest_log_file(&names, "gate").as_deref(), Some("gate.log"));
    assert_eq!(newest_log_file(&names, "other"), None);
    assert_eq!(
        log_tailed("king", Some(2), Ok("a\nb\nc\n")),
        json(r#"{"component":"king","lines":["b","c"],"count":2}"#)
    );
    assert_eq!(log_tailed("king", None, Ok("a"))["lines"], json(r#"["a"]"#));
    assert_eq!(log_tailed("king", Some(0), Ok("a"))["lines"], json("[]"));
    assert_eq!(log_tailed("king", None, Err("x")), json(r#"{"error":"x"}"#));
}

#[test]
fn the_gateway_lists_its_models() {
    let config = json(r#"{"server":{"host":"127.0.0.1","port":8080},"providers":[]}"#);
    assert_eq!(models_url(&config).as_deref(), Some("http://127.0.0.1:8080/v1/models"));
    assert_eq!(models_url(&json(r#"{"server":{"host":"h"}}"#)), None);
    assert_eq!(models_url(&json("{}")), None);
    assert_eq!(
        gateway_models_handler(r#"{"server":{"host":"h","port":1}}"#).as_deref(),
        Ok("http://h:1/v1/models")
    );
    assert_eq!(
        gateway_models_handler("{}").err().as_deref(),
        Some("gateway address not configured")
    );
    assert!(gateway_models_handler("{").err().unwrap().contains("EOF"));
    assert_eq!(models_listed(Ok(&json(r#"{"data":[]}"#))), json(r#"{"data":[]}"#));
    assert_eq!(models_listed(Err("x")), json(r#"{"error":"x"}"#));
}
