use evo_king::debug::{
    BashSession, TerminalFault, TerminalRead, announce_new_task, bash_finished, bash_started,
    debug_bash_handler, debug_prompt_handler, exit_code, fault_text, plain_chunk, plain_exit,
    prompt_sent, reads_again, send_prompt, terminal_command,
};
use evo_king::events::{Emission, Target};
use evo_king::steps::Step;
use serde_json::Value;

fn json(text: &str) -> Value {
    serde_json::from_str(text).unwrap()
}

fn room(emission: &Emission) -> &str {
    match &emission.target {
        Target::Room(room) => room,
        _ => "?",
    }
}

fn kind(step: &Step) -> String {
    match step {
        Step::Send { emission } => format!("send {} {}", room(emission), emission.event),
        Step::RecordLog { entry } => format!("log {} {:?}", entry.message, entry.detail),
        Step::UpdateTask { status, .. } => format!("task {}", status.as_deref().unwrap_or("-")),
        _ => "?".to_string(),
    }
}

fn kinds(steps: &[Step]) -> Vec<String> {
    steps.iter().map(kind).collect()
}

#[test]
fn prompts_go_to_the_agents_of_a_role() {
    let body = json(r#"{"agent_role":"skill-manage","prompt":"hi","temperature":1,"max_tokens":9}"#);
    let request = debug_prompt_handler(&body).ok().unwrap();
    assert_eq!(request.prompt.model, "gpt-4o-mini");
    assert_eq!(request.request_id.len(), 36);
    assert_eq!(request.task.task_type, "debug_prompt");
    assert_eq!(
        request.task.payload,
        r#"{"agent_role":"skill-manage","model":"gpt-4o-mini","prompt":"hi"}"#
    );
    let sent = send_prompt(&request.prompt, "q1", "t1");
    assert_eq!((room(&sent), sent.event.as_str()), ("role:skill_manage", "debug:prompt"));
    assert_eq!(
        sent.payload,
        json(
            r#"{"request_id":"q1","task_id":"t1","model":"gpt-4o-mini","prompt":"hi",
                "provider":null,"temperature":1.0,"max_tokens":9}"#
        )
    );
    assert_eq!(
        prompt_sent("q1", "t1", Ok(())),
        json(r#"{"success":true,"request_id":"q1","task_id":"t1"}"#)
    );
    assert_eq!(prompt_sent("q1", "t1", Err("x")), json(r#"{"success":false,"error":"x"}"#));
}

#[test]
fn prompts_need_a_role_and_words() {
    let refused = debug_prompt_handler(&json(r#"{"agent_role":"","prompt":""}"#)).err().unwrap();
    assert_eq!(refused, json(r#"{"success":false,"error":"agent_role is required"}"#));
    let refused = debug_prompt_handler(&json(r#"{"agent_role":"x"}"#)).err().unwrap();
    assert_eq!(refused, json(r#"{"success":false,"error":"prompt is required"}"#));
}

#[test]
fn new_tasks_are_announced() {
    assert!(announce_new_task("", "debug_bash").is_empty());
    let events = announce_new_task("t1", "debug_bash");
    assert_eq!(
        events.iter().map(|e| (room(e), e.event.as_str())).collect::<Vec<_>>(),
        vec![("kernel", "task:invite"), ("dashboard", "task:changed")]
    );
    assert_eq!(
        events[1].payload,
        json(r#"{"action":"created","task":{"id":"t1","task_type":"debug_bash","status":"running"}}"#)
    );
}

#[test]
fn commands_keep_the_id_of_their_request() {
    let request = debug_bash_handler(&json(r#"{"command":"ls","request_id":"mine"}"#)).ok().unwrap();
    assert_eq!((request.command.as_str(), request.request_id.as_str()), ("ls", "mine"));
    assert_eq!(request.task.payload, r#"{"command":"ls"}"#);
    let request = debug_bash_handler(&json(r#"{"command":"ls","request_id":""}"#)).ok().unwrap();
    assert_eq!(request.request_id.len(), 36);
    let refused = debug_bash_handler(&json("{}")).err().unwrap();
    assert_eq!(refused["error"], json(r#""command is required""#));
    assert_eq!(
        bash_started("q", "t"),
        json(r#"{"success":true,"request_id":"q","task_id":"t"}"#)
    );
}

#[test]
fn commands_run_in_a_terminal() {
    let command = terminal_command("echo hi");
    assert_eq!(command.program, "bash");
    assert_eq!(command.args, vec!["-c", "echo hi"]);
    assert_eq!((command.rows, command.cols), (50, 220));
    assert_eq!(command.env[0], ("TERM".to_string(), "xterm-256color".to_string()));
    assert_eq!(fault_text(TerminalFault::Open, "e"), "[PTY error: e]\n");
    assert_eq!(fault_text(TerminalFault::Spawn, "e"), "[spawn error: e]\n");
    assert_eq!(fault_text(TerminalFault::Reader, "e"), "[reader error: e]\n");
    assert!(reads_again(TerminalRead::Interrupted));
    assert!(reads_again(TerminalRead::Output { delivered: true }));
    assert!(!reads_again(TerminalRead::Output { delivered: false }));
    assert!(!reads_again(TerminalRead::End) && !reads_again(TerminalRead::Failed));
    assert_eq!((exit_code(Some(0)), exit_code(Some(1)), exit_code(None)), (0, 1, 1));
    assert_eq!((exit_code(Some(3)), exit_code(Some(127))), (3, 127));
    assert_eq!(exit_code(Some(0xC000_0005)), -1073741819);
}

#[test]
fn output_is_numbered_and_logged_in_time() {
    let mut session = BashSession::new("q", "t1");
    let (steps, flushed) = session.on_output("one", 10);
    assert!(!flushed);
    assert_eq!(kinds(&steps), vec!["send dashboard dashboard:event", "send task:t1 task:output"]);
    match &steps[1] {
        Step::Send { emission } => assert_eq!(
            emission.payload,
            json(r#"{"task_id":"t1","request_id":"q","delta":"one","chunk_index":0}"#)
        ),
        _ => panic!("nothing sent"),
    }
    let (steps, flushed) = session.on_output(" two", 1500);
    assert!(flushed);
    assert_eq!(kinds(&steps)[2], "log bash output chunk \"one two\"");
    let (_, flushed) = session.on_output(" three", 0);
    assert!(!flushed);
    assert_eq!(session.chunk_index, 3);
    assert_eq!(kinds(&session.drain()), vec!["log bash output chunk \" three\""]);
    assert_eq!(session.accumulated, "one two three");
}

#[test]
fn output_without_a_task_only_goes_to_the_dashboard() {
    let mut session = BashSession::new("q", "");
    let (steps, flushed) = session.on_output("x", 9999);
    assert_eq!(kinds(&steps), vec!["send dashboard dashboard:event"]);
    assert!(!flushed);
    assert!(session.drain().is_empty());
    assert_eq!(kinds(&bash_finished("q", "", 0, 5, "x")), vec!["send dashboard dashboard:event"]);
}

#[test]
fn the_first_bytes_of_the_output_are_kept() {
    let mut session = BashSession::new("q", "t");
    let mut all = String::new();
    for i in 0..12 {
        let chunk = format!("{i:04}").repeat(256);
        session.on_output(&chunk, 0);
        all.push_str(&chunk);
    }
    assert_eq!(session.accumulated.len(), 8192);
    assert_eq!(session.accumulated, all[..8192]);
}

#[test]
fn no_character_of_the_output_is_cut() {
    let mut session = BashSession::new("q", "t");
    session.on_output(&"a".repeat(8191), 0);
    session.on_output("\u{e9}", 0);
    assert_eq!(session.accumulated.len(), 8191);
    assert!(session.full);
    // What comes after a character that was left out is left out too.
    session.on_output("b", 0);
    assert_eq!(session.accumulated, "a".repeat(8191));
    let mut other = BashSession::new("q", "t");
    other.on_output(&"a".repeat(8190), 0);
    other.on_output("b\u{e9}c", 0);
    assert!(other.accumulated.ends_with("ab"));
    assert_eq!(other.accumulated.len(), 8191);
    let mut wide = BashSession::new("q", "t");
    wide.on_output(&"\u{4e16}".repeat(3000), 0);
    assert_eq!(wide.accumulated, "\u{4e16}".repeat(2730));
    assert_eq!(wide.chunk_index, 1);
}

#[test]
fn finished_commands_are_evaluated() {
    let steps = bash_finished("q", "t1", 1, 250, "out");
    assert_eq!(
        kinds(&steps),
        vec![
            "send dashboard dashboard:event",
            "task failed",
            "log bash command finished with exit code 1 \"out\"",
            "send role:evaluation task:evaluate",
            "send task:t1 task:evaluate",
            "send dashboard task:changed",
        ]
    );
    match (&steps[0], &steps[3]) {
        (Step::Send { emission: told }, Step::Send { emission: evaluated }) => {
            assert_eq!(told.payload["data"]["response"], json(r#""\n[exit 1]""#));
            assert_eq!(
                evaluated.payload,
                json(
                    r#"{"task_id":"t1","request_id":"q","exit_code":1,"latency_ms":250,
                        "output_preview":"out"}"#
                )
            );
        }
        _ => panic!("nothing sent"),
    }
    assert_eq!(kinds(&bash_finished("q", "t1", 0, 1, ""))[1], "task completed");
    let missing = bash_finished("q", "t1", exit_code(Some(127)), 1, "");
    assert_eq!(kinds(&missing)[2], "log bash command finished with exit code 127 \"\"");
}

#[test]
fn commands_without_tracking() {
    let chunk = plain_chunk("q", "d", 2);
    assert_eq!(
        chunk.payload,
        json(r#"{"event":"debug:stream","data":{"request_id":"q","delta":"d","chunk_index":2}}"#)
    );
    let done = plain_exit("q", -1, 3);
    assert_eq!(done.payload["data"]["response"], json(r#""\n[exit -1]""#));
    assert_eq!(done.payload["data"]["entry_type"], json(r#""bash""#));
}
