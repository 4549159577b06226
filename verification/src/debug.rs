//! Prompts and commands that a developer sends from the dashboard.
//!
//! A prompt goes to the agents of a role. A command runs in a terminal of its own;
//! a [`BashSession`] follows its output.

use crate::events::{
    DASHBOARD_EVENT, DEBUG_PROMPT, DEBUG_RESPONSE, DEBUG_STREAM, Emission, EmissionView,
    ROOM_DASHBOARD, ROOM_EVALUATION, ROOM_KERNEL, TASK_CHANGED, TASK_EVALUATE, TASK_INVITE,
    TASK_OUTPUT, emissions, notice, notify_dashboard, role_room, role_room_name, room_event,
    task_room, task_room_name, to_room,
};
use crate::json::{
    Fields, JsonTree, compact_text, copy, decimal_value, flag, get_filled, get_real, get_text,
    get_uint, int_tree, null, opt_text_tree, opt_text_value, real_tree, signed, text_or_else, uint,
    value_tree,
};
use crate::socket_server::{granted, refusal};
use crate::sql::Statement;
use crate::stamp::{is_uuid, new_id};
use crate::steps::{Step, StepView, log_step, no_steps, put_log, put_send, put_update, steps};
use crate::task_db::{TaskRow, create_task, create_task_statement, is_new_task};
use crate::text::{
    borrowed, byte_len, concat2, concat3, decimal_int, decimal_int_text, fit, fitting,
    lemma_encode_concat, lemma_fitting, lemma_is_fitting, opt_text, owned, replace, replaced,
    text_or, texts,
};
use serde_json::Value;
use vstd::prelude::*;
use vstd::utf8::encode_utf8;

verus! {

fn refuse(error: &str) -> (r: Value)
    ensures
        value_tree(r) == refusal(error@),
{
    Fields::new().with("success", flag(false)).text("error", error).done()
}

/// The answer to a request that was taken on: its id and its task.
pub open spec fn accepted(request_id: Seq<char>, task_id: Seq<char>) -> JsonTree {
    granted().text("request_id"@, request_id).text("task_id"@, task_id)
}

fn accept(request_id: &str, task_id: &str) -> (r: Value)
    ensures
        value_tree(r) == accepted(request_id@, task_id@),
{
    Fields::new().with("success", flag(true)).text("request_id", request_id).text(
        "task_id",
        task_id,
    ).done()
}

/// The events on a new task of a developer: the kernel agents are invited and the
/// dashboard is told. Without a task there are none.
pub open spec fn new_task_events(task_id: Seq<char>, task_type: Seq<char>) -> Seq<EmissionView> {
    if task_id.len() == 0 {
        Seq::empty()
    } else {
        seq![
            room_event(
                ROOM_KERNEL@,
                TASK_INVITE@,
                JsonTree::empty().text("task_id"@, task_id).text("task_type"@, task_type),
            ),
            room_event(
                ROOM_DASHBOARD@,
                TASK_CHANGED@,
                JsonTree::empty().text("action"@, "created"@).with(
                    "task"@,
                    JsonTree::empty().text("id"@, task_id).text("task_type"@, task_type).text(
                        "status"@,
                        "running"@,
                    ),
                ),
            ),
        ]
    }
}

/// Tells of a new task of a developer. The id is empty where the task could not be
/// stored.
pub fn announce_new_task(task_id: &str, task_type: &str) -> (r: Vec<Emission>)
    ensures
        emissions(r@) == new_task_events(task_id@, task_type@),
{
    if task_id.is_empty() {
        let none: Vec<Emission> = Vec::new();
        assert(emissions(none@) =~= Seq::empty());
        return none;
    }
    let invite = Fields::new().text("task_id", task_id).text("task_type", task_type).done();
    let task = Fields::new().text("id", task_id).text("task_type", task_type).text(
        "status",
        "running",
    ).done();
    let change = Fields::new().text("action", "created").with("task", task).done();
    let r = vec![
        to_room(ROOM_KERNEL, TASK_INVITE, invite),
        to_room(ROOM_DASHBOARD, TASK_CHANGED, change),
    ];
    assert(emissions(r@) =~= new_task_events(task_id@, task_type@));
    r
}

// Prompts.

/// A prompt for the agents of a role. The temperature is written as a decimal number.
pub struct DebugPrompt {
    pub agent_role: String,
    pub model: String,
    pub prompt: String,
    pub provider: Option<String>,
    pub temperature: Option<String>,
    pub max_tokens: Option<u64>,
}

/// What a [`DebugPrompt`] holds.
pub struct PromptView {
    pub agent_role: Seq<char>,
    pub model: Seq<char>,
    pub prompt: Seq<char>,
    pub provider: Option<Seq<char>>,
    pub temperature: Option<Seq<char>>,
    pub max_tokens: Option<u64>,
}

impl View for DebugPrompt {
    type V = PromptView;

    open spec fn view(&self) -> PromptView {
        PromptView {
            agent_role: self.agent_role@,
            model: self.model@,
            prompt: self.prompt@,
            provider: opt_text(self.provider),
            temperature: opt_text(self.temperature),
            max_tokens: self.max_tokens,
        }
    }
}

/// The prompt that a request holds, or why it is refused.
pub open spec fn prompt_of(body: JsonTree) -> Result<PromptView, Seq<char>> {
    match body.get_filled("agent_role"@) {
        Some(agent_role) => match body.get_filled("prompt"@) {
            Some(prompt) => Ok(
                PromptView {
                    agent_role,
                    model: text_or(body.get_text("model"@), "gpt-4o-mini"@),
                    prompt,
                    provider: body.get_text("provider"@),
                    temperature: body.get_real("temperature"@),
                    max_tokens: body.get_uint("max_tokens"@),
                },
            ),
            None => Err("prompt is required"@),
        },
        None => Err("agent_role is required"@),
    }
}

fn read_prompt(body: &Value) -> (r: Result<DebugPrompt, Value>)
    ensures
        match r {
            Ok(prompt) => prompt_of(value_tree(*body)) == Ok::<PromptView, Seq<char>>(prompt@),
            Err(reply) => prompt_of(value_tree(*body)) matches Err(error) && value_tree(reply)
                == refusal(error),
        },
{
    let agent_role = match get_filled(body, "agent_role") {
        Some(role) => role,
        None => {
            return Err(refuse("agent_role is required"));
        },
    };
    let model = text_or_else(body, "model", "gpt-4o-mini");
    let prompt = match get_filled(body, "prompt") {
        Some(prompt) => prompt,
        None => {
            return Err(refuse("prompt is required"));
        },
    };
    Ok(
        DebugPrompt {
            agent_role: agent_role.to_string(),
            model: model.to_string(),
            prompt: prompt.to_string(),
            provider: owned(get_text(body, "provider")),
            temperature: get_real(body, "temperature"),
            max_tokens: get_uint(body, "max_tokens"),
        },
    )
}

/// A prompt with its id and the task that is stored for it.
pub struct PromptRequest {
    pub prompt: DebugPrompt,
    pub request_id: String,
    pub store: Statement,
    pub task: TaskRow,
}

/// The payload of the task of a prompt.
pub open spec fn prompt_task_payload(prompt: PromptView) -> Seq<char> {
    compact_text(
        JsonTree::empty().text("prompt"@, prompt.prompt).text("model"@, prompt.model).text(
            "agent_role"@,
            prompt.agent_role,
        ),
    )
}

/// Handles a request to send a prompt to the agents of a role: the prompt with a new
/// id and the task that is stored for it, or the refusal.
pub fn debug_prompt_handler(body: &Value) -> (r: Result<PromptRequest, Value>)
    ensures
        match r {
            Ok(request) => {
                &&& prompt_of(value_tree(*body)) == Ok::<PromptView, Seq<char>>(request.prompt@)
                &&& is_uuid(request.request_id@)
                &&& is_new_task(
                    request.task@,
                    "debug_prompt"@,
                    "running"@,
                    None,
                    prompt_task_payload(request.prompt@),
                    ""@,
                    ""@,
                    ""@,
                    ""@,
                )
                &&& request.store@ == create_task_statement(request.task@)
            },
            Err(reply) => prompt_of(value_tree(*body)) matches Err(error) && value_tree(reply)
                == refusal(error),
        },
{
    match read_prompt(body) {
        Ok(prompt) => {
            let request_id = new_id();
            let payload = Fields::new().text("prompt", prompt.prompt.as_str()).text(
                "model",
                prompt.model.as_str(),
            ).text("agent_role", prompt.agent_role.as_str()).written();
            let (store, task) = create_task(
                "debug_prompt",
                "running",
                None,
                payload.as_str(),
                "",
                "",
                "",
                "",
            );
            Ok(PromptRequest { prompt, request_id, store, task })
        },
        Err(reply) => Err(reply),
    }
}

/// The room of the agents that get a prompt. Their role is written with underscores.
pub open spec fn prompt_room(agent_role: Seq<char>) -> Seq<char> {
    role_room_name(replaced(agent_role, '-', "_"@))
}

/// A number as JSON where there is one.
pub open spec fn opt_real_tree(item: Option<Seq<char>>) -> JsonTree {
    match item {
        Some(number) => real_tree(number),
        None => JsonTree::Null,
    }
}

/// A number as JSON where there is one.
pub open spec fn opt_uint_tree(item: Option<u64>) -> JsonTree {
    match item {
        Some(number) => JsonTree::UInt(number),
        None => JsonTree::Null,
    }
}

/// What the agents get of a prompt.
pub open spec fn prompt_payload(
    prompt: PromptView,
    request_id: Seq<char>,
    task_id: Seq<char>,
) -> JsonTree {
    JsonTree::empty().text("request_id"@, request_id).text("task_id"@, task_id).text(
        "model"@,
        prompt.model,
    ).text("prompt"@, prompt.prompt).with("provider"@, opt_text_tree(prompt.provider)).with(
        "temperature"@,
        opt_real_tree(prompt.temperature),
    ).with("max_tokens"@, opt_uint_tree(prompt.max_tokens))
}

/// Sends a prompt to the agents of its role. The id of the task is empty where the
/// task could not be stored.
pub fn send_prompt(prompt: &DebugPrompt, request_id: &str, task_id: &str) -> (r: Emission)
    ensures
        r@ == room_event(
            prompt_room(prompt@.agent_role),
            DEBUG_PROMPT@,
            prompt_payload(prompt@, request_id@, task_id@),
        ),
{
    let role = replace(prompt.agent_role.as_str(), '-', "_");
    let room = role_room(role.as_str());
    let temperature = match &prompt.temperature {
        Some(number) => decimal_value(number.as_str()),
        None => null(),
    };
    let max_tokens = match prompt.max_tokens {
        Some(number) => uint(number),
        None => null(),
    };
    let payload = Fields::new().text("request_id", request_id).text("task_id", task_id).text(
        "model",
        prompt.model.as_str(),
    ).text("prompt", prompt.prompt.as_str()).with(
        "provider",
        opt_text_value(borrowed(&prompt.provider)),
    ).with("temperature", temperature).with("max_tokens", max_tokens).done();
    to_room(room.as_str(), DEBUG_PROMPT, payload)
}

/// The answer to a request to send a prompt, given whether it was sent.
pub fn prompt_sent(request_id: &str, task_id: &str, sent: Result<(), &str>) -> (r: Value)
    ensures
        value_tree(r) == (match sent {
            Ok(_) => accepted(request_id@, task_id@),
            Err(error) => refusal(error@),
        }),
{
    match sent {
        Ok(_) => accept(request_id, task_id),
        Err(error) => refuse(error),
    }
}

// Commands.

/// A command with its id and the task that is stored for it.
pub struct BashRequest {
    pub command: String,
    pub request_id: String,
    pub store: Statement,
    pub task: TaskRow,
}

/// Handles a request to run a command: the command with the id that the request gives
/// or a new one and the task that is stored for it, or the refusal.
pub fn debug_bash_handler(body: &Value) -> (r: Result<BashRequest, Value>)
    ensures
        match r {
            Ok(request) => {
                &&& value_tree(*body).get_filled("command"@) == Some(request.command@)
                &&& match value_tree(*body).get_filled("request_id"@) {
                    Some(request_id) => request.request_id@ == request_id,
                    None => is_uuid(request.request_id@),
                }
                &&& is_new_task(
                    request.task@,
                    "debug_bash"@,
                    "running"@,
                    None,
                    compact_text(JsonTree::empty().text("command"@, request.command@)),
                    ""@,
                    ""@,
                    ""@,
                    ""@,
                )
                &&& request.store@ == create_task_statement(request.task@)
            },
            Err(reply) => value_tree(*body).get_filled("command"@) is None && value_tree(reply)
                == refusal("command is required"@),
        },
{
    match get_filled(body, "command") {
        Some(command) => {
            let request_id = match get_filled(body, "request_id") {
                Some(id) => id.to_string(),
                None => new_id(),
            };
            let payload = Fields::new().text("command", command).written();
            let (store, task) = create_task(
                "debug_bash",
                "running",
                None,
                payload.as_str(),
                "",
                "",
                "",
                "",
            );
            Ok(BashRequest { command: command.to_string(), request_id, store, task })
        },
        None => Err(refuse("command is required")),
    }
}

/// The answer to a request to run a command, which comes before the command ends.
pub fn bash_started(request_id: &str, task_id: &str) -> (r: Value)
    ensures
        value_tree(r) == accepted(request_id@, task_id@),
{
    accept(request_id, task_id)
}

/// A program in a terminal: its arguments, its environment and the size of the
/// terminal.
pub struct TerminalCommand {
    pub program: String,
    pub args: Vec<String>,
    pub env: Vec<(String, String)>,
    pub rows: u16,
    pub cols: u16,
}

/// The names and values of an environment.
pub open spec fn pairs(items: Seq<(String, String)>) -> Seq<(Seq<char>, Seq<char>)> {
    items.map_values(|item: (String, String)| (item.0@, item.1@))
}

/// The environment of a command.
pub open spec fn terminal_env() -> Seq<(Seq<char>, Seq<char>)> {
    seq![("TERM"@, "xterm-256color"@), ("COLUMNS"@, "220"@), ("LINES"@, "50"@)]
}

/// The program that runs a command.
pub fn terminal_command(command: &str) -> (r: TerminalCommand)
    ensures
        r.program@ == "bash"@,
        texts(r.args@) == seq!["-c"@, command@],
        pairs(r.env@) == terminal_env(),
        r.rows == 50,
        r.cols == 220,
{
    let args = vec!["-c".to_string(), command.to_string()];
    let env = vec![
        ("TERM".to_string(), "xterm-256color".to_string()),
        ("COLUMNS".to_string(), "220".to_string()),
        ("LINES".to_string(), "50".to_string()),
    ];
    assert(texts(args@) =~= seq!["-c"@, command@]);
    assert(pairs(env@) =~= terminal_env());
    TerminalCommand { program: "bash".to_string(), args, env, rows: 50, cols: 220 }
}

/// A failure to run a program in a terminal.
#[derive(Clone, Copy, Debug, PartialEq, Eq, Structural)]
pub enum TerminalFault {
    Open,
    Spawn,
    Reader,
}

/// The name of a failure.
pub open spec fn fault_name(fault: TerminalFault) -> Seq<char> {
    match fault {
        TerminalFault::Open => "[PTY error: "@,
        TerminalFault::Spawn => "[spawn error: "@,
        TerminalFault::Reader => "[reader error: "@,
    }
}

/// What is put out where a program cannot be run in a terminal.
pub fn fault_text(fault: TerminalFault, error: &str) -> (r: String)
    ensures
        r@ == fault_name(fault) + error@ + "]\n"@,
{
    let name = match fault {
        TerminalFault::Open => "[PTY error: ",
        TerminalFault::Spawn => "[spawn error: ",
        TerminalFault::Reader => "[reader error: ",
    };
    concat3(name, error, "]\n")
}

/// What came of reading from a terminal.
#[derive(Clone, Copy, Debug, PartialEq, Eq, Structural)]
pub enum TerminalRead {
    /// There is no more output.
    End,
    /// Output came; it was passed on or there is nobody left to pass it on to.
    Output { delivered: bool },
    /// A signal came.
    Interrupted,
    /// The terminal failed, as it may when the program ends.
    Failed,
}

/// Whether a terminal is read again after a read.
pub fn reads_again(read: TerminalRead) -> (r: bool)
    ensures
        r == (read is Interrupted || read == (TerminalRead::Output { delivered: true })),
{
    match read {
        TerminalRead::End => false,
        TerminalRead::Output { delivered } => delivered,
        TerminalRead::Interrupted => true,
        TerminalRead::Failed => false,
    }
}

/// The exit code of a program, given the one that it ended with, read as a signed
/// number. A program that could not be run or waited for failed.
pub fn exit_code(code: Option<u32>) -> (r: i32)
    ensures
        r == (match code {
            Some(c) => c as i32,
            None => 1i32,
        }),
{
    match code {
        Some(c) => c as i32,
        None => 1,
    }
}

/// The text that ends the output of a command.
pub open spec fn exit_text(exit_code: i32) -> Seq<char> {
    "\n[exit "@ + decimal_int(exit_code as int) + "]"@
}

fn write_exit(exit_code: i32) -> (r: String)
    ensures
        r@ == exit_text(exit_code),
{
    let number = decimal_int_text(exit_code as i64);
    concat3("\n[exit ", number.as_str(), "]")
}

/// What the dashboard is told of a piece of output of a command without a task.
pub fn plain_chunk(request_id: &str, delta: &str, chunk_index: u32) -> (r: Emission)
    ensures
        r@ == room_event(
            ROOM_DASHBOARD@,
            DASHBOARD_EVENT@,
            notice(
                DEBUG_STREAM@,
                JsonTree::empty().text("request_id"@, request_id@).text("delta"@, delta@).with(
                    "chunk_index"@,
                    JsonTree::UInt(chunk_index as u64),
                ),
            ),
        ),
{
    let data = Fields::new().text("request_id", request_id).text("delta", delta).with(
        "chunk_index",
        uint(chunk_index as u64),
    ).done();
    notify_dashboard(DEBUG_STREAM, &data)
}

/// What the dashboard is told of the end of a command without a task.
pub fn plain_exit(request_id: &str, exit_code: i32, latency_ms: u64) -> (r: Emission)
    ensures
        r@ == room_event(
            ROOM_DASHBOARD@,
            DASHBOARD_EVENT@,
            notice(
                DEBUG_RESPONSE@,
                JsonTree::empty().text("request_id"@, request_id@).text(
                    "response"@,
                    exit_text(exit_code),
                ).with("latency_ms"@, JsonTree::UInt(latency_ms)).text("entry_type"@, "bash"@),
            ),
        ),
{
    let response = write_exit(exit_code);
    let data = Fields::new().text("request_id", request_id).text(
        "response",
        response.as_str(),
    ).with("latency_ms", uint(latency_ms)).text("entry_type", "bash").done();
    notify_dashboard(DEBUG_RESPONSE, &data)
}

/// The greatest number of bytes of output that are kept for the evaluation.
pub const MAX_ACCUMULATED: usize = 8192;

/// The time between two entries with output in the log of a task, in milliseconds.
pub const LOG_INTERVAL_MS: u64 = 1500;

/// The output of a command while it runs. Its beginning is kept for the evaluation,
/// and what is not yet in the log of the task is kept for the log. The session is
/// full as soon as some output was left out of what is kept for the evaluation.
pub struct BashSession {
    pub request_id: String,
    pub task_id: String,
    pub chunk_index: u32,
    pub accumulated: String,
    pub full: bool,
    pub log_buffer: String,
}

/// What a [`BashSession`] holds.
pub struct BashView {
    pub request_id: Seq<char>,
    pub task_id: Seq<char>,
    pub chunk_index: u32,
    pub accumulated: Seq<char>,
    pub full: bool,
    pub log_buffer: Seq<char>,
}

impl View for BashSession {
    type V = BashView;

    open spec fn view(&self) -> BashView {
        BashView {
            request_id: self.request_id@,
            task_id: self.task_id@,
            chunk_index: self.chunk_index,
            accumulated: self.accumulated@,
            full: self.full,
            log_buffer: self.log_buffer@,
        }
    }
}

/// The number of bytes that there is room for after the kept output.
pub open spec fn room_after(kept: Seq<char>) -> nat {
    if byte_len(kept) >= MAX_ACCUMULATED {
        0
    } else {
        (MAX_ACCUMULATED - byte_len(kept)) as nat
    }
}

/// The kept output with the longest start of a piece of output after it that there is
/// room for.
pub open spec fn kept_with(kept: Seq<char>, text: Seq<char>) -> Seq<char> {
    kept + fitting(text, room_after(kept))
}

impl BashView {
    /// What the dashboard is told of a piece of output.
    pub open spec fn stream_data(self, text: Seq<char>) -> JsonTree {
        JsonTree::empty().text("request_id"@, self.request_id).text("task_id"@, self.task_id).text(
            "delta"@,
            text,
        ).with("chunk_index"@, JsonTree::UInt(self.chunk_index as u64))
    }

    /// What the room of the task is told of a piece of output.
    pub open spec fn output_data(self, text: Seq<char>) -> JsonTree {
        JsonTree::empty().text("task_id"@, self.task_id).text("request_id"@, self.request_id).text(
            "delta"@,
            text,
        ).with("chunk_index"@, JsonTree::UInt(self.chunk_index as u64))
    }

    /// Whether output goes to the log of the task, given the time since it did.
    pub open spec fn flushes(self, since_flush_ms: u64) -> bool {
        self.task_id.len() > 0 && since_flush_ms >= LOG_INTERVAL_MS
    }

    /// The step that puts output in the log of the task.
    pub open spec fn chunk_log(self, output: Seq<char>) -> StepView {
        log_step(self.task_id, "output"@, "bash output chunk"@, output, ""@, "running"@)
    }

    /// The steps on a piece of output.
    pub open spec fn output_steps(self, text: Seq<char>, since_flush_ms: u64) -> Seq<StepView> {
        let told = Seq::<StepView>::empty().push(
            StepView::Send {
                emission: room_event(
                    ROOM_DASHBOARD@,
                    DASHBOARD_EVENT@,
                    notice(DEBUG_STREAM@, self.stream_data(text)),
                ),
            },
        );
        let shared = if self.task_id.len() > 0 {
            told.push(
                StepView::Send {
                    emission: room_event(
                        task_room_name(self.task_id),
                        TASK_OUTPUT@,
                        self.output_data(text),
                    ),
                },
            )
        } else {
            told
        };
        if self.flushes(since_flush_ms) {
            shared.push(self.chunk_log(self.log_buffer + text))
        } else {
            shared
        }
    }

    /// The session after a piece of output.
    pub open spec fn after_output(self, text: Seq<char>, since_flush_ms: u64) -> BashView {
        BashView {
            chunk_index: (self.chunk_index + 1) as u32,
            accumulated: if self.full {
                self.accumulated
            } else {
                kept_with(self.accumulated, text)
            },
            full: self.full || byte_len(text) > room_after(self.accumulated),
            log_buffer: if self.flushes(since_flush_ms) {
                Seq::empty()
            } else if self.task_id.len() > 0 {
                self.log_buffer + text
            } else {
                self.log_buffer
            },
            ..self
        }
    }

    /// The steps after the last piece of output.
    pub open spec fn drain_steps(self) -> Seq<StepView> {
        if self.task_id.len() > 0 && self.log_buffer.len() > 0 {
            Seq::<StepView>::empty().push(self.chunk_log(self.log_buffer))
        } else {
            Seq::empty()
        }
    }
}

impl BashSession {
    /// A session at the start of a command. The id of the task is empty where there is
    /// none.
    pub fn new(request_id: &str, task_id: &str) -> (r: BashSession)
        ensures
            r@ == (BashView {
                request_id: request_id@,
                task_id: task_id@,
                chunk_index: 0,
                accumulated: Seq::empty(),
                full: false,
                log_buffer: Seq::empty(),
            }),
    {
        let r = BashSession {
            request_id: request_id.to_string(),
            task_id: task_id.to_string(),
            chunk_index: 0,
            accumulated: String::new(),
            full: false,
            log_buffer: String::new(),
        };
        assert(r.accumulated@ =~= Seq::<char>::empty());
        assert(r.log_buffer@ =~= Seq::<char>::empty());
        r
    }

    /// Takes a piece of output: the dashboard and the room of the task are told, and
    /// the log of the task gets what was kept for it where enough time has passed
    /// since it last did. Gives the steps, and whether the log gets the output.
    pub fn on_output(&mut self, text: &str, since_flush_ms: u64) -> (r: (Vec<Step>, bool))
        requires
            old(self)@.chunk_index < u32::MAX,
        ensures
            final(self)@ == old(self)@.after_output(text@, since_flush_ms),
            steps(r.0@) == old(self)@.output_steps(text@, since_flush_ms),
            r.1 == old(self)@.flushes(since_flush_ms),
    {
        let ghost before = self@;
        let has_task = !self.task_id.as_str().is_empty();
        let mut items = no_steps();
        let data = Fields::new().text("request_id", self.request_id.as_str()).text(
            "task_id",
            self.task_id.as_str(),
        ).text("delta", text).with("chunk_index", uint(self.chunk_index as u64)).done();
        put_send(&mut items, notify_dashboard(DEBUG_STREAM, &data));
        if has_task {
            let output = Fields::new().text("task_id", self.task_id.as_str()).text(
                "request_id",
                self.request_id.as_str(),
            ).text("delta", text).with("chunk_index", uint(self.chunk_index as u64)).done();
            let room = task_room(self.task_id.as_str());
            put_send(&mut items, to_room(room.as_str(), TASK_OUTPUT, output));
        }
        if !self.full {
            let used: usize = self.accumulated.as_str().as_bytes().len();
            let room: usize = if used >= MAX_ACCUMULATED {
                0
            } else {
                MAX_ACCUMULATED - used
            };
            let part = fit(text, room);
            self.accumulated.append(part.as_str());
            self.full = text.as_bytes().len() > room;
        }
        let mut flushed = false;
        if has_task {
            self.log_buffer.append(text);
            if since_flush_ms >= LOG_INTERVAL_MS {
                put_log(
                    &mut items,
                    self.task_id.as_str(),
                    "output",
                    "bash output chunk",
                    self.log_buffer.as_str(),
                    "",
                    "running",
                );
                self.log_buffer = String::new();
                assert(self.log_buffer@ =~= Seq::<char>::empty());
                flushed = true;
            }
        }
        self.chunk_index = self.chunk_index + 1;
        assert(self@ == before.after_output(text@, since_flush_ms));
        (items, flushed)
    }

    /// Ends the output: the log of the task gets what is still kept for it.
    pub fn drain(&self) -> (r: Vec<Step>)
        ensures
            steps(r@) == self@.drain_steps(),
    {
        let mut items = no_steps();
        if !self.task_id.as_str().is_empty() && !self.log_buffer.as_str().is_empty() {
            put_log(
                &mut items,
                self.task_id.as_str(),
                "output",
                "bash output chunk",
                self.log_buffer.as_str(),
                "",
                "running",
            );
        }
        items
    }
}

/// The status of the task of a command that ended.
pub open spec fn exit_status(exit_code: i32) -> Seq<char> {
    if exit_code == 0 {
        "completed"@
    } else {
        "failed"@
    }
}

/// What the dashboard is told of the end of a command.
pub open spec fn response_data(
    request_id: Seq<char>,
    task_id: Seq<char>,
    exit_code: i32,
    latency_ms: u64,
) -> JsonTree {
    JsonTree::empty().text("request_id"@, request_id).text("task_id"@, task_id).text(
        "response"@,
        exit_text(exit_code),
    ).with("latency_ms"@, JsonTree::UInt(latency_ms)).text("entry_type"@, "bash"@)
}

/// What is evaluated of a command.
pub open spec fn evaluation_data(
    request_id: Seq<char>,
    task_id: Seq<char>,
    exit_code: i32,
    latency_ms: u64,
    output: Seq<char>,
) -> JsonTree {
    JsonTree::empty().text("task_id"@, task_id).text("request_id"@, request_id).with(
        "exit_code"@,
        int_tree(exit_code as i64),
    ).with("latency_ms"@, JsonTree::UInt(latency_ms)).text("output_preview"@, output)
}

/// The steps at the end of a command.
pub open spec fn exit_steps(
    request_id: Seq<char>,
    task_id: Seq<char>,
    exit_code: i32,
    latency_ms: u64,
    output: Seq<char>,
) -> Seq<StepView> {
    let told = Seq::<StepView>::empty().push(
        StepView::Send {
            emission: room_event(
                ROOM_DASHBOARD@,
                DASHBOARD_EVENT@,
                notice(
                    DEBUG_RESPONSE@,
                    response_data(request_id, task_id, exit_code, latency_ms),
                ),
            ),
        },
    );
    if task_id.len() == 0 {
        told
    } else {
        let evaluation = evaluation_data(request_id, task_id, exit_code, latency_ms, output);
        told.push(
            StepView::UpdateTask {
                task_id,
                status: Some(exit_status(exit_code)),
                current_stage: None,
                summary: None,
            },
        ).push(
            log_step(
                task_id,
                "info"@,
                "bash command finished with exit code "@ + decimal_int(exit_code as int),
                output,
                ""@,
                exit_status(exit_code),
            ),
        ).push(
            StepView::Send { emission: room_event(ROOM_EVALUATION@, TASK_EVALUATE@, evaluation) },
        ).push(
            StepView::Send {
                emission: room_event(task_room_name(task_id), TASK_EVALUATE@, evaluation),
            },
        ).push(
            StepView::Send {
                emission: room_event(
                    ROOM_DASHBOARD@,
                    TASK_CHANGED@,
                    JsonTree::empty().text("action"@, "updated"@).with(
                        "task"@,
                        JsonTree::empty().text("id"@, task_id).text(
                            "status"@,
                            exit_status(exit_code),
                        ),
                    ),
                ),
            },
        )
    }
}

/// Ends a command: the dashboard is told, the task is completed or failed and logged,
/// and the command is handed over for evaluation.
pub fn bash_finished(
    request_id: &str,
    task_id: &str,
    exit_code: i32,
    latency_ms: u64,
    output: &str,
) -> (r: Vec<Step>)
    ensures
        steps(r@) == exit_steps(request_id@, task_id@, exit_code, latency_ms, output@),
{
    let mut items = no_steps();
    let response = write_exit(exit_code);
    let data = Fields::new().text("request_id", request_id).text("task_id", task_id).text(
        "response",
        response.as_str(),
    ).with("latency_ms", uint(latency_ms)).text("entry_type", "bash").done();
    put_send(&mut items, notify_dashboard(DEBUG_RESPONSE, &data));
    if !task_id.is_empty() {
        let status = if exit_code == 0 {
            "completed"
        } else {
            "failed"
        };
        put_update(&mut items, task_id, Some(status), None, None);
        let number = decimal_int_text(exit_code as i64);
        let message = concat2("bash command finished with exit code ", number.as_str());
        put_log(&mut items, task_id, "info", message.as_str(), output, "", status);
        let evaluation = Fields::new().text("task_id", task_id).text(
            "request_id",
            request_id,
        ).with("exit_code", signed(exit_code as i64)).with("latency_ms", uint(latency_ms)).text(
            "output_preview",
            output,
        ).done();
        let room = task_room(task_id);
        put_send(&mut items, to_room(ROOM_EVALUATION, TASK_EVALUATE, copy(&evaluation)));
        put_send(&mut items, to_room(room.as_str(), TASK_EVALUATE, evaluation));
        let task = Fields::new().text("id", task_id).text("status", status).done();
        let change = Fields::new().text("action", "updated").with("task", task).done();
        put_send(&mut items, to_room(ROOM_DASHBOARD, TASK_CHANGED, change));
    }
    items
}

/// The session after a list of pieces of output, each with the time since output last
/// went to the log.
pub open spec fn after_chunks(
    session: BashView,
    chunks: Seq<Seq<char>>,
    times: Seq<u64>,
) -> BashView
    decreases chunks.len(),
{
    if chunks.len() == 0 {
        session
    } else {
        after_chunks(session, chunks.drop_last(), times.drop_last()).after_output(
            chunks.last(),
            times.last(),
        )
    }
}

/// The output that a list of pieces makes up.
pub open spec fn all_text(chunks: Seq<Seq<char>>) -> Seq<char>
    decreases chunks.len(),
{
    if chunks.len() == 0 {
        Seq::empty()
    } else {
        all_text(chunks.drop_last()) + chunks.last()
    }
}

/// A character has between one and four bytes.
proof fn lemma_one_char(c: char)
    ensures
        1 <= byte_len(seq![c]) <= 4,
{
    assert(seq![c].drop_first() =~= Seq::<char>::empty());
    assert(encode_utf8(seq![c].drop_first()).len() == 0);
}

/// What is kept of the output and whether some was left out, for every list of pieces.
proof fn lemma_kept(session: BashView, chunks: Seq<Seq<char>>, times: Seq<u64>)
    requires
        session.accumulated.len() == 0,
        !session.full,
    ensures
        after_chunks(session, chunks, times).accumulated == fitting(
            all_text(chunks),
            MAX_ACCUMULATED as nat,
        ),
        after_chunks(session, chunks, times).full <==> byte_len(all_text(chunks))
            > MAX_ACCUMULATED,
    decreases chunks.len(),
{
    if chunks.len() > 0 {
        let max = MAX_ACCUMULATED as nat;
        let before = all_text(chunks.drop_last());
        let last = chunks.last();
        let all = all_text(chunks);
        lemma_kept(session, chunks.drop_last(), times.drop_last());
        lemma_encode_concat(before, last);
        lemma_fitting(before, max);
        if byte_len(before) > max {
            let n = fitting(before, max).len() as int;
            if n == before.len() {
                assert(before.take(n) =~= before);
            }
            assert(all.take(n) =~= before.take(n));
            assert(all.take(n + 1) =~= before.take(n + 1));
            lemma_is_fitting(all, max, n);
        } else {
            let room = (max - byte_len(before)) as nat;
            lemma_fitting(last, room);
            let part = fitting(last, room);
            let n = (before.len() + part.len()) as int;
            assert(all.take(n) =~= before + part);
            lemma_encode_concat(before, part);
            if n < all.len() {
                let longer = last.take(part.len() as int + 1);
                assert(all.take(n + 1) =~= before + longer);
                lemma_encode_concat(before, longer);
            }
            lemma_is_fitting(all, max, n);
        }
    } else {
        assert(session.accumulated =~= Seq::<char>::empty());
    }
}

/// What is kept for the evaluation is the beginning of the output of the command,
/// whatever the pieces it comes in: the longest that has no more bytes than are kept
/// at most. It is all of the output where that fits, and it is not empty unless the
/// output is.
pub proof fn law_first_output_is_kept(
    session: BashView,
    chunks: Seq<Seq<char>>,
    times: Seq<u64>,
)
    requires
        session.accumulated.len() == 0,
        !session.full,
    ensures
        ({
            let all = all_text(chunks);
            let kept = after_chunks(session, chunks, times).accumulated;
            &&& kept == fitting(all, 8192)
            &&& kept.is_prefix_of(all)
            &&& byte_len(kept) <= 8192
            &&& byte_len(all) <= 8192 ==> kept == all
            &&& kept.len() < all.len() ==> byte_len(all.take(kept.len() as int + 1)) > 8192
            &&& all.len() > 0 ==> kept.len() > 0
        }),
{
    lemma_kept(session, chunks, times);
    let all = all_text(chunks);
    lemma_fitting(all, 8192);
    if all.len() > 0 {
        lemma_one_char(all[0]);
        assert(all.take(1) =~= seq![all[0]]);
    }
}

/// The output that went to the log on a list of pieces of output.
pub open spec fn logged(session: BashView, chunks: Seq<Seq<char>>, times: Seq<u64>) -> Seq<char>
    decreases chunks.len(),
{
    if chunks.len() == 0 {
        Seq::empty()
    } else {
        let rest = chunks.drop_last();
        let before = after_chunks(session, rest, times.drop_last());
        let told = logged(session, rest, times.drop_last());
        if before.flushes(times.last()) {
            told + (before.log_buffer + chunks.last())
        } else {
            told
        }
    }
}

/// No output of the command of a task is lost to its log and none is there twice: what
/// went to the log, with what is still kept for it, is the whole output.
pub proof fn law_log_gets_all_output(session: BashView, chunks: Seq<Seq<char>>, times: Seq<u64>)
    requires
        session.task_id.len() > 0,
        session.log_buffer.len() == 0,
    ensures
        logged(session, chunks, times) + after_chunks(session, chunks, times).log_buffer
            == all_text(chunks),
        after_chunks(session, chunks, times).task_id == session.task_id,
    decreases chunks.len(),
{
    if chunks.len() > 0 {
        law_log_gets_all_output(session, chunks.drop_last(), times.drop_last());
        assert(logged(session, chunks, times) + after_chunks(session, chunks, times).log_buffer
            =~= all_text(chunks));
    } else {
        assert(session.log_buffer =~= Seq::<char>::empty());
    }
}

} // verus!
