//! Events between the king, its agents and the dashboard.

use crate::json::{Fields, JsonTree, copy, value_tree};
use crate::text::concat2;
use serde_json::Value;
use vstd::prelude::*;

verus! {

pub const AGENT_REGISTER: &'static str = "agent:register";

pub const AGENT_STATUS: &'static str = "agent:status";

pub const AGENT_SKILL_REPORT: &'static str = "agent:skill_report";

pub const AGENT_HEALTH: &'static str = "agent:health";

pub const KING_CONFIG_UPDATE: &'static str = "king:config_update";

pub const KING_SYSTEM_INFO: &'static str = "king:system_info";

pub const PIPELINE_NEXT: &'static str = "pipeline:next";

pub const PIPELINE_STAGE_RESULT: &'static str = "pipeline:stage_result";

pub const ERROR_RECOVERY_REQUEST: &'static str = "error:recovery_request";

pub const TASK_DECOMPOSE: &'static str = "task:decompose";

pub const TASK_CREATE: &'static str = "task:create";

pub const TASK_UPDATE: &'static str = "task:update";

pub const TASK_GET: &'static str = "task:get";

pub const TASK_LIST: &'static str = "task:list";

pub const TASK_DELETE: &'static str = "task:delete";

pub const TASK_CHANGED: &'static str = "task:changed";

pub const TASK_INVITE: &'static str = "task:invite";

pub const TASK_JOIN: &'static str = "task:join";

pub const TASK_OUTPUT: &'static str = "task:output";

pub const TASK_EVALUATE: &'static str = "task:evaluate";

pub const TASK_SUMMARY: &'static str = "task:summary";

pub const TASK_LOG: &'static str = "task:log";

pub const DEBUG_PROMPT: &'static str = "debug:prompt";

pub const DEBUG_RESPONSE: &'static str = "debug:response";

pub const DEBUG_STREAM: &'static str = "debug:stream";

pub const MEMORY_STORE: &'static str = "memory:store";

pub const MEMORY_QUERY: &'static str = "memory:query";

pub const MEMORY_UPDATE: &'static str = "memory:update";

pub const MEMORY_DELETE: &'static str = "memory:delete";

pub const MEMORY_CHANGED: &'static str = "memory:changed";

pub const DASHBOARD_SUBSCRIBE: &'static str = "dashboard:subscribe";

pub const DASHBOARD_EVENT: &'static str = "dashboard:event";

/// The room of the kernel agents.
pub const ROOM_KERNEL: &'static str = "kernel";

/// The room of the dashboard clients.
pub const ROOM_DASHBOARD: &'static str = "dashboard";

/// The room of the agent that evaluates.
pub const ROOM_EVALUATION: &'static str = "role:evaluation";

/// Beginning of the names of the rooms of the roles.
pub const ROOM_ROLE_PREFIX: &'static str = "role:";

/// Beginning of the names of the rooms of the tasks.
pub const ROOM_TASK_PREFIX: &'static str = "task:";

/// The room of a role.
pub open spec fn role_room_name(role: Seq<char>) -> Seq<char> {
    ROOM_ROLE_PREFIX@ + role
}

/// The room of a task.
pub open spec fn task_room_name(task_id: Seq<char>) -> Seq<char> {
    ROOM_TASK_PREFIX@ + task_id
}

/// The room of a role.
pub fn role_room(role: &str) -> (r: String)
    ensures
        r@ == role_room_name(role@),
{
    concat2(ROOM_ROLE_PREFIX, role)
}

/// The room of a task.
pub fn task_room(task_id: &str) -> (r: String)
    ensures
        r@ == task_room_name(task_id@),
{
    concat2(ROOM_TASK_PREFIX, task_id)
}

/// Different roles have different rooms.
pub proof fn law_role_rooms_are_distinct(a: Seq<char>, b: Seq<char>)
    ensures
        role_room_name(a) == role_room_name(b) <==> a == b,
{
    let n = ROOM_ROLE_PREFIX@.len() as int;
    assert(role_room_name(a).skip(n) =~= a);
    assert(role_room_name(b).skip(n) =~= b);
}

/// Different tasks have different rooms, and none of them is the room of a role.
pub proof fn law_task_rooms_are_distinct(a: Seq<char>, b: Seq<char>)
    ensures
        task_room_name(a) == task_room_name(b) <==> a == b,
        task_room_name(a) != role_room_name(b),
{
    let n = ROOM_TASK_PREFIX@.len() as int;
    assert(task_room_name(a).skip(n) =~= a);
    assert(task_room_name(b).skip(n) =~= b);
    reveal_strlit("task:");
    reveal_strlit("role:");
    assert(task_room_name(a)[0] == 't');
    assert(role_room_name(b)[0] == 'r');
}

/// Who an event is sent to.
pub enum Target {
    /// Every client.
    Everyone,
    /// The clients in a room.
    Room(String),
    /// The clients in a room but the one that is being served.
    Peers(String),
}

/// What a [`Target`] holds.
pub enum TargetView {
    Everyone,
    Room(Seq<char>),
    Peers(Seq<char>),
}

impl View for Target {
    type V = TargetView;

    open spec fn view(&self) -> TargetView {
        match self {
            Target::Everyone => TargetView::Everyone,
            Target::Room(room) => TargetView::Room(room@),
            Target::Peers(room) => TargetView::Peers(room@),
        }
    }
}

/// An event to send.
pub struct Emission {
    pub target: Target,
    pub event: String,
    pub payload: Value,
}

/// What an [`Emission`] holds.
pub struct EmissionView {
    pub target: TargetView,
    pub event: Seq<char>,
    pub payload: JsonTree,
}

impl View for Emission {
    type V = EmissionView;

    open spec fn view(&self) -> EmissionView {
        EmissionView {
            target: self.target@,
            event: self.event@,
            payload: value_tree(self.payload),
        }
    }
}

/// What each of a list of events holds.
pub open spec fn emissions(items: Seq<Emission>) -> Seq<EmissionView> {
    items.map_values(|item: Emission| item@)
}

/// An event for a room.
pub open spec fn room_event(room: Seq<char>, event: Seq<char>, payload: JsonTree) -> EmissionView {
    EmissionView { target: TargetView::Room(room), event, payload }
}

/// An event for the others in a room.
pub open spec fn peer_event(room: Seq<char>, event: Seq<char>, payload: JsonTree) -> EmissionView {
    EmissionView { target: TargetView::Peers(room), event, payload }
}

/// An event for every client.
pub open spec fn public_event(event: Seq<char>, payload: JsonTree) -> EmissionView {
    EmissionView { target: TargetView::Everyone, event, payload }
}

/// What the dashboard is told of an event.
pub open spec fn notice(event: Seq<char>, data: JsonTree) -> JsonTree {
    JsonTree::empty().text("event"@, event).with("data"@, data)
}

/// An event for a room.
pub fn to_room(room: &str, event: &str, payload: Value) -> (r: Emission)
    ensures
        r@ == room_event(room@, event@, value_tree(payload)),
{
    Emission { target: Target::Room(room.to_string()), event: event.to_string(), payload }
}

/// An event for the others in a room.
pub fn to_peers(room: &str, event: &str, payload: Value) -> (r: Emission)
    ensures
        r@ == peer_event(room@, event@, value_tree(payload)),
{
    Emission { target: Target::Peers(room.to_string()), event: event.to_string(), payload }
}

/// An event for every client.
pub fn to_everyone(event: &str, payload: Value) -> (r: Emission)
    ensures
        r@ == public_event(event@, value_tree(payload)),
{
    Emission { target: Target::Everyone, event: event.to_string(), payload }
}

/// What the dashboard is told of an event.
pub fn notice_value(event: &str, data: &Value) -> (r: Value)
    ensures
        value_tree(r) == notice(event@, value_tree(*data)),
{
    Fields::new().text("event", event).with("data", copy(data)).done()
}

/// Tells the dashboard of an event.
pub fn notify_dashboard(event: &str, data: &Value) -> (r: Emission)
    ensures
        r@ == room_event(ROOM_DASHBOARD@, DASHBOARD_EVENT@, notice(event@, value_tree(*data))),
{
    to_room(ROOM_DASHBOARD, DASHBOARD_EVENT, notice_value(event, data))
}

} // verus!
