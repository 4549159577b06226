//! What happened: the changes of the status of agents, and the events on the sockets.

use crate::events::{Emission, Target, TargetView};
use crate::json::{
    Fields, JsonTree, compact_text, int_tree, list, signed, text_or_else, to_text, trees, value_tree,
};
use crate::sql::{
    Column, SqlCell, SqlValue, Statement, StatementView, cell_text, cells, integer_or,
    read_integer_or, read_text, read_text_or, row_fits,
};
use crate::stamp::{Instant, clock, is_time, is_uuid, new_id, now_text, rfc3339, utc_text};
use crate::task_db::{
    AgentMetadata, AgentMetadataView, mark_agent_crashed_by_role,
    mark_agent_crashed_by_role_statement, mark_agent_failed_by_role,
    mark_agent_failed_with_statement, register_agent, register_agent_statement, spawn_error_note,
};
use crate::text::{byte_len, fit, fitting, lemma_fitting, opt_str, text_or};
use serde_json::Value;
use vstd::prelude::*;

verus! {

// The changes of the status of agents.

/// A change of the status of an agent: from what to what, what brought it about, and the
/// process of the agent.
#[derive(Clone, Debug)]
pub struct AgentHistoryRow {
    pub id: String,
    pub agent_id: String,
    pub prev_status: String,
    pub new_status: String,
    pub trigger: String,
    pub detail: String,
    pub pid: i64,
    pub created_at: String,
}

/// What an [`AgentHistoryRow`] holds.
pub struct AgentHistoryView {
    pub id: Seq<char>,
    pub agent_id: Seq<char>,
    pub prev_status: Seq<char>,
    pub new_status: Seq<char>,
    pub trigger: Seq<char>,
    pub detail: Seq<char>,
    pub pid: i64,
    pub created_at: Seq<char>,
}

impl View for AgentHistoryRow {
    type V = AgentHistoryView;

    open spec fn view(&self) -> AgentHistoryView {
        AgentHistoryView {
            id: self.id@,
            agent_id: self.agent_id@,
            prev_status: self.prev_status@,
            new_status: self.new_status@,
            trigger: self.trigger@,
            detail: self.detail@,
            pid: self.pid,
            created_at: self.created_at@,
        }
    }
}

/// The columns of a row of changes.
pub open spec fn history_shape() -> Seq<Column> {
    seq![
        Column::Text,
        Column::Text,
        Column::Text,
        Column::Text,
        Column::Text,
        Column::Text,
        Column::Integer,
        Column::Text,
    ]
}

/// The columns of a row of changes.
pub fn history_columns() -> (r: Vec<Column>)
    ensures
        r@ == history_shape(),
{
    let r = vec![
        Column::Text,
        Column::Text,
        Column::Text,
        Column::Text,
        Column::Text,
        Column::Text,
        Column::Integer,
        Column::Text,
    ];
    assert(r@ =~= history_shape());
    r
}

/// The change that a row holds, or the name of the first column that must hold
/// something and holds nothing.
pub open spec fn history_of(row: Seq<SqlCell>) -> Result<AgentHistoryView, Seq<char>> {
    if cell_text(row[0]) is None {
        Err("read id"@)
    } else if cell_text(row[1]) is None {
        Err("read agent_id"@)
    } else if cell_text(row[3]) is None {
        Err("read new_status"@)
    } else if cell_text(row[7]) is None {
        Err("read created_at"@)
    } else {
        Ok(AgentHistoryView {
            id: cell_text(row[0])->0,
            agent_id: cell_text(row[1])->0,
            prev_status: text_or(cell_text(row[2]), ""@),
            new_status: cell_text(row[3])->0,
            trigger: text_or(cell_text(row[4]), ""@),
            detail: text_or(cell_text(row[5]), ""@),
            pid: integer_or(row[6], 0),
            created_at: cell_text(row[7])->0,
        })
    }
}

/// Reads a change from the cells of a row.
pub fn row_to_history(row: &Vec<SqlValue>) -> (r: Result<AgentHistoryRow, String>)
    requires
        row_fits(cells(row@), history_shape()),
    ensures
        match r {
            Ok(item) => history_of(cells(row@)) == Ok::<AgentHistoryView, Seq<char>>(item@),
            Err(context) => history_of(cells(row@)) == Err::<AgentHistoryView, Seq<char>>(context@),
        },
{
    assert(row@.len() == 8);
    let id = match read_text(&row[0]) {
        Some(s) => s,
        None => return Err("read id".to_string()),
    };
    let agent_id = match read_text(&row[1]) {
        Some(s) => s,
        None => return Err("read agent_id".to_string()),
    };
    let new_status = match read_text(&row[3]) {
        Some(s) => s,
        None => return Err("read new_status".to_string()),
    };
    let created_at = match read_text(&row[7]) {
        Some(s) => s,
        None => return Err("read created_at".to_string()),
    };
    Ok(AgentHistoryRow {
        id,
        agent_id,
        prev_status: read_text_or(&row[2], ""),
        new_status,
        trigger: read_text_or(&row[4], ""),
        detail: read_text_or(&row[5], ""),
        pid: read_integer_or(&row[6], 0),
        created_at,
    })
}

/// Statement that records that agents of a role changed their status. It is to run
/// before the status is changed. Where a status is given as the last parameter, only
/// agents with that status are recorded.
pub const RECORD_CHANGE: &'static str =
    "INSERT INTO agent_history (id, agent_id, prev_status, new_status, trigger, detail, pid, created_at)
         SELECT ?1 || ':' || agent_id, agent_id, status, ?2, ?3, ?4, pid, ?5
             FROM agent_status
             WHERE role LIKE '%' || ?6 || '%' AND status != ?2 AND (?7 = '' OR status = ?7)";

/// The statement that records that agents of a role changed their status.
pub open spec fn change_statement(
    id: Seq<char>,
    now: Seq<char>,
    role_hint: Seq<char>,
    new_status: Seq<char>,
    detail: Seq<char>,
    from: Seq<char>,
) -> StatementView {
    StatementView::of(RECORD_CHANGE@)
        .text(id)
        .text(new_status)
        .text("monitor"@)
        .text(detail)
        .text(now)
        .text(role_hint)
        .text(from)
}

/// Whether a statement records that agents of a role changed their status.
pub open spec fn records_change(
    statement: StatementView,
    role_hint: Seq<char>,
    new_status: Seq<char>,
    detail: Seq<char>,
    from: Seq<char>,
) -> bool {
    exists|id: Seq<char>, now: Seq<char>|
        #![trigger is_uuid(id), is_time(now)]
        is_uuid(id) && is_time(now) && statement == change_statement(
            id,
            now,
            role_hint,
            new_status,
            detail,
            from,
        )
}

fn record_change(role_hint: &str, new_status: &str, detail: &str, from: &str) -> (r: Statement)
    ensures
        records_change(r@, role_hint@, new_status@, detail@, from@),
{
    let id = new_id();
    let now = now_text();
    let r = Statement::of(RECORD_CHANGE)
        .text(id.as_str())
        .text(new_status)
        .text("monitor")
        .text(detail)
        .text(now.as_str())
        .text(role_hint)
        .text(from);
    assert(is_uuid(id@) && is_time(now@) && r@ == change_statement(
        id@,
        now@,
        role_hint@,
        new_status@,
        detail@,
        from@,
    ));
    r
}

/// The agents of a role have crashed: the change is recorded, and then they are marked
/// and the crash is counted.
pub fn agent_crashed(role_hint: &str) -> (r: (Statement, Statement))
    ensures
        records_change(r.0@, role_hint@, "crashed"@, ""@, ""@),
        exists|now: Seq<char>| #[trigger]
            is_time(now) && r.1@ == mark_agent_crashed_by_role_statement(now, role_hint@),
{
    (record_change(role_hint, "crashed", "", ""), mark_agent_crashed_by_role(role_hint))
}

/// The agents of a role could not be started: the change is recorded with the error,
/// and then they are marked as failed.
pub fn agent_failed(role_hint: &str, error: &str) -> (r: (Statement, Statement))
    ensures
        records_change(r.0@, role_hint@, "failed"@, error@, ""@),
        exists|now: Seq<char>| #[trigger]
            is_time(now) && r.1@ == mark_agent_failed_with_statement(
                now,
                role_hint@,
                spawn_error_note(error@),
            ),
{
    (record_change(role_hint, "failed", error, ""), mark_agent_failed_by_role(role_hint, error))
}

/// Statement that marks crashed agents of a role as started again.
pub const MARK_AGENT_RESPAWNED: &'static str =
    "UPDATE agent_status SET status = 'respawned'
         WHERE role LIKE '%' || ?1 || '%' AND status = 'crashed'";

/// The crashed agents of a role were started again: the change is recorded, and then
/// they are marked. An agent that has registered meanwhile is left as it is.
pub fn agent_respawned(role_hint: &str) -> (r: (Statement, Statement))
    ensures
        records_change(r.0@, role_hint@, "respawned"@, ""@, "crashed"@),
        r.1@ == StatementView::of(MARK_AGENT_RESPAWNED@).text(role_hint@),
{
    (
        record_change(role_hint, "respawned", "", "crashed"),
        Statement::of(MARK_AGENT_RESPAWNED).text(role_hint),
    )
}

/// Statement that records that an agent registered, where its status changes. It is to
/// run before the registration is stored.
pub const RECORD_REGISTRATION: &'static str =
    "INSERT INTO agent_history (id, agent_id, prev_status, new_status, trigger, detail, pid, created_at)
         SELECT ?1, ?2, prev, 'online', 'register', '', ?3, ?4
             FROM (SELECT COALESCE((SELECT status FROM agent_status WHERE agent_id = ?2), '') AS prev)
             WHERE prev != 'online'";

/// The statement that records that an agent registered.
pub open spec fn record_registration_statement(
    id: Seq<char>,
    now: Seq<char>,
    agent_id: Seq<char>,
    pid: u32,
) -> StatementView {
    StatementView::of(RECORD_REGISTRATION@).text(id).text(agent_id).integer(pid as i64).text(now)
}

/// Whether two statements store the registration of an agent: the first records the
/// change of its status, the second stores what it registers with.
pub open spec fn stores_registration(
    statements: (StatementView, StatementView),
    agent: AgentMetadataView,
) -> bool {
    &&& exists|id: Seq<char>, now: Seq<char>|
        #![trigger is_uuid(id), is_time(now)]
        is_uuid(id) && is_time(now) && statements.0 == record_registration_statement(
            id,
            now,
            agent.agent_id,
            agent.pid,
        )
    &&& exists|now: Seq<char>| #[trigger]
        is_time(now) && statements.1 == register_agent_statement(now, agent)
}

/// An agent has registered: the change is recorded, and then what it registers with is
/// stored.
pub fn agent_registered(agent: &AgentMetadata) -> (r: (Statement, Statement))
    ensures
        stores_registration((r.0@, r.1@), agent@),
{
    let id = new_id();
    let now = now_text();
    let record = Statement::of(RECORD_REGISTRATION)
        .text(id.as_str())
        .text(agent.agent_id.as_str())
        .integer(agent.pid as i64)
        .text(now.as_str());
    assert(is_uuid(id@) && is_time(now@) && record@ == record_registration_statement(
        id@,
        now@,
        agent@.agent_id,
        agent@.pid,
    ));
    (record, register_agent(agent))
}

/// Statement that records that the agent of a socket is gone. It is to run before the
/// status is changed.
pub const RECORD_DISCONNECT: &'static str =
    "INSERT INTO agent_history (id, agent_id, prev_status, new_status, trigger, detail, pid, created_at)
         SELECT ?1 || ':' || agent_id, agent_id, status, 'disconnected', 'disconnect', '', pid, ?2
             FROM agent_status
             WHERE socket_id = ?3 AND socket_id != ''";

/// Statement that marks the agent of a socket as gone.
pub const MARK_DISCONNECTED: &'static str =
    "UPDATE agent_status SET status = 'disconnected', socket_id = ''
         WHERE socket_id = ?1 AND socket_id != ''";

/// A socket was closed: the change from the status of its agent to that of one that is
/// gone is recorded, and then the agent is marked. Nothing changes where the agent has
/// registered on another socket.
pub fn agent_disconnected(socket_id: &str) -> (r: (Statement, Statement))
    ensures
        exists|id: Seq<char>, now: Seq<char>|
            #![trigger is_uuid(id), is_time(now)]
            is_uuid(id) && is_time(now) && r.0@ == StatementView::of(RECORD_DISCONNECT@).text(
                id,
            ).text(now).text(socket_id@),
        r.1@ == StatementView::of(MARK_DISCONNECTED@).text(socket_id@),
{
    let id = new_id();
    let now = now_text();
    let record = Statement::of(RECORD_DISCONNECT).text(id.as_str()).text(now.as_str()).text(
        socket_id,
    );
    assert(is_uuid(id@) && is_time(now@) && record@ == StatementView::of(RECORD_DISCONNECT@).text(
        id@,
    ).text(now@).text(socket_id@));
    (record, Statement::of(MARK_DISCONNECTED).text(socket_id))
}

/// Statement of [`list_agent_history`].
pub const LIST_AGENT_HISTORY: &'static str =
    "SELECT id, agent_id, prev_status, new_status, trigger, detail, pid, created_at
         FROM agent_history WHERE agent_id = ?1 ORDER BY created_at DESC LIMIT ?2 OFFSET ?3";

/// The statement of [`list_agent_history`].
pub open spec fn list_agent_history_statement(
    agent_id: Seq<char>,
    limit: u32,
    offset: u32,
) -> StatementView {
    StatementView::of(LIST_AGENT_HISTORY@).text(agent_id).integer(limit as i64).integer(
        offset as i64,
    )
}

/// Lists the changes of the status of an agent, newest first.
pub fn list_agent_history(agent_id: &str, limit: u32, offset: u32) -> (r: Statement)
    ensures
        r@ == list_agent_history_statement(agent_id@, limit, offset),
{
    Statement::of(LIST_AGENT_HISTORY).text(agent_id).integer(limit as i64).integer(offset as i64)
}

/// A change of the status of an agent as JSON.
pub open spec fn change_json(row: AgentHistoryView) -> JsonTree {
    JsonTree::empty()
        .text("id"@, row.id)
        .text("agent_id"@, row.agent_id)
        .text("prev_status"@, row.prev_status)
        .text("new_status"@, row.new_status)
        .text("trigger"@, row.trigger)
        .text("detail"@, row.detail)
        .with("pid"@, int_tree(row.pid))
        .text("created_at"@, row.created_at)
}

/// A change of the status of an agent as JSON.
pub fn change_to_json(row: &AgentHistoryRow) -> (r: Value)
    ensures
        value_tree(r) == change_json(row@),
{
    Fields::new()
        .text("id", row.id.as_str())
        .text("agent_id", row.agent_id.as_str())
        .text("prev_status", row.prev_status.as_str())
        .text("new_status", row.new_status.as_str())
        .text("trigger", row.trigger.as_str())
        .text("detail", row.detail.as_str())
        .with("pid", signed(row.pid))
        .text("created_at", row.created_at.as_str())
        .done()
}

/// A list of changes as JSON.
pub open spec fn change_trees(rows: Seq<AgentHistoryRow>) -> Seq<JsonTree> {
    rows.map_values(|row: AgentHistoryRow| change_json(row@))
}

/// A list of changes as JSON.
pub fn change_list(rows: &Vec<AgentHistoryRow>) -> (r: Value)
    ensures
        value_tree(r) == JsonTree::List(change_trees(rows@)),
{
    let mut out: Vec<Value> = Vec::new();
    let mut i: usize = 0;
    while i < rows.len()
        invariant
            i <= rows@.len(),
            out@.len() == i,
            forall|k: int|
                0 <= k < i ==> value_tree(#[trigger] out@[k]) == change_json(rows@[k]@),
        decreases rows@.len() - i,
    {
        out.push(change_to_json(&rows[i]));
        i += 1;
    }
    assert(trees(out@) =~= change_trees(rows@));
    list(out)
}

// The events on the sockets.

/// An event that came or went over a socket.
#[derive(Clone, Debug)]
pub struct SocketEventRow {
    pub id: String,
    pub event_name: String,
    pub direction: String,
    pub agent_id: String,
    pub socket_id: String,
    pub room: String,
    pub payload: String,
    pub created_at: String,
}

/// What a [`SocketEventRow`] holds.
pub struct SocketEventView {
    pub id: Seq<char>,
    pub event_name: Seq<char>,
    pub direction: Seq<char>,
    pub agent_id: Seq<char>,
    pub socket_id: Seq<char>,
    pub room: Seq<char>,
    pub payload: Seq<char>,
    pub created_at: Seq<char>,
}

impl View for SocketEventRow {
    type V = SocketEventView;

    open spec fn view(&self) -> SocketEventView {
        SocketEventView {
            id: self.id@,
            event_name: self.event_name@,
            direction: self.direction@,
            agent_id: self.agent_id@,
            socket_id: self.socket_id@,
            room: self.room@,
            payload: self.payload@,
            created_at: self.created_at@,
        }
    }
}

/// The columns of a row of events.
pub open spec fn event_shape() -> Seq<Column> {
    seq![
        Column::Text,
        Column::Text,
        Column::Text,
        Column::Text,
        Column::Text,
        Column::Text,
        Column::Text,
        Column::Text,
    ]
}

/// The columns of a row of events.
pub fn event_columns() -> (r: Vec<Column>)
    ensures
        r@ == event_shape(),
{
    let r = vec![
        Column::Text,
        Column::Text,
        Column::Text,
        Column::Text,
        Column::Text,
        Column::Text,
        Column::Text,
        Column::Text,
    ];
    assert(r@ =~= event_shape());
    r
}

/// The event that a row holds, or the name of the first column that must hold
/// something and holds nothing.
pub open spec fn event_of(row: Seq<SqlCell>) -> Result<SocketEventView, Seq<char>> {
    if cell_text(row[0]) is None {
        Err("read id"@)
    } else if cell_text(row[1]) is None {
        Err("read event_name"@)
    } else if cell_text(row[7]) is None {
        Err("read created_at"@)
    } else {
        Ok(SocketEventView {
            id: cell_text(row[0])->0,
            event_name: cell_text(row[1])->0,
            direction: text_or(cell_text(row[2]), "inbound"@),
            agent_id: text_or(cell_text(row[3]), ""@),
            socket_id: text_or(cell_text(row[4]), ""@),
            room: text_or(cell_text(row[5]), ""@),
            payload: text_or(cell_text(row[6]), "{}"@),
            created_at: cell_text(row[7])->0,
        })
    }
}

/// Reads an event from the cells of a row.
pub fn row_to_event(row: &Vec<SqlValue>) -> (r: Result<SocketEventRow, String>)
    requires
        row_fits(cells(row@), event_shape()),
    ensures
        match r {
            Ok(item) => event_of(cells(row@)) == Ok::<SocketEventView, Seq<char>>(item@),
            Err(context) => event_of(cells(row@)) == Err::<SocketEventView, Seq<char>>(context@),
        },
{
    assert(row@.len() == 8);
    let id = match read_text(&row[0]) {
        Some(s) => s,
        None => return Err("read id".to_string()),
    };
    let event_name = match read_text(&row[1]) {
        Some(s) => s,
        None => return Err("read event_name".to_string()),
    };
    let created_at = match read_text(&row[7]) {
        Some(s) => s,
        None => return Err("read created_at".to_string()),
    };
    Ok(SocketEventRow {
        id,
        event_name,
        direction: read_text_or(&row[2], "inbound"),
        agent_id: read_text_or(&row[3], ""),
        socket_id: read_text_or(&row[4], ""),
        room: read_text_or(&row[5], ""),
        payload: read_text_or(&row[6], "{}"),
        created_at,
    })
}

/// Whether an event came or went.
#[derive(Clone, Copy, Debug, PartialEq, Eq, Structural)]
pub enum Direction {
    Inbound,
    Outbound,
}

/// The name of a direction.
pub open spec fn direction_name(direction: Direction) -> Seq<char> {
    match direction {
        Direction::Inbound => "inbound"@,
        Direction::Outbound => "outbound"@,
    }
}

fn direction_text(direction: Direction) -> (r: &'static str)
    ensures
        r@ == direction_name(direction),
{
    match direction {
        Direction::Inbound => "inbound",
        Direction::Outbound => "outbound",
    }
}

/// The greatest number of bytes of the payload of an event that are recorded.
pub const MAX_EVENT_PAYLOAD: usize = 4096;

/// What is recorded of the payload of an event: its text, cut to the greatest number
/// of bytes that whole characters allow.
pub open spec fn recorded_payload(payload: JsonTree) -> Seq<char> {
    fitting(compact_text(payload), MAX_EVENT_PAYLOAD as nat)
}

/// What is recorded of a payload is the beginning of its text, has no more than four
/// kibibytes, and is all of it where that has no more.
pub proof fn law_recorded_payload_is_bounded(payload: JsonTree)
    ensures
        byte_len(recorded_payload(payload)) <= 4096,
        recorded_payload(payload).is_prefix_of(compact_text(payload)),
        byte_len(compact_text(payload)) <= 4096 ==> recorded_payload(payload) == compact_text(
            payload,
        ),
{
    lemma_fitting(compact_text(payload), 4096);
}

/// Statement that records an event.
pub const RECORD_EVENT: &'static str =
    "INSERT INTO socket_events (id, event_name, direction, agent_id, socket_id, room, payload, created_at)
         VALUES (?1, ?2, ?3, ?4, ?5, ?6, ?7, ?8)";

/// The statement that records an event.
pub open spec fn record_event_statement(row: SocketEventView) -> StatementView {
    StatementView::of(RECORD_EVENT@)
        .text(row.id)
        .text(row.event_name)
        .text(row.direction)
        .text(row.agent_id)
        .text(row.socket_id)
        .text(row.room)
        .text(row.payload)
        .text(row.created_at)
}

/// An event that was recorded is read back.
pub proof fn law_event_reads_back(row: SocketEventView)
    ensures
        row_fits(record_event_statement(row).params, event_shape()),
        event_of(record_event_statement(row).params) == Ok::<SocketEventView, Seq<char>>(row),
{
    let params = record_event_statement(row).params;
    assert(params.len() == 8);
    assert(params[0] == SqlCell::Text(row.id));
}

/// Whether a statement records an event. The agent is the one that the payload names.
pub open spec fn records_event(
    statement: StatementView,
    event_name: Seq<char>,
    direction: Direction,
    socket_id: Seq<char>,
    room: Seq<char>,
    payload: JsonTree,
) -> bool {
    exists|id: Seq<char>, now: Seq<char>|
        #![trigger is_uuid(id), is_time(now)]
        is_uuid(id) && is_time(now) && statement == record_event_statement(
            (SocketEventView {
                id,
                event_name,
                direction: direction_name(direction),
                agent_id: text_or(payload.get_text("agent_id"@), ""@),
                socket_id,
                room,
                payload: recorded_payload(payload),
                created_at: now,
            }),
        )
}

fn record_event(
    event_name: &str,
    direction: Direction,
    socket_id: &str,
    room: &str,
    payload: &Value,
) -> (r: Statement)
    ensures
        records_event(r@, event_name@, direction, socket_id@, room@, value_tree(*payload)),
{
    let id = new_id();
    let now = now_text();
    let whole = to_text(payload);
    let part = fit(whole.as_str(), MAX_EVENT_PAYLOAD);
    let agent_id = text_or_else(payload, "agent_id", "");
    let r = Statement::of(RECORD_EVENT)
        .text(id.as_str())
        .text(event_name)
        .text(direction_text(direction))
        .text(agent_id)
        .text(socket_id)
        .text(room)
        .text(part.as_str())
        .text(now.as_str());
    proof {
        let row = SocketEventView {
            id: id@,
            event_name: event_name@,
            direction: direction_name(direction),
            agent_id: agent_id@,
            socket_id: socket_id@,
            room: room@,
            payload: part@,
            created_at: now@,
        };
        assert(is_uuid(id@) && is_time(now@) && r@ == record_event_statement(row));
    }
    r
}

/// Records an event that came over a socket.
pub fn event_came(event_name: &str, socket_id: &str, data: &Value) -> (r: Statement)
    ensures
        records_event(
            r@,
            event_name@,
            Direction::Inbound,
            socket_id@,
            ""@,
            value_tree(*data),
        ),
{
    record_event(event_name, Direction::Inbound, socket_id, "", data)
}

/// Records an event that is sent over one socket.
pub fn event_answered(event_name: &str, socket_id: &str, data: &Value) -> (r: Statement)
    ensures
        records_event(
            r@,
            event_name@,
            Direction::Outbound,
            socket_id@,
            ""@,
            value_tree(*data),
        ),
{
    record_event(event_name, Direction::Outbound, socket_id, "", data)
}

/// The room that an event goes to; empty where it goes to every client.
pub open spec fn target_room(target: TargetView) -> Seq<char> {
    match target {
        TargetView::Everyone => ""@,
        TargetView::Room(room) => room,
        TargetView::Peers(room) => room,
    }
}

/// Records an event that is sent.
pub fn event_went(emission: &Emission) -> (r: Statement)
    ensures
        records_event(
            r@,
            emission@.event,
            Direction::Outbound,
            ""@,
            target_room(emission@.target),
            emission@.payload,
        ),
{
    let room = match &emission.target {
        Target::Everyone => "",
        Target::Room(room) => room.as_str(),
        Target::Peers(room) => room.as_str(),
    };
    record_event(emission.event.as_str(), Direction::Outbound, "", room, &emission.payload)
}

/// Which events are asked for.
pub struct EventFilter<'a> {
    pub agent_id: Option<&'a str>,
    pub event_name: Option<&'a str>,
    pub direction: Option<&'a str>,
    pub since: Option<&'a str>,
    pub until: Option<&'a str>,
}

/// What an [`EventFilter`] holds.
pub struct EventFilterView {
    pub agent_id: Option<Seq<char>>,
    pub event_name: Option<Seq<char>>,
    pub direction: Option<Seq<char>>,
    pub since: Option<Seq<char>>,
    pub until: Option<Seq<char>>,
}

impl<'a> View for EventFilter<'a> {
    type V = EventFilterView;

    open spec fn view(&self) -> EventFilterView {
        EventFilterView {
            agent_id: opt_str(self.agent_id),
            event_name: opt_str(self.event_name),
            direction: opt_str(self.direction),
            since: opt_str(self.since),
            until: opt_str(self.until),
        }
    }
}

/// Statement of [`list_socket_events`], before its conditions.
pub const LIST_SOCKET_EVENTS: &'static str =
    "SELECT id, event_name, direction, agent_id, socket_id, room, payload, created_at
         FROM socket_events WHERE 1=1";

/// The statement of [`list_socket_events`].
pub open spec fn list_socket_events_statement(
    asked: EventFilterView,
    limit: u32,
    offset: u32,
) -> StatementView {
    StatementView::of(LIST_SOCKET_EVENTS@)
        .filter(" AND agent_id = ?"@, ""@, asked.agent_id)
        .filter(" AND event_name = ?"@, ""@, asked.event_name)
        .filter(" AND direction = ?"@, ""@, asked.direction)
        .filter(" AND created_at >= ?"@, ""@, asked.since)
        .filter(" AND created_at <= ?"@, ""@, asked.until)
        .bind(" ORDER BY created_at DESC LIMIT ?"@, ""@, SqlCell::Integer(limit as i64))
        .bind(" OFFSET ?"@, ""@, SqlCell::Integer(offset as i64))
}

/// Lists events, newest first: those of an agent, with a name, of a direction, and
/// between two times, where these are given.
pub fn list_socket_events(asked: &EventFilter, limit: u32, offset: u32) -> (r: Statement)
    ensures
        r@ == list_socket_events_statement(asked@, limit, offset),
{
    Statement::of(LIST_SOCKET_EVENTS)
        .filter(" AND agent_id = ?", "", asked.agent_id)
        .filter(" AND event_name = ?", "", asked.event_name)
        .filter(" AND direction = ?", "", asked.direction)
        .filter(" AND created_at >= ?", "", asked.since)
        .filter(" AND created_at <= ?", "", asked.until)
        .bind(" ORDER BY created_at DESC LIMIT ?", "", SqlValue::Integer(limit as i64))
        .bind(" OFFSET ?", "", SqlValue::Integer(offset as i64))
}

/// An event as JSON.
pub open spec fn event_json(row: SocketEventView) -> JsonTree {
    JsonTree::empty()
        .text("id"@, row.id)
        .text("event_name"@, row.event_name)
        .text("direction"@, row.direction)
        .text("agent_id"@, row.agent_id)
        .text("socket_id"@, row.socket_id)
        .text("room"@, row.room)
        .text("payload"@, row.payload)
        .text("created_at"@, row.created_at)
}

/// An event as JSON.
pub fn event_to_json(row: &SocketEventRow) -> (r: Value)
    ensures
        value_tree(r) == event_json(row@),
{
    Fields::new()
        .text("id", row.id.as_str())
        .text("event_name", row.event_name.as_str())
        .text("direction", row.direction.as_str())
        .text("agent_id", row.agent_id.as_str())
        .text("socket_id", row.socket_id.as_str())
        .text("room", row.room.as_str())
        .text("payload", row.payload.as_str())
        .text("created_at", row.created_at.as_str())
        .done()
}

/// A list of events as JSON.
pub open spec fn event_trees(rows: Seq<SocketEventRow>) -> Seq<JsonTree> {
    rows.map_values(|row: SocketEventRow| event_json(row@))
}

/// A list of events as JSON.
pub fn event_list(rows: &Vec<SocketEventRow>) -> (r: Value)
    ensures
        value_tree(r) == JsonTree::List(event_trees(rows@)),
{
    let mut out: Vec<Value> = Vec::new();
    let mut i: usize = 0;
    while i < rows.len()
        invariant
            i <= rows@.len(),
            out@.len() == i,
            forall|k: int|
                0 <= k < i ==> value_tree(#[trigger] out@[k]) == event_json(rows@[k]@),
        decreases rows@.len() - i,
    {
        out.push(event_to_json(&rows[i]));
        i += 1;
    }
    assert(trees(out@) =~= event_trees(rows@));
    list(out)
}

// How long it is kept.

/// The seconds that events are kept: seven days.
pub const EVENT_SECS: i64 = 604_800;

/// The seconds that changes of the status of agents are kept: thirty days.
pub const HISTORY_SECS: i64 = 2_592_000;

/// Statement that deletes old events.
pub const PURGE_SOCKET_EVENTS: &'static str =
    "DELETE FROM socket_events WHERE created_at < ?1";

/// Statement that deletes old changes.
pub const PURGE_AGENT_HISTORY: &'static str =
    "DELETE FROM agent_history WHERE created_at < ?1";

/// Deletes the events that are older at a time than they are kept.
pub fn purge_socket_events_at(now: Instant) -> (r: Statement)
    requires
        now.valid(),
        now.secs >= 0,
    ensures
        utc_text((now.secs - 604800) as i64, now.nanos) is Some,
        r@ == StatementView::of(PURGE_SOCKET_EVENTS@).text(
            utc_text((now.secs - 604800) as i64, now.nanos)->0,
        ),
{
    let cutoff = rfc3339(Instant { secs: now.secs - EVENT_SECS, nanos: now.nanos });
    Statement::of(PURGE_SOCKET_EVENTS).text(cutoff.as_str())
}

/// Deletes the events that are older at the present time than they
/// are kept.
pub fn purge_socket_events() -> (r: Statement)
    ensures
        exists|now: Instant| #[trigger]
            now.valid() && now.secs >= 0 && utc_text(
                (now.secs - 604800) as i64,
                now.nanos,
            ) is Some && r@ == StatementView::of(PURGE_SOCKET_EVENTS@).text(
                utc_text((now.secs - 604800) as i64, now.nanos)->0,
            ),
{
    let now = clock();
    assert(now.valid());
    purge_socket_events_at(now)
}

/// Deletes the changes of the status of agents that are older at a time than they are kept.
pub fn purge_agent_history_at(now: Instant) -> (r: Statement)
    requires
        now.valid(),
        now.secs >= 0,
    ensures
        utc_text((now.secs - 2592000) as i64, now.nanos) is Some,
        r@ == StatementView::of(PURGE_AGENT_HISTORY@).text(
            utc_text((now.secs - 2592000) as i64, now.nanos)->0,
        ),
{
    let cutoff = rfc3339(Instant { secs: now.secs - HISTORY_SECS, nanos: now.nanos });
    Statement::of(PURGE_AGENT_HISTORY).text(cutoff.as_str())
}

/// Deletes the changes of the status of agents that are older at the present time than they
/// are kept.
pub fn purge_agent_history() -> (r: Statement)
    ensures
        exists|now: Instant| #[trigger]
            now.valid() && now.secs >= 0 && utc_text(
                (now.secs - 2592000) as i64,
                now.nanos,
            ) is Some && r@ == StatementView::of(PURGE_AGENT_HISTORY@).text(
                utc_text((now.secs - 2592000) as i64, now.nanos)->0,
            ),
{
    let now = clock();
    assert(now.valid());
    purge_agent_history_at(now)
}

} // verus!
