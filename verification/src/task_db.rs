//! Statements on the tables of agents, tasks, pipeline runs, config history and
//! cron jobs, and the rows they give back.

use crate::json::{JsonTree, Fields, compact_text};
use crate::sql::{
    Column, SqlCell, SqlValue, Statement, StatementView, cell_text,
    binds_all, cells, count_of, integer_or, lemma_bind_binds, lemma_filter_binds, mark,
    read_integer_or, read_text, read_text_or, row_fits,
};
use crate::stamp::{
    FIRST_SECOND, Instant, LAST_SECOND, clock, is_time, is_uuid, new_id, now_text, rfc3339, utc_text,
};
use crate::text::{
    concat3, contains, copied, first_chars, has_part, in_order, leading,
    lemma_in_order_antisymmetric, lemma_in_order_total, lemma_in_order_transitive, occurs_at,
    opt_str, opt_text, ordered, same, text_or,
};
use vstd::prelude::*;

verus! {

/// An agent as the `agent_status` table holds it.
#[derive(Clone, Debug)]
pub struct AgentRow {
    pub agent_id: String,
    pub role: String,
    pub status: String,
    pub last_heartbeat: String,
    pub capabilities: String,
    pub skills: String,
    pub pid: i64,
    pub preferred_model: String,
    pub soul_content: String,
    pub binary_path: String,
    pub version: String,
    pub first_registered_at: String,
    pub registration_count: i64,
    pub crash_count: i64,
    pub socket_id: String,
}

/// What an [`AgentRow`] holds.
pub struct AgentView {
    pub agent_id: Seq<char>,
    pub role: Seq<char>,
    pub status: Seq<char>,
    pub last_heartbeat: Seq<char>,
    pub capabilities: Seq<char>,
    pub skills: Seq<char>,
    pub pid: i64,
    pub preferred_model: Seq<char>,
    pub soul_content: Seq<char>,
    pub binary_path: Seq<char>,
    pub version: Seq<char>,
    pub first_registered_at: Seq<char>,
    pub registration_count: i64,
    pub crash_count: i64,
    pub socket_id: Seq<char>,
}

impl View for AgentRow {
    type V = AgentView;

    open spec fn view(&self) -> AgentView {
        AgentView {
            agent_id: self.agent_id@,
            role: self.role@,
            status: self.status@,
            last_heartbeat: self.last_heartbeat@,
            capabilities: self.capabilities@,
            skills: self.skills@,
            pid: self.pid,
            preferred_model: self.preferred_model@,
            soul_content: self.soul_content@,
            binary_path: self.binary_path@,
            version: self.version@,
            first_registered_at: self.first_registered_at@,
            registration_count: self.registration_count,
            crash_count: self.crash_count,
            socket_id: self.socket_id@,
        }
    }
}

/// The columns of a row of agents.
pub open spec fn agent_shape() -> Seq<Column> {
    seq![
        Column::Text,
        Column::Text,
        Column::Text,
        Column::Text,
        Column::Text,
        Column::Text,
        Column::Integer,
        Column::Text,
        Column::Text,
        Column::Text,
        Column::Text,
        Column::Text,
        Column::Integer,
        Column::Integer,
        Column::Text,
    ]
}

/// The columns of a row of agents.
pub fn agent_columns() -> (r: Vec<Column>)
    ensures
        r@ == agent_shape(),
{
    let r = vec![
        Column::Text,
        Column::Text,
        Column::Text,
        Column::Text,
        Column::Text,
        Column::Text,
        Column::Integer,
        Column::Text,
        Column::Text,
        Column::Text,
        Column::Text,
        Column::Text,
        Column::Integer,
        Column::Integer,
        Column::Text,
    ];
    assert(r@ =~= agent_shape());
    r
}

/// The agent that a row holds, or the name of the first column that must hold
/// something and holds nothing.
pub open spec fn agent_of(row: Seq<SqlCell>) -> Result<AgentView, Seq<char>> {
    if cell_text(row[0]) is None {
        Err("read agent_id"@)
    } else if cell_text(row[1]) is None {
        Err("read role"@)
    } else if cell_text(row[2]) is None {
        Err("read status"@)
    } else if cell_text(row[3]) is None {
        Err("read last_heartbeat"@)
    } else {
        Ok(AgentView {
            agent_id: cell_text(row[0])->0,
            role: cell_text(row[1])->0,
            status: cell_text(row[2])->0,
            last_heartbeat: cell_text(row[3])->0,
            capabilities: text_or(cell_text(row[4]), "[]"@),
            skills: text_or(cell_text(row[5]), "[]"@),
            pid: integer_or(row[6], 0),
            preferred_model: text_or(cell_text(row[7]), ""@),
            soul_content: text_or(cell_text(row[8]), ""@),
            binary_path: text_or(cell_text(row[9]), ""@),
            version: text_or(cell_text(row[10]), ""@),
            first_registered_at: text_or(cell_text(row[11]), ""@),
            registration_count: integer_or(row[12], 0),
            crash_count: integer_or(row[13], 0),
            socket_id: text_or(cell_text(row[14]), ""@),
        })
    }
}

/// Reads an agent from the cells of a row.
pub fn row_to_agent(row: &Vec<SqlValue>) -> (r: Result<AgentRow, String>)
    requires
        row_fits(cells(row@), agent_shape()),
    ensures
        match r {
            Ok(item) => agent_of(cells(row@)) == Ok::<AgentView, Seq<char>>(item@),
            Err(context) => agent_of(cells(row@)) == Err::<AgentView, Seq<char>>(context@),
        },
{
    assert(row@.len() == 15);
    let agent_id = match read_text(&row[0]) {
        Some(s) => s,
        None => return Err("read agent_id".to_string()),
    };
    let role = match read_text(&row[1]) {
        Some(s) => s,
        None => return Err("read role".to_string()),
    };
    let status = match read_text(&row[2]) {
        Some(s) => s,
        None => return Err("read status".to_string()),
    };
    let last_heartbeat = match read_text(&row[3]) {
        Some(s) => s,
        None => return Err("read last_heartbeat".to_string()),
    };
    Ok(AgentRow {
        agent_id,
        role,
        status,
        last_heartbeat,
        capabilities: read_text_or(&row[4], "[]"),
        skills: read_text_or(&row[5], "[]"),
        pid: read_integer_or(&row[6], 0),
        preferred_model: read_text_or(&row[7], ""),
        soul_content: read_text_or(&row[8], ""),
        binary_path: read_text_or(&row[9], ""),
        version: read_text_or(&row[10], ""),
        first_registered_at: read_text_or(&row[11], ""),
        registration_count: read_integer_or(&row[12], 0),
        crash_count: read_integer_or(&row[13], 0),
        socket_id: read_text_or(&row[14], ""),
    })
}

/// A change of the gateway config.
#[derive(Clone, Debug)]
pub struct ConfigHistoryRow {
    pub id: String,
    pub config_hash: String,
    pub action: String,
    pub backup_path: String,
    pub timestamp: String,
}

/// What a [`ConfigHistoryRow`] holds.
pub struct ConfigHistoryView {
    pub id: Seq<char>,
    pub config_hash: Seq<char>,
    pub action: Seq<char>,
    pub backup_path: Seq<char>,
    pub timestamp: Seq<char>,
}

impl View for ConfigHistoryRow {
    type V = ConfigHistoryView;

    open spec fn view(&self) -> ConfigHistoryView {
        ConfigHistoryView {
            id: self.id@,
            config_hash: self.config_hash@,
            action: self.action@,
            backup_path: self.backup_path@,
            timestamp: self.timestamp@,
        }
    }
}

/// The columns of a row of the config history.
pub open spec fn config_history_shape() -> Seq<Column> {
    seq![
        Column::Text,
        Column::Text,
        Column::Text,
        Column::Text,
        Column::Text,
    ]
}

/// The columns of a row of the config history.
pub fn config_history_columns() -> (r: Vec<Column>)
    ensures
        r@ == config_history_shape(),
{
    let r = vec![
        Column::Text,
        Column::Text,
        Column::Text,
        Column::Text,
        Column::Text,
    ];
    assert(r@ =~= config_history_shape());
    r
}

/// The config change that a row holds, or the name of the first column that must hold
/// something and holds nothing.
pub open spec fn config_history_of(row: Seq<SqlCell>) -> Result<ConfigHistoryView, Seq<char>> {
    if cell_text(row[0]) is None {
        Err("read id"@)
    } else if cell_text(row[1]) is None {
        Err("read config_hash"@)
    } else if cell_text(row[2]) is None {
        Err("read action"@)
    } else if cell_text(row[4]) is None {
        Err("read timestamp"@)
    } else {
        Ok(ConfigHistoryView {
            id: cell_text(row[0])->0,
            config_hash: cell_text(row[1])->0,
            action: cell_text(row[2])->0,
            backup_path: text_or(cell_text(row[3]), ""@),
            timestamp: cell_text(row[4])->0,
        })
    }
}

/// Reads a config change from the cells of a row.
pub fn row_to_config_history(row: &Vec<SqlValue>) -> (r: Result<ConfigHistoryRow, String>)
    requires
        row_fits(cells(row@), config_history_shape()),
    ensures
        match r {
            Ok(item) => config_history_of(cells(row@)) == Ok::<ConfigHistoryView, Seq<char>>(item@),
            Err(context) => config_history_of(cells(row@)) == Err::<ConfigHistoryView, Seq<char>>(context@),
        },
{
    assert(row@.len() == 5);
    let id = match read_text(&row[0]) {
        Some(s) => s,
        None => return Err("read id".to_string()),
    };
    let config_hash = match read_text(&row[1]) {
        Some(s) => s,
        None => return Err("read config_hash".to_string()),
    };
    let action = match read_text(&row[2]) {
        Some(s) => s,
        None => return Err("read action".to_string()),
    };
    let timestamp = match read_text(&row[4]) {
        Some(s) => s,
        None => return Err("read timestamp".to_string()),
    };
    Ok(ConfigHistoryRow {
        id,
        config_hash,
        action,
        backup_path: read_text_or(&row[3], ""),
        timestamp,
    })
}

/// A task.
#[derive(Clone, Debug)]
pub struct TaskRow {
    pub id: String,
    pub task_type: String,
    pub status: String,
    pub agent_id: String,
    pub payload: String,
    pub run_id: String,
    pub current_stage: String,
    pub summary: String,
    pub parent_id: String,
    pub created_at: String,
    pub updated_at: String,
}

/// What a [`TaskRow`] holds.
pub struct TaskView {
    pub id: Seq<char>,
    pub task_type: Seq<char>,
    pub status: Seq<char>,
    pub agent_id: Seq<char>,
    pub payload: Seq<char>,
    pub run_id: Seq<char>,
    pub current_stage: Seq<char>,
    pub summary: Seq<char>,
    pub parent_id: Seq<char>,
    pub created_at: Seq<char>,
    pub updated_at: Seq<char>,
}

impl View for TaskRow {
    type V = TaskView;

    open spec fn view(&self) -> TaskView {
        TaskView {
            id: self.id@,
            task_type: self.task_type@,
            status: self.status@,
            agent_id: self.agent_id@,
            payload: self.payload@,
            run_id: self.run_id@,
            current_stage: self.current_stage@,
            summary: self.summary@,
            parent_id: self.parent_id@,
            created_at: self.created_at@,
            updated_at: self.updated_at@,
        }
    }
}

/// The columns of a row of tasks.
pub open spec fn task_shape() -> Seq<Column> {
    seq![
        Column::Text,
        Column::Text,
        Column::Text,
        Column::Text,
        Column::Text,
        Column::Text,
        Column::Text,
        Column::Text,
        Column::Text,
        Column::Text,
        Column::Text,
    ]
}

/// The columns of a row of tasks.
pub fn task_columns() -> (r: Vec<Column>)
    ensures
        r@ == task_shape(),
{
    let r = vec![
        Column::Text,
        Column::Text,
        Column::Text,
        Column::Text,
        Column::Text,
        Column::Text,
        Column::Text,
        Column::Text,
        Column::Text,
        Column::Text,
        Column::Text,
    ];
    assert(r@ =~= task_shape());
    r
}

/// The task that a row holds, or the name of the first column that must hold
/// something and holds nothing.
pub open spec fn task_of(row: Seq<SqlCell>) -> Result<TaskView, Seq<char>> {
    if cell_text(row[0]) is None {
        Err("read id"@)
    } else if cell_text(row[1]) is None {
        Err("read task_type"@)
    } else if cell_text(row[2]) is None {
        Err("read status"@)
    } else if cell_text(row[3]) is None {
        Err("read agent_id"@)
    } else if cell_text(row[4]) is None {
        Err("read payload"@)
    } else if cell_text(row[9]) is None {
        Err("read created_at"@)
    } else if cell_text(row[10]) is None {
        Err("read updated_at"@)
    } else {
        Ok(TaskView {
            id: cell_text(row[0])->0,
            task_type: cell_text(row[1])->0,
            status: cell_text(row[2])->0,
            agent_id: cell_text(row[3])->0,
            payload: cell_text(row[4])->0,
            run_id: text_or(cell_text(row[5]), ""@),
            current_stage: text_or(cell_text(row[6]), ""@),
            summary: text_or(cell_text(row[7]), ""@),
            parent_id: text_or(cell_text(row[8]), ""@),
            created_at: cell_text(row[9])->0,
            updated_at: cell_text(row[10])->0,
        })
    }
}

/// Reads a task from the cells of a row.
pub fn row_to_task(row: &Vec<SqlValue>) -> (r: Result<TaskRow, String>)
    requires
        row_fits(cells(row@), task_shape()),
    ensures
        match r {
            Ok(item) => task_of(cells(row@)) == Ok::<TaskView, Seq<char>>(item@),
            Err(context) => task_of(cells(row@)) == Err::<TaskView, Seq<char>>(context@),
        },
{
    assert(row@.len() == 11);
    let id = match read_text(&row[0]) {
        Some(s) => s,
        None => return Err("read id".to_string()),
    };
    let task_type = match read_text(&row[1]) {
        Some(s) => s,
        None => return Err("read task_type".to_string()),
    };
    let status = match read_text(&row[2]) {
        Some(s) => s,
        None => return Err("read status".to_string()),
    };
    let agent_id = match read_text(&row[3]) {
        Some(s) => s,
        None => return Err("read agent_id".to_string()),
    };
    let payload = match read_text(&row[4]) {
        Some(s) => s,
        None => return Err("read payload".to_string()),
    };
    let created_at = match read_text(&row[9]) {
        Some(s) => s,
        None => return Err("read created_at".to_string()),
    };
    let updated_at = match read_text(&row[10]) {
        Some(s) => s,
        None => return Err("read updated_at".to_string()),
    };
    Ok(TaskRow {
        id,
        task_type,
        status,
        agent_id,
        payload,
        run_id: read_text_or(&row[5], ""),
        current_stage: read_text_or(&row[6], ""),
        summary: read_text_or(&row[7], ""),
        parent_id: read_text_or(&row[8], ""),
        created_at,
        updated_at,
    })
}

/// An entry in the log of a task.
#[derive(Clone, Debug)]
pub struct TaskLogRow {
    pub id: String,
    pub task_id: String,
    pub level: String,
    pub message: String,
    pub detail: String,
    pub agent_id: String,
    pub stage: String,
    pub created_at: String,
}

/// What a [`TaskLogRow`] holds.
pub struct TaskLogView {
    pub id: Seq<char>,
    pub task_id: Seq<char>,
    pub level: Seq<char>,
    pub message: Seq<char>,
    pub detail: Seq<char>,
    pub agent_id: Seq<char>,
    pub stage: Seq<char>,
    pub created_at: Seq<char>,
}

impl View for TaskLogRow {
    type V = TaskLogView;

    open spec fn view(&self) -> TaskLogView {
        TaskLogView {
            id: self.id@,
            task_id: self.task_id@,
            level: self.level@,
            message: self.message@,
            detail: self.detail@,
            agent_id: self.agent_id@,
            stage: self.stage@,
            created_at: self.created_at@,
        }
    }
}

/// The columns of a row of task logs.
pub open spec fn task_log_shape() -> Seq<Column> {
    seq![
        Column::Text,
        Column::Text,
        Column::Text,
        Column::Text,
        Column::Text,
        Column::Text,
        Column::Text,
        Column::Text,
    ]
}

/// The columns of a row of task logs.
pub fn task_log_columns() -> (r: Vec<Column>)
    ensures
        r@ == task_log_shape(),
{
    let r = vec![
        Column::Text,
        Column::Text,
        Column::Text,
        Column::Text,
        Column::Text,
        Column::Text,
        Column::Text,
        Column::Text,
    ];
    assert(r@ =~= task_log_shape());
    r
}

/// The log entry that a row holds, or the name of the first column that must hold
/// something and holds nothing.
pub open spec fn task_log_of(row: Seq<SqlCell>) -> Result<TaskLogView, Seq<char>> {
    if cell_text(row[0]) is None {
        Err("read id"@)
    } else if cell_text(row[1]) is None {
        Err("read task_id"@)
    } else if cell_text(row[2]) is None {
        Err("read level"@)
    } else if cell_text(row[3]) is None {
        Err("read message"@)
    } else if cell_text(row[7]) is None {
        Err("read created_at"@)
    } else {
        Ok(TaskLogView {
            id: cell_text(row[0])->0,
            task_id: cell_text(row[1])->0,
            level: cell_text(row[2])->0,
            message: cell_text(row[3])->0,
            detail: text_or(cell_text(row[4]), ""@),
            agent_id: text_or(cell_text(row[5]), ""@),
            stage: text_or(cell_text(row[6]), ""@),
            created_at: cell_text(row[7])->0,
        })
    }
}

/// Reads a log entry from the cells of a row.
pub fn row_to_task_log(row: &Vec<SqlValue>) -> (r: Result<TaskLogRow, String>)
    requires
        row_fits(cells(row@), task_log_shape()),
    ensures
        match r {
            Ok(item) => task_log_of(cells(row@)) == Ok::<TaskLogView, Seq<char>>(item@),
            Err(context) => task_log_of(cells(row@)) == Err::<TaskLogView, Seq<char>>(context@),
        },
{
    assert(row@.len() == 8);
    let id = match read_text(&row[0]) {
        Some(s) => s,
        None => return Err("read id".to_string()),
    };
    let task_id = match read_text(&row[1]) {
        Some(s) => s,
        None => return Err("read task_id".to_string()),
    };
    let level = match read_text(&row[2]) {
        Some(s) => s,
        None => return Err("read level".to_string()),
    };
    let message = match read_text(&row[3]) {
        Some(s) => s,
        None => return Err("read message".to_string()),
    };
    let created_at = match read_text(&row[7]) {
        Some(s) => s,
        None => return Err("read created_at".to_string()),
    };
    Ok(TaskLogRow {
        id,
        task_id,
        level,
        message,
        detail: read_text_or(&row[4], ""),
        agent_id: read_text_or(&row[5], ""),
        stage: read_text_or(&row[6], ""),
        created_at,
    })
}

/// A stage of a pipeline run.
#[derive(Clone, Debug)]
pub struct PipelineRow {
    pub id: String,
    pub run_id: String,
    pub stage: String,
    pub artifact_id: String,
    pub status: String,
    pub agent_id: String,
    pub result: Option<String>,
    pub error: Option<String>,
    pub created_at: String,
    pub updated_at: String,
    pub input_metadata: String,
}

/// What a [`PipelineRow`] holds.
pub struct PipelineView {
    pub id: Seq<char>,
    pub run_id: Seq<char>,
    pub stage: Seq<char>,
    pub artifact_id: Seq<char>,
    pub status: Seq<char>,
    pub agent_id: Seq<char>,
    pub result: Option<Seq<char>>,
    pub error: Option<Seq<char>>,
    pub created_at: Seq<char>,
    pub updated_at: Seq<char>,
    pub input_metadata: Seq<char>,
}

impl View for PipelineRow {
    type V = PipelineView;

    open spec fn view(&self) -> PipelineView {
        PipelineView {
            id: self.id@,
            run_id: self.run_id@,
            stage: self.stage@,
            artifact_id: self.artifact_id@,
            status: self.status@,
            agent_id: self.agent_id@,
            result: opt_text(self.result),
            error: opt_text(self.error),
            created_at: self.created_at@,
            updated_at: self.updated_at@,
            input_metadata: self.input_metadata@,
        }
    }
}

/// The columns of a row of pipeline stages.
pub open spec fn pipeline_shape() -> Seq<Column> {
    seq![
        Column::Text,
        Column::Text,
        Column::Text,
        Column::Text,
        Column::Text,
        Column::Text,
        Column::Text,
        Column::Text,
        Column::Text,
        Column::Text,
        Column::Text,
    ]
}

/// The columns of a row of pipeline stages.
pub fn pipeline_columns() -> (r: Vec<Column>)
    ensures
        r@ == pipeline_shape(),
{
    let r = vec![
        Column::Text,
        Column::Text,
        Column::Text,
        Column::Text,
        Column::Text,
        Column::Text,
        Column::Text,
        Column::Text,
        Column::Text,
        Column::Text,
        Column::Text,
    ];
    assert(r@ =~= pipeline_shape());
    r
}

/// The stage record that a row holds, or the name of the first column that must hold
/// something and holds nothing.
pub open spec fn pipeline_of(row: Seq<SqlCell>) -> Result<PipelineView, Seq<char>> {
    if cell_text(row[0]) is None {
        Err("read id"@)
    } else if cell_text(row[1]) is None {
        Err("read run_id"@)
    } else if cell_text(row[2]) is None {
        Err("read stage"@)
    } else if cell_text(row[3]) is None {
        Err("read artifact_id"@)
    } else if cell_text(row[4]) is None {
        Err("read status"@)
    } else if cell_text(row[8]) is None {
        Err("read created_at"@)
    } else if cell_text(row[9]) is None {
        Err("read updated_at"@)
    } else {
        Ok(PipelineView {
            id: cell_text(row[0])->0,
            run_id: cell_text(row[1])->0,
            stage: cell_text(row[2])->0,
            artifact_id: cell_text(row[3])->0,
            status: cell_text(row[4])->0,
            agent_id: text_or(cell_text(row[5]), ""@),
            result: cell_text(row[6]),
            error: cell_text(row[7]),
            created_at: cell_text(row[8])->0,
            updated_at: cell_text(row[9])->0,
            input_metadata: text_or(cell_text(row[10]), "{}"@),
        })
    }
}

/// Reads a stage record from the cells of a row.
pub fn row_to_pipeline(row: &Vec<SqlValue>) -> (r: Result<PipelineRow, String>)
    requires
        row_fits(cells(row@), pipeline_shape()),
    ensures
        match r {
            Ok(item) => pipeline_of(cells(row@)) == Ok::<PipelineView, Seq<char>>(item@),
            Err(context) => pipeline_of(cells(row@)) == Err::<PipelineView, Seq<char>>(context@),
        },
{
    assert(row@.len() == 11);
    let id = match read_text(&row[0]) {
        Some(s) => s,
        None => return Err("read id".to_string()),
    };
    let run_id = match read_text(&row[1]) {
        Some(s) => s,
        None => return Err("read run_id".to_string()),
    };
    let stage = match read_text(&row[2]) {
        Some(s) => s,
        None => return Err("read stage".to_string()),
    };
    let artifact_id = match read_text(&row[3]) {
        Some(s) => s,
        None => return Err("read artifact_id".to_string()),
    };
    let status = match read_text(&row[4]) {
        Some(s) => s,
        None => return Err("read status".to_string()),
    };
    let created_at = match read_text(&row[8]) {
        Some(s) => s,
        None => return Err("read created_at".to_string()),
    };
    let updated_at = match read_text(&row[9]) {
        Some(s) => s,
        None => return Err("read updated_at".to_string()),
    };
    Ok(PipelineRow {
        id,
        run_id,
        stage,
        artifact_id,
        status,
        agent_id: read_text_or(&row[5], ""),
        result: read_text(&row[6]),
        error: read_text(&row[7]),
        created_at,
        updated_at,
        input_metadata: read_text_or(&row[10], "{}"),
    })
}

/// A recurring job.
#[derive(Clone, Debug)]
pub struct CronJobRow {
    pub id: String,
    pub name: String,
    pub schedule: String,
    pub enabled: bool,
    pub last_run_at: Option<String>,
    pub next_run_at: Option<String>,
    pub last_status: Option<String>,
    pub last_error: Option<String>,
    pub created_at: String,
}

/// What a [`CronJobRow`] holds.
pub struct CronJobView {
    pub id: Seq<char>,
    pub name: Seq<char>,
    pub schedule: Seq<char>,
    pub enabled: bool,
    pub last_run_at: Option<Seq<char>>,
    pub next_run_at: Option<Seq<char>>,
    pub last_status: Option<Seq<char>>,
    pub last_error: Option<Seq<char>>,
    pub created_at: Seq<char>,
}

impl View for CronJobRow {
    type V = CronJobView;

    open spec fn view(&self) -> CronJobView {
        CronJobView {
            id: self.id@,
            name: self.name@,
            schedule: self.schedule@,
            enabled: self.enabled,
            last_run_at: opt_text(self.last_run_at),
            next_run_at: opt_text(self.next_run_at),
            last_status: opt_text(self.last_status),
            last_error: opt_text(self.last_error),
            created_at: self.created_at@,
        }
    }
}

/// The columns of a row of cron jobs.
pub open spec fn cron_job_shape() -> Seq<Column> {
    seq![
        Column::Text,
        Column::Text,
        Column::Text,
        Column::Integer,
        Column::Text,
        Column::Text,
        Column::Text,
        Column::Text,
        Column::Text,
    ]
}

/// The columns of a row of cron jobs.
pub fn cron_job_columns() -> (r: Vec<Column>)
    ensures
        r@ == cron_job_shape(),
{
    let r = vec![
        Column::Text,
        Column::Text,
        Column::Text,
        Column::Integer,
        Column::Text,
        Column::Text,
        Column::Text,
        Column::Text,
        Column::Text,
    ];
    assert(r@ =~= cron_job_shape());
    r
}

/// The cron job that a row holds, or the name of the first column that must hold
/// something and holds nothing.
pub open spec fn cron_job_of(row: Seq<SqlCell>) -> Result<CronJobView, Seq<char>> {
    if cell_text(row[0]) is None {
        Err("read id"@)
    } else if cell_text(row[1]) is None {
        Err("read name"@)
    } else if cell_text(row[2]) is None {
        Err("read schedule"@)
    } else if cell_text(row[8]) is None {
        Err("read created_at"@)
    } else {
        Ok(CronJobView {
            id: cell_text(row[0])->0,
            name: cell_text(row[1])->0,
            schedule: cell_text(row[2])->0,
            enabled: integer_or(row[3], 1) != 0,
            last_run_at: cell_text(row[4]),
            next_run_at: cell_text(row[5]),
            last_status: cell_text(row[6]),
            last_error: cell_text(row[7]),
            created_at: cell_text(row[8])->0,
        })
    }
}

/// Reads a cron job from the cells of a row.
pub fn row_to_cron_job(row: &Vec<SqlValue>) -> (r: Result<CronJobRow, String>)
    requires
        row_fits(cells(row@), cron_job_shape()),
    ensures
        match r {
            Ok(item) => cron_job_of(cells(row@)) == Ok::<CronJobView, Seq<char>>(item@),
            Err(context) => cron_job_of(cells(row@)) == Err::<CronJobView, Seq<char>>(context@),
        },
{
    assert(row@.len() == 9);
    let id = match read_text(&row[0]) {
        Some(s) => s,
        None => return Err("read id".to_string()),
    };
    let name = match read_text(&row[1]) {
        Some(s) => s,
        None => return Err("read name".to_string()),
    };
    let schedule = match read_text(&row[2]) {
        Some(s) => s,
        None => return Err("read schedule".to_string()),
    };
    let created_at = match read_text(&row[8]) {
        Some(s) => s,
        None => return Err("read created_at".to_string()),
    };
    Ok(CronJobRow {
        id,
        name,
        schedule,
        enabled: read_integer_or(&row[3], 1) != 0,
        last_run_at: read_text(&row[4]),
        next_run_at: read_text(&row[5]),
        last_status: read_text(&row[6]),
        last_error: read_text(&row[7]),
        created_at,
    })
}

// Agents.

/// Statement of [`upsert_agent_with`].
pub const UPSERT_AGENT: &'static str =
    "INSERT INTO agent_status (agent_id, role, status, last_heartbeat, capabilities, skills, pid)
         VALUES (?1, ?2, ?3, ?4, ?5, ?6, ?7)
         ON CONFLICT(agent_id) DO UPDATE SET
             role           = CASE WHEN ?2 = '' THEN role ELSE ?2 END,
             status         = ?3,
             last_heartbeat = ?4,
             capabilities   = CASE WHEN ?5 = '[]' AND capabilities != '[]' THEN capabilities ELSE ?5 END,
             skills         = CASE WHEN ?6 = '[]' AND skills != '[]' THEN skills ELSE ?6 END,
             pid            = CASE WHEN ?7 = 0 THEN pid ELSE ?7 END";

/// The statement of [`upsert_agent_with`].
pub open spec fn upsert_agent_with_statement(
    now: Seq<char>,
    agent_id: Seq<char>,
    role: Seq<char>,
    status: Seq<char>,
    capabilities: Seq<char>,
    skills: Seq<char>,
    pid: i64,
) -> StatementView {
    StatementView::of(UPSERT_AGENT@)
        .text(agent_id)
        .text(role)
        .text(status)
        .text(now)
        .text(capabilities)
        .text(skills)
        .integer(pid)
}

/// Inserts an agent, or brings its status and metadata up to date. An empty role,
/// empty lists and a process id of zero keep what is there.
pub fn upsert_agent_with(
    agent_id: &str,
    role: &str,
    status: &str,
    capabilities: &str,
    skills: &str,
    pid: i64,
) -> (r: Statement)
    ensures
        exists|now: Seq<char>| #[trigger]
            is_time(now) && r@ == upsert_agent_with_statement(
                now,
                agent_id@,
                role@,
                status@,
                capabilities@,
                skills@,
                pid,
            ),
{
    let now = now_text();
    let r = Statement::of(UPSERT_AGENT)
        .text(agent_id)
        .text(role)
        .text(status)
        .text(now.as_str())
        .text(capabilities)
        .text(skills)
        .integer(pid);
    assert(is_time(now@) && r@ == upsert_agent_with_statement(
        now@,
        agent_id@,
        role@,
        status@,
        capabilities@,
        skills@,
        pid,
    ));
    r
}

/// Inserts an agent, or brings its status and metadata up to date. An empty role
/// keeps the role that is there; absent lists keep the lists, an absent process id
/// or zero keeps the process id.
pub fn upsert_agent(
    agent_id: &str,
    role: &str,
    status: &str,
    capabilities: Option<&str>,
    skills: Option<&str>,
    pid: Option<u32>,
) -> (r: Statement)
    ensures
        exists|now: Seq<char>| #[trigger]
            is_time(now) && r@ == upsert_agent_with_statement(
                now,
                agent_id@,
                role@,
                status@,
                text_or(opt_str(capabilities), "[]"@),
                text_or(opt_str(skills), "[]"@),
                pid_or_zero(pid),
            ),
{
    let caps = match capabilities {
        Some(s) => s,
        None => "[]",
    };
    let sk = match skills {
        Some(s) => s,
        None => "[]",
    };
    let p: i64 = match pid {
        Some(n) => n as i64,
        None => 0,
    };
    upsert_agent_with(agent_id, role, status, caps, sk, p)
}

/// Statement of [`register_agent`].
pub const REGISTER_AGENT: &'static str =
    "INSERT INTO agent_status (agent_id, role, status, last_heartbeat, capabilities, skills, pid,
              soul_content, binary_path, version, socket_id, first_registered_at, registration_count)
         VALUES (?1, ?2, ?3, ?4, ?5, ?6, ?7, ?8, ?9, ?10, ?11, ?4, 1)
         ON CONFLICT(agent_id) DO UPDATE SET
             role                = CASE WHEN ?2 = '' THEN role ELSE ?2 END,
             status              = ?3,
             last_heartbeat      = ?4,
             capabilities        = CASE WHEN ?5 = '[]' AND capabilities != '[]' THEN capabilities ELSE ?5 END,
             skills              = CASE WHEN ?6 = '[]' AND skills != '[]' THEN skills ELSE ?6 END,
             pid                 = CASE WHEN ?7 = 0 THEN pid ELSE ?7 END,
             soul_content        = CASE WHEN ?8 = '' THEN soul_content ELSE ?8 END,
             binary_path         = CASE WHEN ?9 = '' THEN binary_path ELSE ?9 END,
             version             = CASE WHEN ?10 = '' THEN version ELSE ?10 END,
             socket_id           = ?11,
             first_registered_at = CASE WHEN first_registered_at = '' THEN ?4 ELSE first_registered_at END,
             registration_count  = registration_count + 1";

/// What an agent registers with. The lists are given as JSON.
pub struct AgentMetadata {
    pub agent_id: String,
    pub role: String,
    pub capabilities: String,
    pub skills: String,
    pub pid: u32,
    pub soul_content: String,
    pub binary_path: String,
    pub version: String,
    pub socket_id: String,
}

/// What an [`AgentMetadata`] holds.
pub struct AgentMetadataView {
    pub agent_id: Seq<char>,
    pub role: Seq<char>,
    pub capabilities: Seq<char>,
    pub skills: Seq<char>,
    pub pid: u32,
    pub soul_content: Seq<char>,
    pub binary_path: Seq<char>,
    pub version: Seq<char>,
    pub socket_id: Seq<char>,
}

impl View for AgentMetadata {
    type V = AgentMetadataView;

    open spec fn view(&self) -> AgentMetadataView {
        AgentMetadataView {
            agent_id: self.agent_id@,
            role: self.role@,
            capabilities: self.capabilities@,
            skills: self.skills@,
            pid: self.pid,
            soul_content: self.soul_content@,
            binary_path: self.binary_path@,
            version: self.version@,
            socket_id: self.socket_id@,
        }
    }
}

/// The statement of [`register_agent`].
pub open spec fn register_agent_statement(now: Seq<char>, agent: AgentMetadataView) -> StatementView {
    StatementView::of(REGISTER_AGENT@)
        .text(agent.agent_id)
        .text(agent.role)
        .text("online"@)
        .text(now)
        .text(agent.capabilities)
        .text(agent.skills)
        .integer(agent.pid as i64)
        .text(agent.soul_content)
        .text(agent.binary_path)
        .text(agent.version)
        .text(agent.socket_id)
}

/// Stores the registration of an agent, which is online. The first one keeps its time,
/// and each one is counted. Empty texts and lists and a process id of zero keep what
/// is there.
pub fn register_agent(agent: &AgentMetadata) -> (r: Statement)
    ensures
        exists|now: Seq<char>| #[trigger]
            is_time(now) && r@ == register_agent_statement(now, agent@),
{
    let now = now_text();
    let r = Statement::of(REGISTER_AGENT)
        .text(agent.agent_id.as_str())
        .text(agent.role.as_str())
        .text("online")
        .text(now.as_str())
        .text(agent.capabilities.as_str())
        .text(agent.skills.as_str())
        .integer(agent.pid as i64)
        .text(agent.soul_content.as_str())
        .text(agent.binary_path.as_str())
        .text(agent.version.as_str())
        .text(agent.socket_id.as_str());
    assert(is_time(now@) && r@ == register_agent_statement(now@, agent@));
    r
}

/// A process id, or zero where there is none.
pub open spec fn pid_or_zero(pid: Option<u32>) -> i64 {
    match pid {
        Some(n) => n as i64,
        None => 0,
    }
}

/// Statement of [`mark_agent_crashed_by_role`].
pub const MARK_AGENT_CRASHED: &'static str =
    "UPDATE agent_status SET status = 'crashed', last_heartbeat = ?1,
              crash_count = crash_count + 1
         WHERE role LIKE '%' || ?2 || '%' AND status != 'crashed'";

/// The statement of [`mark_agent_crashed_by_role`].
pub open spec fn mark_agent_crashed_by_role_statement(
    now: Seq<char>,
    role_hint: Seq<char>,
) -> StatementView {
    StatementView::of(MARK_AGENT_CRASHED@).text(now).text(role_hint)
}

/// Marks the agents of a role as crashed, and counts the crash.
pub fn mark_agent_crashed_by_role(role_hint: &str) -> (r: Statement)
    ensures
        exists|now: Seq<char>| #[trigger]
            is_time(now) && r@ == mark_agent_crashed_by_role_statement(
                now,
                role_hint@,
            ),
{
    let now = now_text();
    let r = Statement::of(MARK_AGENT_CRASHED).text(now.as_str()).text(role_hint);
    assert(is_time(now@) && r@ == mark_agent_crashed_by_role_statement(now@, role_hint@));
    r
}

/// Statement of [`list_agents`].
pub const LIST_AGENTS: &'static str =
    "SELECT agent_id, role, status, last_heartbeat, capabilities, skills, pid, preferred_model,
              soul_content, binary_path, version, first_registered_at, registration_count,
              crash_count, socket_id
             FROM agent_status ORDER BY agent_id";

/// The statement of [`list_agents`].
pub open spec fn list_agents_statement() -> StatementView {
    StatementView::of(LIST_AGENTS@)
}

/// Lists all agents by their ids.
pub fn list_agents() -> (r: Statement)
    ensures
        r@ == list_agents_statement(),
{
    Statement::of(LIST_AGENTS)
}

/// Statement of [`get_agent`].
pub const GET_AGENT: &'static str =
    "SELECT agent_id, role, status, last_heartbeat, capabilities, skills, pid, preferred_model,
              soul_content, binary_path, version, first_registered_at, registration_count,
              crash_count, socket_id
             FROM agent_status WHERE agent_id = ?1";

/// The statement of [`get_agent`].
pub open spec fn get_agent_statement(agent_id: Seq<char>) -> StatementView {
    StatementView::of(GET_AGENT@).text(agent_id)
}

/// Asks for an agent.
pub fn get_agent(agent_id: &str) -> (r: Statement)
    ensures
        r@ == get_agent_statement(agent_id@),
{
    Statement::of(GET_AGENT).text(agent_id)
}

/// Statement of [`set_agent_model`].
pub const SET_AGENT_MODEL: &'static str =
    "UPDATE agent_status SET preferred_model = ?1 WHERE agent_id = ?2";

/// The statement of [`set_agent_model`].
pub open spec fn set_agent_model_statement(
    agent_id: Seq<char>,
    model: Seq<char>,
) -> StatementView {
    StatementView::of(SET_AGENT_MODEL@).text(model).text(agent_id)
}

/// Sets the model that an agent prefers.
pub fn set_agent_model(agent_id: &str, model: &str) -> (r: Statement)
    ensures
        r@ == set_agent_model_statement(agent_id@, model@),
{
    Statement::of(SET_AGENT_MODEL).text(model).text(agent_id)
}

/// Statement of [`get_agent_model`].
pub const GET_AGENT_MODEL: &'static str =
    "SELECT preferred_model FROM agent_status WHERE agent_id = ?1";

/// The statement of [`get_agent_model`].
pub open spec fn get_agent_model_statement(
    agent_id: Seq<char>,
) -> StatementView {
    StatementView::of(GET_AGENT_MODEL@).text(agent_id)
}

/// Asks for the model that an agent prefers.
pub fn get_agent_model(agent_id: &str) -> (r: Statement)
    ensures
        r@ == get_agent_model_statement(agent_id@),
{
    Statement::of(GET_AGENT_MODEL).text(agent_id)
}

/// The model that the answer to [`get_agent_model`] names: empty where there is no
/// such agent or the agent prefers none.
pub open spec fn model_of(row: Option<Seq<SqlCell>>) -> Seq<char> {
    match row {
        Some(row) => text_or(cell_text(row[0]), ""@),
        None => ""@,
    }
}

/// What a row that may be absent holds.
pub open spec fn opt_cells(row: Option<&Vec<SqlValue>>) -> Option<Seq<SqlCell>> {
    match row {
        Some(row) => Some(cells(row@)),
        None => None,
    }
}

/// Reads the answer to [`get_agent_model`].
pub fn read_agent_model(row: Option<&Vec<SqlValue>>) -> (r: String)
    requires
        row is Some ==> row_fits(cells(row->0@), seq![Column::Text]),
    ensures
        r@ == model_of(opt_cells(row)),
{
    match row {
        Some(row) => {
            assert(row@.len() == 1);
            read_text_or(&row[0], "")
        },
        None => "".to_string(),
    }
}

/// Statement of [`mark_agent_failed_with`].
pub const MARK_AGENT_FAILED: &'static str =
    "UPDATE agent_status SET status = 'failed', last_heartbeat = ?1,
              capabilities = ?2
         WHERE role LIKE '%' || ?3 || '%' AND status != 'failed'";

/// The statement of [`mark_agent_failed_with`].
pub open spec fn mark_agent_failed_with_statement(
    now: Seq<char>,
    role_hint: Seq<char>,
    note: Seq<char>,
) -> StatementView {
    StatementView::of(MARK_AGENT_FAILED@).text(now).text(note).text(role_hint)
}

/// Marks the agents of a role as failed, with a note in place of their
/// capabilities.
pub fn mark_agent_failed_with(role_hint: &str, note: &str) -> (r: Statement)
    ensures
        exists|now: Seq<char>| #[trigger]
            is_time(now) && r@ == mark_agent_failed_with_statement(
                now,
                role_hint@,
                note@,
            ),
{
    let now = now_text();
    let r = Statement::of(MARK_AGENT_FAILED).text(now.as_str()).text(note).text(role_hint);
    assert(is_time(now@) && r@ == mark_agent_failed_with_statement(now@, role_hint@, note@));
    r
}

/// The note on an agent that could not be started.
pub open spec fn spawn_error_note(error: Seq<char>) -> Seq<char> {
    compact_text(JsonTree::empty().text("spawn_error"@, error))
}

/// Marks the agents of a role as failed: they could not be started again, and the
/// operator must step in. The error is kept in place of their capabilities.
pub fn mark_agent_failed_by_role(role_hint: &str, error: &str) -> (r: Statement)
    ensures
        exists|now: Seq<char>| #[trigger]
            is_time(now) && r@ == mark_agent_failed_with_statement(
                now,
                role_hint@,
                spawn_error_note(error@),
            ),
{
    let note = Fields::new().text("spawn_error", error).written();
    mark_agent_failed_with(role_hint, note.as_str())
}

// Config history.

/// Statement of [`log_config_change`].
pub const LOG_CONFIG_EVENT: &'static str =
    "INSERT INTO config_history (id, config_hash, action, backup_path, timestamp)
         VALUES (?1, ?2, ?3, ?4, ?5)";

/// The statement of [`log_config_change`].
pub open spec fn log_config_change_statement(
    id: Seq<char>,
    now: Seq<char>,
    config_hash: Seq<char>,
    action: Seq<char>,
    backup_path: Seq<char>,
) -> StatementView {
    StatementView::of(LOG_CONFIG_EVENT@)
        .text(id)
        .text(config_hash)
        .text(action)
        .text(backup_path)
        .text(now)
}

/// Records a change of the gateway config.
pub fn log_config_change(config_hash: &str, action: &str, backup_path: &str) -> (r: Statement)
    ensures
        exists|id: Seq<char>, now: Seq<char>|
            #![trigger is_uuid(id), is_time(now)]
            is_uuid(id) && is_time(now) && r@ == log_config_change_statement(
                id,
                now,
                config_hash@,
                action@,
                backup_path@,
            ),
{
    let id = new_id();
    let now = now_text();
    let r = Statement::of(LOG_CONFIG_EVENT)
        .text(id.as_str())
        .text(config_hash)
        .text(action)
        .text(backup_path)
        .text(now.as_str());
    assert(is_uuid(id@) && is_time(now@) && r@ == log_config_change_statement(
        id@,
        now@,
        config_hash@,
        action@,
        backup_path@,
    ));
    r
}

/// Records a change of the gateway config, with the path of the backup where one
/// was made.
pub fn log_config_event(config_hash: &str, action: &str, backup_path: Option<&str>) -> (r: Statement)
    ensures
        exists|id: Seq<char>, now: Seq<char>|
            #![trigger is_uuid(id), is_time(now)]
            is_uuid(id) && is_time(now) && r@ == log_config_change_statement(
                id,
                now,
                config_hash@,
                action@,
                text_or(opt_str(backup_path), ""@),
            ),
{
    let backup = match backup_path {
        Some(s) => s,
        None => "",
    };
    log_config_change(config_hash, action, backup)
}

/// Statement of [`list_config_history`].
pub const LIST_CONFIG_HISTORY: &'static str =
    "SELECT id, config_hash, action, backup_path, timestamp
             FROM config_history ORDER BY timestamp DESC LIMIT ?1";

/// The statement of [`list_config_history`].
pub open spec fn list_config_history_statement(
    limit: u32,
) -> StatementView {
    StatementView::of(LIST_CONFIG_HISTORY@).integer(limit as i64)
}

/// Lists the changes of the gateway config, newest first.
pub fn list_config_history(limit: u32) -> (r: Statement)
    ensures
        r@ == list_config_history_statement(limit),
{
    Statement::of(LIST_CONFIG_HISTORY).integer(limit as i64)
}

// Tasks.

/// Columns of the task queries, in the order of [`task_shape`].
pub const TASK_COLS: &'static str =
    "id, task_type, status, agent_id, payload, run_id, current_stage, summary, parent_id, created_at, updated_at";

/// Statement of [`create_task`].
pub const CREATE_TASK: &'static str =
    "INSERT INTO tasks (id, task_type, status, agent_id, payload, run_id, current_stage, summary, parent_id, created_at, updated_at)
         VALUES (?1, ?2, ?3, ?4, ?5, ?6, ?7, ?8, ?9, ?10, ?11)";

/// The statement that stores a task.
pub open spec fn create_task_statement(row: TaskView) -> StatementView {
    StatementView::of(CREATE_TASK@).text(row.id).text(row.task_type).text(row.status).text(
        row.agent_id,
    ).text(row.payload).text(row.run_id).text(row.current_stage).text(row.summary).text(
        row.parent_id,
    ).text(row.created_at).text(row.updated_at)
}

/// Whether a task is a new one with the given contents.
pub open spec fn is_new_task(
    row: TaskView,
    task_type: Seq<char>,
    status: Seq<char>,
    agent_id: Option<Seq<char>>,
    payload: Seq<char>,
    run_id: Seq<char>,
    current_stage: Seq<char>,
    summary: Seq<char>,
    parent_id: Seq<char>,
) -> bool {
    &&& is_uuid(row.id)
    &&& row.task_type == task_type
    &&& row.status == status
    &&& row.agent_id == text_or(agent_id, ""@)
    &&& row.payload == payload
    &&& row.run_id == run_id
    &&& row.current_stage == current_stage
    &&& row.summary == summary
    &&& row.parent_id == parent_id
    &&& is_time(row.created_at)
    &&& row.updated_at == row.created_at
}

/// A new task, and the statement that stores it.
///
/// `run_id` links the task to a pipeline run, `current_stage` is the stage it
/// begins with, `summary` says what is going on, and `parent_id` makes it a
/// subtask of another task.
pub fn create_task(
    task_type: &str,
    status: &str,
    agent_id: Option<&str>,
    payload: &str,
    run_id: &str,
    current_stage: &str,
    summary: &str,
    parent_id: &str,
) -> (r: (Statement, TaskRow))
    ensures
        is_new_task(
            r.1@,
            task_type@,
            status@,
            opt_str(agent_id),
            payload@,
            run_id@,
            current_stage@,
            summary@,
            parent_id@,
        ),
        r.0@ == create_task_statement(r.1@),
{
    let agent = match agent_id {
        Some(s) => s,
        None => "",
    };
    let now = now_text();
    let row = TaskRow {
        id: new_id(),
        task_type: task_type.to_string(),
        status: status.to_string(),
        agent_id: agent.to_string(),
        payload: payload.to_string(),
        run_id: run_id.to_string(),
        current_stage: current_stage.to_string(),
        summary: summary.to_string(),
        parent_id: parent_id.to_string(),
        created_at: now.clone(),
        updated_at: now,
    };
    let statement = Statement::of(CREATE_TASK).text(row.id.as_str()).text(
        row.task_type.as_str(),
    ).text(row.status.as_str()).text(row.agent_id.as_str()).text(row.payload.as_str()).text(
        row.run_id.as_str(),
    ).text(row.current_stage.as_str()).text(row.summary.as_str()).text(row.parent_id.as_str()).text(
        row.created_at.as_str(),
    ).text(row.updated_at.as_str());
    (statement, row)
}

/// A query for tasks: the columns, and what follows them.
pub open spec fn task_query(rest: Seq<char>) -> StatementView {
    StatementView::of("SELECT "@ + TASK_COLS@ + rest)
}

/// A query for tasks: the columns, and what follows them.
fn select_tasks(rest: &str) -> (r: Statement)
    ensures
        r@ == task_query(rest@),
{
    let sql = concat3("SELECT ", TASK_COLS, rest);
    Statement::of(sql.as_str())
}

/// Asks for a task by its id.
pub fn get_task(task_id: &str) -> (r: Statement)
    ensures
        r@ == task_query(" FROM tasks WHERE id = ?1"@).text(task_id@),
{
    select_tasks(" FROM tasks WHERE id = ?1").text(task_id)
}

/// The statement of [`list_tasks`].
pub open spec fn list_tasks_statement(
    limit: u32,
    status: Option<Seq<char>>,
    agent: Option<Seq<char>>,
    parent: Option<Seq<char>>,
) -> StatementView {
    task_query(" FROM tasks WHERE 1=1"@).filter(" AND status = ?"@, ""@, status).filter(
        " AND agent_id = ?"@,
        ""@,
        agent,
    ).filter(" AND parent_id = ?"@, ""@, parent).bind(
        " ORDER BY created_at DESC LIMIT ?"@,
        ""@,
        SqlCell::Integer(limit as i64),
    )
}

/// Lists tasks, newest first, by status, agent and parent where these are given.
pub fn list_tasks(
    limit: u32,
    status_filter: Option<&str>,
    agent_filter: Option<&str>,
    parent_id_filter: Option<&str>,
) -> (r: Statement)
    ensures
        r@ == list_tasks_statement(
            limit,
            opt_str(status_filter),
            opt_str(agent_filter),
            opt_str(parent_id_filter),
        ),
{
    select_tasks(" FROM tasks WHERE 1=1").filter(" AND status = ?", "", status_filter).filter(
        " AND agent_id = ?",
        "",
        agent_filter,
    ).filter(" AND parent_id = ?", "", parent_id_filter).bind(
        " ORDER BY created_at DESC LIMIT ?",
        "",
        SqlValue::Integer(limit as i64),
    )
}

/// The statement of [`update_task`].
pub open spec fn update_task_statement(
    now: Seq<char>,
    task_id: Seq<char>,
    status: Option<Seq<char>>,
    agent_id: Option<Seq<char>>,
    payload: Option<Seq<char>>,
    current_stage: Option<Seq<char>>,
    summary: Option<Seq<char>>,
) -> StatementView {
    StatementView::of("UPDATE tasks SET updated_at = ?1"@).text(now).filter(
        ", status = ?"@,
        ""@,
        status,
    ).filter(", agent_id = ?"@, ""@, agent_id).filter(", payload = ?"@, ""@, payload).filter(
        ", current_stage = ?"@,
        ""@,
        current_stage,
    ).filter(", summary = ?"@, ""@, summary).bind(
        " WHERE id = ?"@,
        ""@,
        SqlCell::Text(task_id),
    )
}

/// Sets those columns of a task for which something is given, and the time of the
/// change.
pub fn update_task(
    task_id: &str,
    status: Option<&str>,
    agent_id: Option<&str>,
    payload: Option<&str>,
    current_stage: Option<&str>,
    summary: Option<&str>,
) -> (r: Statement)
    ensures
        exists|now: Seq<char>| #[trigger]
            is_time(now) && r@ == update_task_statement(
                now,
                task_id@,
                opt_str(status),
                opt_str(agent_id),
                opt_str(payload),
                opt_str(current_stage),
                opt_str(summary),
            ),
{
    let now = now_text();
    let r = Statement::of("UPDATE tasks SET updated_at = ?1").text(now.as_str()).filter(
        ", status = ?",
        "",
        status,
    ).filter(", agent_id = ?", "", agent_id).filter(", payload = ?", "", payload).filter(
        ", current_stage = ?",
        "",
        current_stage,
    ).filter(", summary = ?", "", summary).bind(
        " WHERE id = ?",
        "",
        SqlValue::Text(task_id.to_string()),
    );
    assert(is_time(now@));
    r
}

/// Statement of [`delete_task`].
pub const DELETE_TASK: &'static str =
    "DELETE FROM tasks WHERE id = ?1";

/// The statement of [`delete_task`].
pub open spec fn delete_task_statement(
    task_id: Seq<char>,
) -> StatementView {
    StatementView::of(DELETE_TASK@).text(task_id)
}

/// Deletes a task.
pub fn delete_task(task_id: &str) -> (r: Statement)
    ensures
        r@ == delete_task_statement(task_id@),
{
    Statement::of(DELETE_TASK).text(task_id)
}

/// Asks for the current task, by two queries: for the newest of the running tasks, and
/// for the newest of all. [`current_task`] chooses between the answers.
pub fn get_current_task() -> (r: (Statement, Statement))
    ensures
        r.0@ == task_query(
            " FROM tasks WHERE status = 'running' ORDER BY created_at DESC LIMIT 1"@,
        ),
        r.1@ == task_query(" FROM tasks ORDER BY created_at DESC LIMIT 1"@),
{
    (
        select_tasks(" FROM tasks WHERE status = 'running' ORDER BY created_at DESC LIMIT 1"),
        select_tasks(" FROM tasks ORDER BY created_at DESC LIMIT 1"),
    )
}

/// The current task, given the newest of the running tasks and the newest of all: the
/// running one where there is one. The newest of all is not needed then.
pub fn current_task(running: Option<TaskRow>, newest: Option<TaskRow>) -> (r: Option<TaskRow>)
    ensures
        r == (if running is Some {
            running
        } else {
            newest
        }),
{
    match running {
        Some(task) => Some(task),
        None => newest,
    }
}

/// Asks for the running task of a pipeline run, the newest where there are several.
pub fn get_task_by_run_id(run_id: &str) -> (r: Statement)
    ensures
        r@ == task_query(
            " FROM tasks WHERE run_id = ?1 AND status = 'running' ORDER BY created_at DESC LIMIT 1"@,
        ).text(run_id@),
{
    select_tasks(
        " FROM tasks WHERE run_id = ?1 AND status = 'running' ORDER BY created_at DESC LIMIT 1",
    ).text(run_id)
}

/// Lists the subtasks of a task, oldest first.
pub fn list_subtasks(parent_id: &str, limit: u32) -> (r: Statement)
    ensures
        r@ == task_query(
            " FROM tasks WHERE parent_id = ?1 ORDER BY created_at ASC LIMIT ?2"@,
        ).text(parent_id@).integer(limit as i64),
{
    select_tasks(" FROM tasks WHERE parent_id = ?1 ORDER BY created_at ASC LIMIT ?2").text(
        parent_id,
    ).integer(limit as i64)
}

/// Statement of [`count_subtasks`].
pub const COUNT_SUBTASKS: &'static str =
    "SELECT COUNT(*), SUM(CASE WHEN status = 'completed' THEN 1 ELSE 0 END)
             FROM tasks WHERE parent_id = ?1";

/// The statement of [`count_subtasks`].
pub open spec fn count_subtasks_statement(
    parent_id: Seq<char>,
) -> StatementView {
    StatementView::of(COUNT_SUBTASKS@).text(parent_id)
}

/// Counts the subtasks of a task, all of them and the completed ones.
pub fn count_subtasks(parent_id: &str) -> (r: Statement)
    ensures
        r@ == count_subtasks_statement(parent_id@),
{
    Statement::of(COUNT_SUBTASKS).text(parent_id)
}

/// Reads the answer to [`count_subtasks`]: all subtasks, and the completed ones.
pub fn read_subtask_counts(row: Option<&Vec<SqlValue>>) -> (r: (u32, u32))
    requires
        row is Some ==> row_fits(cells(row->0@), seq![Column::Integer, Column::Integer]),
    ensures
        r.0 == count_of(opt_cells(row), 0),
        r.1 == count_of(opt_cells(row), 1),
{
    match row {
        Some(row) => {
            assert(row@.len() == 2);
            (read_integer_or(&row[0], 0) as u32, read_integer_or(&row[1], 0) as u32)
        },
        None => (0, 0),
    }
}

/// A task that was stored is read back: the columns are written in the order in which
/// they are read.
pub proof fn law_task_reads_back(row: TaskView)
    ensures
        has_part(CREATE_TASK@, TASK_COLS@),
        row_fits(create_task_statement(row).params, task_shape()),
        task_of(create_task_statement(row).params) == Ok::<TaskView, Seq<char>>(row),
{
    reveal_strlit(
        "INSERT INTO tasks (id, task_type, status, agent_id, payload, run_id, current_stage, summary, parent_id, created_at, updated_at)
         VALUES (?1, ?2, ?3, ?4, ?5, ?6, ?7, ?8, ?9, ?10, ?11)",
    );
    reveal_strlit(
        "id, task_type, status, agent_id, payload, run_id, current_stage, summary, parent_id, created_at, updated_at",
    );
    let at = 19int;
    assert(CREATE_TASK@.subrange(at, at + TASK_COLS@.len()) =~= TASK_COLS@);
    assert(occurs_at(CREATE_TASK@, TASK_COLS@, at));
    let cells = create_task_statement(row).params;
    assert(cells.len() == 11);
    assert(cells[0] == SqlCell::Text(row.id));
}

// Task logs.

/// Statement of [`create_task_log`].
pub const CREATE_TASK_LOG: &'static str =
    "INSERT INTO task_logs (id, task_id, level, message, detail, agent_id, stage, created_at)
         VALUES (?1, ?2, ?3, ?4, ?5, ?6, ?7, ?8)";

/// The statement that stores a log entry.
pub open spec fn create_task_log_statement(row: TaskLogView) -> StatementView {
    StatementView::of(CREATE_TASK_LOG@).text(row.id).text(row.task_id).text(row.level).text(
        row.message,
    ).text(row.detail).text(row.agent_id).text(row.stage).text(row.created_at)
}

/// Whether a log entry is a new one with the given contents.
pub open spec fn is_new_log(
    row: TaskLogView,
    task_id: Seq<char>,
    level: Seq<char>,
    message: Seq<char>,
    detail: Seq<char>,
    agent_id: Seq<char>,
    stage: Seq<char>,
) -> bool {
    &&& is_uuid(row.id)
    &&& row.task_id == task_id
    &&& row.level == level
    &&& row.message == message
    &&& row.detail == detail
    &&& row.agent_id == agent_id
    &&& row.stage == stage
    &&& is_time(row.created_at)
}

/// A new log entry of a task, and the statement that stores it.
pub fn create_task_log(
    task_id: &str,
    level: &str,
    message: &str,
    detail: &str,
    agent_id: &str,
    stage: &str,
) -> (r: (Statement, TaskLogRow))
    ensures
        is_new_log(r.1@, task_id@, level@, message@, detail@, agent_id@, stage@),
        r.0@ == create_task_log_statement(r.1@),
{
    let row = TaskLogRow {
        id: new_id(),
        task_id: task_id.to_string(),
        level: level.to_string(),
        message: message.to_string(),
        detail: detail.to_string(),
        agent_id: agent_id.to_string(),
        stage: stage.to_string(),
        created_at: now_text(),
    };
    let statement = Statement::of(CREATE_TASK_LOG).text(row.id.as_str()).text(
        row.task_id.as_str(),
    ).text(row.level.as_str()).text(row.message.as_str()).text(row.detail.as_str()).text(
        row.agent_id.as_str(),
    ).text(row.stage.as_str()).text(row.created_at.as_str());
    (statement, row)
}

/// Statement of [`list_task_logs`].
pub const LIST_TASK_LOGS: &'static str =
    "SELECT id, task_id, level, message, detail, agent_id, stage, created_at
             FROM task_logs WHERE task_id = ?1
             ORDER BY created_at ASC LIMIT ?2 OFFSET ?3";

/// The statement of [`list_task_logs`].
pub open spec fn list_task_logs_statement(
    task_id: Seq<char>,
    limit: u32,
    offset: u32,
) -> StatementView {
    StatementView::of(LIST_TASK_LOGS@).text(task_id).integer(limit as i64).integer(offset as i64)
}

/// Lists the log entries of a task, oldest first, a page at a time.
pub fn list_task_logs(task_id: &str, limit: u32, offset: u32) -> (r: Statement)
    ensures
        r@ == list_task_logs_statement(task_id@, limit, offset),
{
    Statement::of(LIST_TASK_LOGS).text(task_id).integer(limit as i64).integer(offset as i64)
}

/// Statement of [`count_task_logs`].
pub const COUNT_TASK_LOGS: &'static str =
    "SELECT COUNT(*) FROM task_logs WHERE task_id = ?1";

/// The statement of [`count_task_logs`].
pub open spec fn count_task_logs_statement(
    task_id: Seq<char>,
) -> StatementView {
    StatementView::of(COUNT_TASK_LOGS@).text(task_id)
}

/// Counts the log entries of a task.
pub fn count_task_logs(task_id: &str) -> (r: Statement)
    ensures
        r@ == count_task_logs_statement(task_id@),
{
    Statement::of(COUNT_TASK_LOGS).text(task_id)
}

/// Reads a count: the integer of the only column, cut to 32 bits, or zero.
pub fn read_count(row: Option<&Vec<SqlValue>>) -> (r: u32)
    requires
        row is Some ==> row_fits(cells(row->0@), seq![Column::Integer]),
    ensures
        r == count_of(opt_cells(row), 0),
{
    match row {
        Some(row) => {
            assert(row@.len() == 1);
            read_integer_or(&row[0], 0) as u32
        },
        None => 0,
    }
}

/// Statement of [`list_log_texts`].
pub const LIST_LOG_TEXTS: &'static str =
    "SELECT message, detail FROM task_logs WHERE task_id = ?1 ORDER BY created_at ASC";

/// The statement of [`list_log_texts`].
pub open spec fn list_log_texts_statement(
    task_id: Seq<char>,
) -> StatementView {
    StatementView::of(LIST_LOG_TEXTS@).text(task_id)
}

/// Asks for the messages and details of the log of a task, oldest first.
pub fn list_log_texts(task_id: &str) -> (r: Statement)
    ensures
        r@ == list_log_texts_statement(task_id@),
{
    Statement::of(LIST_LOG_TEXTS).text(task_id)
}

/// A message and a detail of a log entry.
pub struct LogText {
    pub message: String,
    pub detail: String,
}

/// What each of a list of log texts holds.
pub open spec fn log_texts(rows: Seq<LogText>) -> Seq<(Seq<char>, Seq<char>)> {
    rows.map_values(|row: LogText| (row.message@, row.detail@))
}

/// A part of a log entry on a line of its own, or nothing where it is empty.
pub open spec fn log_line(part: Seq<char>) -> Seq<char> {
    if part.len() == 0 {
        part
    } else {
        part.push('\n')
    }
}

/// The messages and details of a log, one after another.
pub open spec fn joined_logs(rows: Seq<(Seq<char>, Seq<char>)>) -> Seq<char>
    decreases rows.len(),
{
    if rows.len() == 0 {
        Seq::empty()
    } else {
        joined_logs(rows.drop_last()) + log_line(rows.last().0) + log_line(rows.last().1)
    }
}

/// Puts a part of a log entry at the end of a text.
fn put_line(text: &mut String, part: &str)
    ensures
        final(text)@ == old(text)@ + log_line(part@),
{
    if !part.is_empty() {
        text.append(part);
        text.push('\n');
    }
    assert(text@ =~= old(text)@ + log_line(part@));
}

/// The text of the log of a task: its messages and details, each on a line of its
/// own, up to `max_chars` characters.
pub fn get_task_logs_text(rows: &Vec<LogText>, max_chars: usize) -> (r: String)
    ensures
        r@ == first_chars(joined_logs(log_texts(rows@)), max_chars as nat),
{
    let mut text = String::new();
    let mut i: usize = 0;
    let ghost all = log_texts(rows@);
    assert(text@ =~= Seq::<char>::empty());
    while i < rows.len()
        invariant
            i <= rows@.len(),
            all == log_texts(rows@),
            text@ == joined_logs(all.take(i as int)),
        decreases rows@.len() - i,
    {
        put_line(&mut text, rows[i].message.as_str());
        put_line(&mut text, rows[i].detail.as_str());
        assert(all.take(i + 1).drop_last() =~= all.take(i as int));
        i += 1;
    }
    assert(all.take(i as int) =~= all);
    leading(text.as_str(), max_chars)
}

/// The text of a log is the beginning of all its messages and details: it never has
/// more characters than asked for, and it is whole where that many are enough.
pub proof fn law_log_text_is_bounded(rows: Seq<(Seq<char>, Seq<char>)>, max: nat)
    ensures
        first_chars(joined_logs(rows), max).len() <= max,
        first_chars(joined_logs(rows), max).is_prefix_of(joined_logs(rows)),
        joined_logs(rows).len() <= max ==> first_chars(joined_logs(rows), max)
            == joined_logs(rows),
        joined_logs(rows).len() > max ==> first_chars(joined_logs(rows), max).len() == max,
{
}

/// A log entry that was stored is read back.
pub proof fn law_log_reads_back(row: TaskLogView)
    ensures
        row_fits(create_task_log_statement(row).params, task_log_shape()),
        task_log_of(create_task_log_statement(row).params) == Ok::<TaskLogView, Seq<char>>(row),
{
    let params = create_task_log_statement(row).params;
    assert(params.len() == 8);
    assert(params[0] == SqlCell::Text(row.id));
}

// Pipeline runs.

/// Columns of the queries for pipeline stages, in the order of [`pipeline_shape`].
pub const PIPELINE_COLS: &'static str =
    "id, run_id, stage, artifact_id, status, agent_id, result, error, created_at, updated_at, input_metadata";

/// The row of a stage that was just stored, in the order in which it is read: what no
/// parameter gives comes from the statement or is not there.
pub open spec fn stored_stage(params: Seq<SqlCell>) -> Seq<SqlCell> {
    seq![
        params[0],
        params[1],
        params[2],
        params[3],
        SqlCell::Text("running"@),
        SqlCell::Text(""@),
        SqlCell::Null,
        SqlCell::Null,
        params[4],
        params[5],
        params[6],
    ]
}

/// A new stage of a pipeline run that was stored is read back.
pub proof fn law_stage_reads_back(
    row: PipelineView,
    run_id: Seq<char>,
    stage: Seq<char>,
    artifact_id: Seq<char>,
    input_metadata: Seq<char>,
)
    requires
        is_new_stage(row, run_id, stage, artifact_id, input_metadata),
    ensures
        row_fits(stored_stage(create_pipeline_stage_statement(row).params), pipeline_shape()),
        pipeline_of(stored_stage(create_pipeline_stage_statement(row).params)) == Ok::<
            PipelineView,
            Seq<char>,
        >(row),
{
    let params = create_pipeline_stage_statement(row).params;
    assert(params.len() == 7);
    assert(params[0] == SqlCell::Text(row.id));
}

/// Statement of [`create_pipeline_stage`].
pub const CREATE_PIPELINE_STAGE: &'static str =
    "INSERT INTO pipeline_runs (id, run_id, stage, artifact_id, status, agent_id, created_at, updated_at, input_metadata)
         VALUES (?1, ?2, ?3, ?4, 'running', '', ?5, ?6, ?7)";

/// The statement that stores a stage of a pipeline run.
pub open spec fn create_pipeline_stage_statement(row: PipelineView) -> StatementView {
    StatementView::of(CREATE_PIPELINE_STAGE@).text(row.id).text(row.run_id).text(row.stage).text(
        row.artifact_id,
    ).text(row.created_at).text(row.updated_at).text(row.input_metadata)
}

/// Whether a stage record is a new one with the given contents.
pub open spec fn is_new_stage(
    row: PipelineView,
    run_id: Seq<char>,
    stage: Seq<char>,
    artifact_id: Seq<char>,
    input_metadata: Seq<char>,
) -> bool {
    &&& is_uuid(row.id)
    &&& row.run_id == run_id
    &&& row.stage == stage
    &&& row.artifact_id == artifact_id
    &&& row.status == "running"@
    &&& row.agent_id == ""@
    &&& row.result is None
    &&& row.error is None
    &&& is_time(row.created_at)
    &&& row.updated_at == row.created_at
    &&& row.input_metadata == input_metadata
}

/// A new stage of a pipeline run, which is running, and the statement that stores
/// it.
pub fn create_pipeline_stage(
    run_id: &str,
    stage: &str,
    artifact_id: &str,
    input_metadata: &str,
) -> (r: (Statement, PipelineRow))
    ensures
        is_new_stage(r.1@, run_id@, stage@, artifact_id@, input_metadata@),
        r.0@ == create_pipeline_stage_statement(r.1@),
{
    let now = now_text();
    let row = PipelineRow {
        id: new_id(),
        run_id: run_id.to_string(),
        stage: stage.to_string(),
        artifact_id: artifact_id.to_string(),
        status: "running".to_string(),
        agent_id: "".to_string(),
        result: None,
        error: None,
        created_at: now.clone(),
        updated_at: now,
        input_metadata: input_metadata.to_string(),
    };
    let statement = Statement::of(CREATE_PIPELINE_STAGE).text(row.id.as_str()).text(
        row.run_id.as_str(),
    ).text(row.stage.as_str()).text(row.artifact_id.as_str()).text(row.created_at.as_str()).text(
        row.updated_at.as_str(),
    ).text(row.input_metadata.as_str());
    (statement, row)
}

/// Statement of [`update_stage_with`].
pub const UPDATE_PIPELINE_STAGE: &'static str =
    "UPDATE pipeline_runs SET status = ?1, agent_id = ?2, result = ?3, error = ?4, updated_at = ?5
         WHERE id = ?6";

/// The statement of [`update_stage_with`].
pub open spec fn update_stage_with_statement(
    now: Seq<char>,
    id: Seq<char>,
    status: Seq<char>,
    agent_id: Seq<char>,
    result: Seq<char>,
    error: Seq<char>,
) -> StatementView {
    StatementView::of(UPDATE_PIPELINE_STAGE@)
        .text(status)
        .text(agent_id)
        .text(result)
        .text(error)
        .text(now)
        .text(id)
}

/// Sets the outcome of a stage: its status, agent, result and error.
pub fn update_stage_with(
    id: &str,
    status: &str,
    agent_id: &str,
    result: &str,
    error: &str,
) -> (r: Statement)
    ensures
        exists|now: Seq<char>| #[trigger]
            is_time(now) && r@ == update_stage_with_statement(
                now,
                id@,
                status@,
                agent_id@,
                result@,
                error@,
            ),
{
    let now = now_text();
    let r = Statement::of(UPDATE_PIPELINE_STAGE)
        .text(status)
        .text(agent_id)
        .text(result)
        .text(error)
        .text(now.as_str())
        .text(id);
    assert(is_time(now@) && r@ == update_stage_with_statement(
        now@,
        id@,
        status@,
        agent_id@,
        result@,
        error@,
    ));
    r
}

/// Sets the outcome of a stage. An absent result or error is stored as the empty
/// text.
pub fn update_pipeline_stage(
    id: &str,
    status: &str,
    agent_id: &str,
    result: Option<&str>,
    error: Option<&str>,
) -> (r: Statement)
    ensures
        exists|now: Seq<char>| #[trigger]
            is_time(now) && r@ == update_stage_with_statement(
                now,
                id@,
                status@,
                agent_id@,
                text_or(opt_str(result), ""@),
                text_or(opt_str(error), ""@),
            ),
{
    let res = match result {
        Some(s) => s,
        None => "",
    };
    let err = match error {
        Some(s) => s,
        None => "",
    };
    update_stage_with(id, status, agent_id, res, err)
}

/// Statement of [`retry_pipeline_stage`].
pub const RETRY_PIPELINE_STAGE: &'static str =
    "UPDATE pipeline_runs SET status = 'running', retry_count = retry_count + 1, updated_at = ?1 WHERE id = ?2";

/// The statement of [`retry_pipeline_stage`].
pub open spec fn retry_pipeline_stage_statement(
    now: Seq<char>,
    id: Seq<char>,
) -> StatementView {
    StatementView::of(RETRY_PIPELINE_STAGE@).text(now).text(id)
}

/// Sets a stage running once more and counts the retry.
pub fn retry_pipeline_stage(id: &str) -> (r: Statement)
    ensures
        exists|now: Seq<char>| #[trigger] is_time(now) && r@ == retry_pipeline_stage_statement(now, id@),
{
    let now = now_text();
    let r = Statement::of(RETRY_PIPELINE_STAGE).text(now.as_str()).text(id);
    assert(is_time(now@) && r@ == retry_pipeline_stage_statement(now@, id@));
    r
}

/// Statement of [`get_stage_retry_count`].
pub const GET_STAGE_RETRY_COUNT: &'static str =
    "SELECT retry_count FROM pipeline_runs WHERE run_id = ?1 AND stage = ?2 ORDER BY created_at DESC LIMIT 1";

/// The statement of [`get_stage_retry_count`].
pub open spec fn get_stage_retry_count_statement(
    run_id: Seq<char>,
    stage: Seq<char>,
) -> StatementView {
    StatementView::of(GET_STAGE_RETRY_COUNT@).text(run_id).text(stage)
}

/// Asks how often the newest record of a stage was retried.
pub fn get_stage_retry_count(run_id: &str, stage: &str) -> (r: Statement)
    ensures
        r@ == get_stage_retry_count_statement(run_id@, stage@),
{
    Statement::of(GET_STAGE_RETRY_COUNT).text(run_id).text(stage)
}

/// A query for pipeline stages: the columns, and what follows them.
pub open spec fn pipeline_query(rest: Seq<char>) -> StatementView {
    StatementView::of("SELECT "@ + PIPELINE_COLS@ + rest)
}

/// A query for pipeline stages: the columns, and what follows them.
fn select_stages(rest: &str) -> (r: Statement)
    ensures
        r@ == pipeline_query(rest@),
{
    let sql = concat3("SELECT ", PIPELINE_COLS, rest);
    Statement::of(sql.as_str())
}

/// Lists the stages of a pipeline run, oldest first.
pub fn get_pipeline_run_stages(run_id: &str) -> (r: Statement)
    ensures
        r@ == pipeline_query(
            " FROM pipeline_runs WHERE run_id = ?1 ORDER BY created_at ASC"@,
        ).text(run_id@),
{
    select_stages(" FROM pipeline_runs WHERE run_id = ?1 ORDER BY created_at ASC").text(run_id)
}

/// Lists the stages that are running, newest first.
pub fn list_running_stages() -> (r: Statement)
    ensures
        r@ == pipeline_query(
            " FROM pipeline_runs WHERE status = 'running' ORDER BY created_at DESC"@,
        ),
{
    select_stages(" FROM pipeline_runs WHERE status = 'running' ORDER BY created_at DESC")
}

/// What a list of stage records holds.
pub open spec fn stage_views(stages: Seq<PipelineRow>) -> Seq<PipelineView> {
    stages.map_values(|row: PipelineRow| row@)
}

/// Whether one stage of a list overtakes another: it belongs to the same run and is
/// newer, or as new and listed before it.
pub open spec fn overtakes(rows: Seq<PipelineView>, j: int, i: int) -> bool {
    &&& rows[j].run_id == rows[i].run_id
    &&& if rows[j].created_at == rows[i].created_at {
        j < i
    } else {
        in_order(rows[i].created_at, rows[j].created_at)
    }
}

/// Whether one of the first `n` stages of a list overtakes a stage.
pub open spec fn overtaken(rows: Seq<PipelineView>, i: int, n: int) -> bool {
    exists|j: int| 0 <= j < n && #[trigger] overtakes(rows, j, i)
}

/// The stages among the first `n` of a list that no stage of the list overtakes.
pub open spec fn newest_of_each_run(rows: Seq<PipelineView>, n: nat) -> Seq<PipelineView>
    decreases n,
{
    if n == 0 {
        Seq::empty()
    } else {
        let rest = newest_of_each_run(rows, (n - 1) as nat);
        if overtaken(rows, n - 1, rows.len() as int) {
            rest
        } else {
            rest.push(rows[n - 1])
        }
    }
}

/// Whether a stage of a list is overtaken.
fn is_overtaken(rows: &Vec<PipelineRow>, i: usize) -> (r: bool)
    requires
        i < rows@.len(),
    ensures
        r == overtaken(stage_views(rows@), i as int, rows@.len() as int),
{
    let ghost all = stage_views(rows@);
    let row = &rows[i];
    let mut j: usize = 0;
    while j < rows.len()
        invariant
            i < rows@.len(),
            j <= rows@.len(),
            all == stage_views(rows@),
            row@ == all[i as int],
            !overtaken(all, i as int, j as int),
        decreases rows@.len() - j,
    {
        let other = &rows[j];
        assert(other@ == all[j as int]);
        if same(other.run_id.as_str(), row.run_id.as_str()) {
            let newer = if same(other.created_at.as_str(), row.created_at.as_str()) {
                j < i
            } else {
                ordered(row.created_at.as_str(), other.created_at.as_str())
            };
            if newer {
                assert(overtakes(all, j as int, i as int));
                return true;
            }
        }
        assert(!overtakes(all, j as int, i as int));
        j += 1;
    }
    false
}

/// A copy of a stage.
fn copy_stage(row: &PipelineRow) -> (r: PipelineRow)
    ensures
        r@ == row@,
{
    PipelineRow {
        id: row.id.clone(),
        run_id: row.run_id.clone(),
        stage: row.stage.clone(),
        artifact_id: row.artifact_id.clone(),
        status: row.status.clone(),
        agent_id: row.agent_id.clone(),
        result: copied(&row.result),
        error: copied(&row.error),
        created_at: row.created_at.clone(),
        updated_at: row.updated_at.clone(),
        input_metadata: row.input_metadata.clone(),
    }
}

/// The newest stage of each run, given the stages that are running.
pub fn get_active_pipeline_runs(rows: &Vec<PipelineRow>) -> (r: Vec<PipelineRow>)
    ensures
        stage_views(r@) == newest_of_each_run(stage_views(rows@), rows@.len()),
{
    let ghost all = stage_views(rows@);
    let mut r: Vec<PipelineRow> = Vec::new();
    let mut i: usize = 0;
    assert(stage_views(r@) =~= Seq::<PipelineView>::empty());
    while i < rows.len()
        invariant
            i <= rows@.len(),
            all == stage_views(rows@),
            stage_views(r@) == newest_of_each_run(all, i as nat),
        decreases rows@.len() - i,
    {
        if !is_overtaken(rows, i) {
            let ghost before = r@;
            r.push(copy_stage(&rows[i]));
            assert(stage_views(r@) =~= stage_views(before).push(all[i as int]));
        }
        i += 1;
    }
    r
}

/// One of the first `n` stages of a list belongs to the run of a stage, is at least as
/// new, and is not overtaken by the first `n`.
proof fn lemma_newest_stage(rows: Seq<PipelineView>, i: int, n: int) -> (w: int)
    requires
        0 <= i < n <= rows.len(),
    ensures
        0 <= w < n,
        rows[w].run_id == rows[i].run_id,
        in_order(rows[i].created_at, rows[w].created_at),
        !overtaken(rows, w, n),
    decreases n, 1int,
{
    lemma_in_order_total(rows[i].created_at, rows[i].created_at);
    if n == i + 1 {
        lemma_newest_before(rows, i)
    } else {
        let w = lemma_newest_stage(rows, i, n - 1);
        let last = n - 1;
        if overtakes(rows, last, w) {
            lemma_in_order_transitive(
                rows[i].created_at,
                rows[w].created_at,
                rows[last].created_at,
            );
            assert forall|j: int| 0 <= j < n implies !#[trigger] overtakes(rows, j, last) by {
                if j < last && overtakes(rows, j, last) {
                    lemma_overtaking_twice(rows, j, last, w);
                }
            }
            last
        } else {
            w
        }
    }
}

/// Of the first stages of a list, up to a stage, one belongs to its run, is at least
/// as new, and is not overtaken by them.
proof fn lemma_newest_before(rows: Seq<PipelineView>, i: int) -> (w: int)
    requires
        0 <= i < rows.len(),
    ensures
        0 <= w <= i,
        rows[w].run_id == rows[i].run_id,
        in_order(rows[i].created_at, rows[w].created_at),
        !overtaken(rows, w, i + 1),
    decreases i + 1, 0int,
{
    lemma_in_order_total(rows[i].created_at, rows[i].created_at);
    if overtaken(rows, i, i + 1) {
        let j = choose|j: int| 0 <= j < i + 1 && overtakes(rows, j, i);
        let w = lemma_newest_stage(rows, j, i);
        lemma_in_order_transitive(rows[i].created_at, rows[j].created_at, rows[w].created_at);
        assert(!overtakes(rows, i, w)) by {
            if overtakes(rows, i, w) {
                lemma_in_order_antisymmetric(rows[i].created_at, rows[w].created_at);
            }
        }
        w
    } else {
        i
    }
}

/// A stage that overtakes another one overtakes what that one overtakes, where it is
/// listed after it.
proof fn lemma_overtaking_twice(rows: Seq<PipelineView>, j: int, last: int, w: int)
    requires
        0 <= w < last < rows.len(),
        0 <= j < last,
        overtakes(rows, j, last),
        overtakes(rows, last, w),
    ensures
        overtakes(rows, j, w),
{
    let a = rows[w].created_at;
    let b = rows[last].created_at;
    let c = rows[j].created_at;
    if b != c {
        lemma_in_order_transitive(a, b, c);
        if a == c {
            lemma_in_order_antisymmetric(a, b);
        }
    }
}

/// What stands among the newest stages of each run: only stages of the list that are
/// not overtaken, each of those, and no run twice.
proof fn lemma_newest_of_each_run(rows: Seq<PipelineView>, n: nat)
    requires
        n <= rows.len(),
    ensures
        forall|k: int|
            0 <= k < newest_of_each_run(rows, n).len() ==> exists|i: int|
                0 <= i < n && !#[trigger] overtaken(rows, i, rows.len() as int)
                    && #[trigger] newest_of_each_run(rows, n)[k] == rows[i],
        forall|i: int|
            0 <= i < n && !#[trigger] overtaken(rows, i, rows.len() as int)
                ==> newest_of_each_run(rows, n).contains(rows[i]),
        forall|a: int, b: int|
            0 <= a < b < newest_of_each_run(rows, n).len() ==> (
            #[trigger] newest_of_each_run(rows, n)[a]).run_id != (
            #[trigger] newest_of_each_run(rows, n)[b]).run_id,
    decreases n,
{
    if n > 0 {
        let before = newest_of_each_run(rows, (n - 1) as nat);
        let after = newest_of_each_run(rows, n);
        let last = n - 1;
        lemma_newest_of_each_run(rows, (n - 1) as nat);
        assert forall|i: int|
            0 <= i < n && !#[trigger] overtaken(rows, i, rows.len() as int) implies after.contains(
            rows[i],
        ) by {
            if i < last {
                let k = choose|k: int| 0 <= k < before.len() && before[k] == rows[i];
                assert(after[k] == rows[i]);
            } else {
                assert(after[after.len() - 1] == rows[i]);
            }
        }
        assert forall|k: int| 0 <= k < after.len() implies exists|i: int|
            0 <= i < n && !#[trigger] overtaken(rows, i, rows.len() as int)
                && #[trigger] after[k] == rows[i] by {
            if k < before.len() {
                assert(after[k] == before[k]);
            } else {
                assert(!overtaken(rows, last, rows.len() as int) && after[k] == rows[last]);
            }
        }
        if !overtaken(rows, last, rows.len() as int) {
            assert forall|a: int| 0 <= a < before.len() implies (#[trigger] after[a]).run_id
                != rows[last].run_id by {
                assert(after[a] == before[a]);
                let i = choose|i: int|
                    0 <= i < last && !#[trigger] overtaken(rows, i, rows.len() as int)
                        && before[a] == rows[i];
                if rows[i].run_id == rows[last].run_id {
                    lemma_in_order_total(rows[i].created_at, rows[last].created_at);
                    assert(overtakes(rows, i, last) || overtakes(rows, last, i));
                }
            }
        }
    }
}

/// Each run with a stage that is running is listed exactly once, by its newest stage.
pub proof fn law_active_runs_are_listed_once(rows: Seq<PipelineView>, i: int)
    requires
        0 <= i < rows.len(),
    ensures
        ({
            let listed = newest_of_each_run(rows, rows.len());
            &&& exists|k: int|
                0 <= k < listed.len() && (#[trigger] listed[k]).run_id == rows[i].run_id
                    && in_order(rows[i].created_at, listed[k].created_at)
            &&& forall|a: int, b: int|
                0 <= a < b < listed.len() ==> (#[trigger] listed[a]).run_id != (
                #[trigger] listed[b]).run_id
            &&& forall|k: int| 0 <= k < listed.len() ==> rows.contains(#[trigger] listed[k])
        }),
{
    let listed = newest_of_each_run(rows, rows.len());
    lemma_newest_of_each_run(rows, rows.len());
    let w = lemma_newest_stage(rows, i, rows.len() as int);
    assert(listed.contains(rows[w]));
    let k = choose|k: int| 0 <= k < listed.len() && listed[k] == rows[w];
    assert(listed[k].run_id == rows[i].run_id);
    assert forall|k: int| 0 <= k < listed.len() implies rows.contains(#[trigger] listed[k]) by {
        let j = choose|j: int|
            0 <= j < rows.len() && !#[trigger] overtaken(rows, j, rows.len() as int) && listed[k]
                == rows[j];
        assert(rows[j] == listed[k]);
    }
}

/// Asks for the stages that are running and were created before a time.
pub fn stages_created_before(cutoff: &str) -> (r: Statement)
    ensures
        r@ == pipeline_query(
            " FROM pipeline_runs WHERE status = 'running' AND created_at < ?1"@,
        ).text(cutoff@),
{
    select_stages(" FROM pipeline_runs WHERE status = 'running' AND created_at < ?1").text(cutoff)
}

/// The greatest number of seconds that lies before every time since 1970 in the
/// calendar.
pub const MAX_TIMEOUT_SECS: i64 = 8_334_601_228_800;

/// Asks for the stages that at a time have been running for longer than a number of
/// seconds.
pub fn timed_out_stages_at(now: Instant, timeout_seconds: i64) -> (r: Statement)
    requires
        now.valid(),
        FIRST_SECOND <= now.secs - timeout_seconds <= LAST_SECOND,
    ensures
        utc_text((now.secs - timeout_seconds) as i64, now.nanos) is Some,
        r@ == pipeline_query(
            " FROM pipeline_runs WHERE status = 'running' AND created_at < ?1"@,
        ).text(utc_text((now.secs - timeout_seconds) as i64, now.nanos)->0),
{
    let cutoff = rfc3339(Instant { secs: now.secs - timeout_seconds, nanos: now.nanos });
    stages_created_before(cutoff.as_str())
}

/// Whether the calendar holds the time a number of seconds before a time.
pub open spec fn has_cutoff(now: Instant, timeout_seconds: i64) -> bool {
    FIRST_SECOND <= now.secs - timeout_seconds <= LAST_SECOND
}

/// Asks for the stages that have now been running for longer than a number of
/// seconds; nothing where the calendar does not hold the time that many seconds ago.
/// It holds it for every number of seconds from zero to [`MAX_TIMEOUT_SECS`].
pub fn get_timed_out_stages(timeout_seconds: i64) -> (r: Option<Statement>)
    ensures
        0 <= timeout_seconds <= MAX_TIMEOUT_SECS ==> r is Some,
        exists|now: Instant| #[trigger]
            now.valid() && now.secs >= 0 && match r {
                Some(statement) => {
                    &&& has_cutoff(now, timeout_seconds)
                    &&& utc_text((now.secs - timeout_seconds) as i64, now.nanos) is Some
                    &&& statement@ == pipeline_query(
                        " FROM pipeline_runs WHERE status = 'running' AND created_at < ?1"@,
                    ).text(utc_text((now.secs - timeout_seconds) as i64, now.nanos)->0)
                },
                None => !has_cutoff(now, timeout_seconds),
            },
{
    let now = clock();
    assert(now.valid());
    let cutoff: i128 = now.secs as i128 - timeout_seconds as i128;
    if FIRST_SECOND as i128 <= cutoff && cutoff <= LAST_SECOND as i128 {
        Some(timed_out_stages_at(now, timeout_seconds))
    } else {
        None
    }
}

/// The statement of [`list_pipeline_runs`].
pub open spec fn list_pipeline_runs_statement(
    limit: u32,
    status: Option<Seq<char>>,
) -> StatementView {
    pipeline_query(" FROM pipeline_runs WHERE 1=1"@).filter(" AND status = ?"@, ""@, status).bind(
        " ORDER BY created_at DESC LIMIT ?"@,
        ""@,
        SqlCell::Integer(limit as i64),
    )
}

/// Lists the stages of all pipeline runs, newest first, by status where one is
/// given.
pub fn list_pipeline_runs(limit: u32, status_filter: Option<&str>) -> (r: Statement)
    ensures
        r@ == list_pipeline_runs_statement(limit, opt_str(status_filter)),
{
    select_stages(" FROM pipeline_runs WHERE 1=1").filter(
        " AND status = ?",
        "",
        status_filter,
    ).bind(" ORDER BY created_at DESC LIMIT ?", "", SqlValue::Integer(limit as i64))
}

// Cron jobs.

/// Statement of [`upsert_cron_with`].
pub const UPSERT_CRON_JOB: &'static str =
    "INSERT INTO cron_jobs (id, name, schedule, enabled, created_at)
         VALUES (?1, ?2, ?3, ?4, ?5)
         ON CONFLICT(name) DO UPDATE SET
             schedule = cron_jobs.schedule,
             enabled  = cron_jobs.enabled";

/// The statement of [`upsert_cron_with`].
pub open spec fn upsert_cron_with_statement(
    id: Seq<char>,
    now: Seq<char>,
    name: Seq<char>,
    schedule: Seq<char>,
    enabled: i64,
) -> StatementView {
    StatementView::of(UPSERT_CRON_JOB@).text(id).text(name).text(schedule).integer(enabled).text(now)
}

/// Inserts a cron job. A job that has its name already keeps its schedule and its
/// flag.
pub fn upsert_cron_with(name: &str, schedule: &str, enabled: i64) -> (r: Statement)
    ensures
        exists|id: Seq<char>, now: Seq<char>|
            #![trigger is_uuid(id), is_time(now)]
            is_uuid(id) && is_time(now) && r@ == upsert_cron_with_statement(
                id,
                now,
                name@,
                schedule@,
                enabled,
            ),
{
    let id = new_id();
    let now = now_text();
    let r = Statement::of(UPSERT_CRON_JOB)
        .text(id.as_str())
        .text(name)
        .text(schedule)
        .integer(enabled)
        .text(now.as_str());
    assert(is_uuid(id@) && is_time(now@) && r@ == upsert_cron_with_statement(
        id@,
        now@,
        name@,
        schedule@,
        enabled,
    ));
    r
}

/// Inserts a cron job. A job that has its name already keeps its schedule and its
/// flag.
pub fn upsert_cron_job(name: &str, schedule: &str, enabled: bool) -> (r: Statement)
    ensures
        exists|id: Seq<char>, now: Seq<char>|
            #![trigger is_uuid(id), is_time(now)]
            is_uuid(id) && is_time(now) && r@ == upsert_cron_with_statement(
                id,
                now,
                name@,
                schedule@,
                if enabled {
                    1
                } else {
                    0
                },
            ),
{
    let enabled_int: i64 = if enabled {
        1
    } else {
        0
    };
    upsert_cron_with(name, schedule, enabled_int)
}

/// Statement of [`get_cron_job_id`].
pub const GET_CRON_JOB_ID: &'static str =
    "SELECT id FROM cron_jobs WHERE name = ?1";

/// The statement of [`get_cron_job_id`].
pub open spec fn get_cron_job_id_statement(
    name: Seq<char>,
) -> StatementView {
    StatementView::of(GET_CRON_JOB_ID@).text(name)
}

/// Asks for the id of the cron job with a name.
pub fn get_cron_job_id(name: &str) -> (r: Statement)
    ensures
        r@ == get_cron_job_id_statement(name@),
{
    Statement::of(GET_CRON_JOB_ID).text(name)
}

/// Statement of [`update_cron_with`].
pub const UPDATE_CRON_RUN: &'static str =
    "UPDATE cron_jobs SET
             last_run_at = ?1,
             last_status = ?2,
             last_error  = ?3,
             next_run_at = CASE WHEN ?4 = '' THEN next_run_at ELSE ?4 END
         WHERE name = ?5";

/// The statement of [`update_cron_with`].
pub open spec fn update_cron_with_statement(
    now: Seq<char>,
    name: Seq<char>,
    status: Seq<char>,
    error: Seq<char>,
    next_run_at: Seq<char>,
) -> StatementView {
    StatementView::of(UPDATE_CRON_RUN@).text(now).text(status).text(error).text(next_run_at).text(name)
}

/// Records that a cron job has run. An empty time of the next run keeps the one
/// that is there.
pub fn update_cron_with(name: &str, status: &str, error: &str, next_run_at: &str) -> (r: Statement)
    ensures
        exists|now: Seq<char>| #[trigger]
            is_time(now) && r@ == update_cron_with_statement(
                now,
                name@,
                status@,
                error@,
                next_run_at@,
            ),
{
    let now = now_text();
    let r = Statement::of(UPDATE_CRON_RUN)
        .text(now.as_str())
        .text(status)
        .text(error)
        .text(next_run_at)
        .text(name);
    assert(is_time(now@) && r@ == update_cron_with_statement(
        now@,
        name@,
        status@,
        error@,
        next_run_at@,
    ));
    r
}

/// Records that a cron job has run: its status, its error, and when it runs next.
pub fn update_cron_run(
    name: &str,
    status: &str,
    error: Option<&str>,
    next_run_at: Option<&str>,
) -> (r: Statement)
    ensures
        exists|now: Seq<char>| #[trigger]
            is_time(now) && r@ == update_cron_with_statement(
                now,
                name@,
                status@,
                text_or(opt_str(error), ""@),
                text_or(opt_str(next_run_at), ""@),
            ),
{
    let err = match error {
        Some(s) => s,
        None => "",
    };
    let next = match next_run_at {
        Some(s) => s,
        None => "",
    };
    update_cron_with(name, status, err, next)
}

/// Statement of [`list_cron_jobs`].
pub const LIST_CRON_JOBS: &'static str =
    "SELECT id, name, schedule, enabled, last_run_at, next_run_at,
                    last_status, last_error, created_at
             FROM cron_jobs ORDER BY name";

/// The statement of [`list_cron_jobs`].
pub open spec fn list_cron_jobs_statement() -> StatementView {
    StatementView::of(LIST_CRON_JOBS@)
}

/// Lists all cron jobs by their names.
pub fn list_cron_jobs() -> (r: Statement)
    ensures
        r@ == list_cron_jobs_statement(),
{
    Statement::of(LIST_CRON_JOBS)
}

// Setting up the database.

/// Pragmas of each connection.
pub const CONNECTION_PRAGMAS: &'static str =
    "PRAGMA busy_timeout=5000;";

/// Pragmas of a new database.
pub const DATABASE_PRAGMAS: &'static str =
    "PRAGMA journal_mode=WAL; PRAGMA busy_timeout=5000;";

/// The `tasks` table.
pub const TASKS_TABLE: &'static str =
    "CREATE TABLE IF NOT EXISTS tasks (
            id          TEXT PRIMARY KEY,
            task_type   TEXT NOT NULL,
            status      TEXT NOT NULL DEFAULT 'pending',
            agent_id    TEXT NOT NULL DEFAULT '',
            payload     TEXT NOT NULL DEFAULT '{}',
            created_at  TEXT NOT NULL,
            updated_at  TEXT NOT NULL
        )";

/// The `pipeline_runs` table.
pub const PIPELINE_RUNS_TABLE: &'static str =
    "CREATE TABLE IF NOT EXISTS pipeline_runs (
            id          TEXT PRIMARY KEY,
            stage       TEXT NOT NULL,
            artifact_id TEXT NOT NULL DEFAULT '',
            status      TEXT NOT NULL DEFAULT 'pending',
            result      TEXT,
            created_at  TEXT NOT NULL,
            updated_at  TEXT NOT NULL
        )";

/// The `agent_status` table.
pub const AGENT_STATUS_TABLE: &'static str =
    "CREATE TABLE IF NOT EXISTS agent_status (
            agent_id            TEXT PRIMARY KEY,
            role                TEXT NOT NULL DEFAULT '',
            status              TEXT NOT NULL DEFAULT 'offline',
            last_heartbeat      TEXT NOT NULL,
            preferred_model     TEXT NOT NULL DEFAULT '',
            soul_content        TEXT NOT NULL DEFAULT '',
            binary_path         TEXT NOT NULL DEFAULT '',
            version             TEXT NOT NULL DEFAULT '',
            first_registered_at TEXT NOT NULL DEFAULT '',
            registration_count  INTEGER NOT NULL DEFAULT 0,
            crash_count         INTEGER NOT NULL DEFAULT 0,
            socket_id           TEXT NOT NULL DEFAULT ''
        )";

/// The `config_history` table.
pub const CONFIG_HISTORY_TABLE: &'static str =
    "CREATE TABLE IF NOT EXISTS config_history (
            id          TEXT PRIMARY KEY,
            config_hash TEXT NOT NULL,
            action      TEXT NOT NULL,
            backup_path TEXT NOT NULL DEFAULT '',
            timestamp   TEXT NOT NULL
        )";

/// The `cron_jobs` table.
pub const CRON_JOBS_TABLE: &'static str =
    "CREATE TABLE IF NOT EXISTS cron_jobs (
            id          TEXT PRIMARY KEY,
            name        TEXT NOT NULL UNIQUE,
            schedule    TEXT NOT NULL,
            enabled     INTEGER NOT NULL DEFAULT 1,
            last_run_at TEXT,
            next_run_at TEXT,
            last_status TEXT,
            last_error  TEXT,
            created_at  TEXT NOT NULL
        )";

/// The `task_logs` table.
pub const TASK_LOGS_TABLE: &'static str =
    "CREATE TABLE IF NOT EXISTS task_logs (
            id         TEXT PRIMARY KEY,
            task_id    TEXT NOT NULL,
            level      TEXT NOT NULL DEFAULT 'info',
            message    TEXT NOT NULL,
            detail     TEXT NOT NULL DEFAULT '',
            agent_id   TEXT NOT NULL DEFAULT '',
            stage      TEXT NOT NULL DEFAULT '',
            created_at TEXT NOT NULL
        )";

/// The `memories` table.
pub const MEMORIES_TABLE: &'static str =
    "CREATE TABLE IF NOT EXISTS memories (
            id              TEXT PRIMARY KEY,
            scope           TEXT NOT NULL DEFAULT 'system',
            category        TEXT NOT NULL DEFAULT 'general',
            key             TEXT NOT NULL DEFAULT '',
            metadata        TEXT NOT NULL DEFAULT '{}',
            tags            TEXT NOT NULL DEFAULT '',
            agent_id        TEXT NOT NULL DEFAULT '',
            run_id          TEXT NOT NULL DEFAULT '',
            skill_id        TEXT NOT NULL DEFAULT '',
            relevance_score REAL NOT NULL DEFAULT 0.0,
            access_count    INTEGER NOT NULL DEFAULT 0,
            created_at      TEXT NOT NULL,
            updated_at      TEXT NOT NULL
        )";

/// The `memory_tiers` table.
pub const MEMORY_TIERS_TABLE: &'static str =
    "CREATE TABLE IF NOT EXISTS memory_tiers (
            id         TEXT PRIMARY KEY,
            memory_id  TEXT NOT NULL,
            tier       TEXT NOT NULL,
            content    TEXT NOT NULL DEFAULT '',
            created_at TEXT NOT NULL,
            updated_at TEXT NOT NULL
        )";

/// The `task_memories` table.
pub const TASK_MEMORIES_TABLE: &'static str =
    "CREATE TABLE IF NOT EXISTS task_memories (
            id         TEXT PRIMARY KEY,
            task_id    TEXT NOT NULL,
            memory_id  TEXT NOT NULL,
            created_at TEXT NOT NULL
        )";

/// The `agent_history` table.
pub const AGENT_HISTORY_TABLE: &'static str =
    "CREATE TABLE IF NOT EXISTS agent_history (
            id          TEXT PRIMARY KEY,
            agent_id    TEXT NOT NULL,
            prev_status TEXT NOT NULL DEFAULT '',
            new_status  TEXT NOT NULL,
            trigger     TEXT NOT NULL DEFAULT '',
            detail      TEXT NOT NULL DEFAULT '',
            pid         INTEGER NOT NULL DEFAULT 0,
            created_at  TEXT NOT NULL
        )";

/// The `socket_events` table.
pub const SOCKET_EVENTS_TABLE: &'static str =
    "CREATE TABLE IF NOT EXISTS socket_events (
            id          TEXT PRIMARY KEY,
            event_name  TEXT NOT NULL,
            direction   TEXT NOT NULL DEFAULT 'inbound',
            agent_id    TEXT NOT NULL DEFAULT '',
            socket_id   TEXT NOT NULL DEFAULT '',
            room        TEXT NOT NULL DEFAULT '',
            payload     TEXT NOT NULL DEFAULT '{}',
            created_at  TEXT NOT NULL
        )";

/// The indexes of the tables of what happened.
pub const HISTORY_INDEXES: &'static str =
    "CREATE INDEX IF NOT EXISTS idx_agent_history_agent_id ON agent_history(agent_id);
         CREATE INDEX IF NOT EXISTS idx_agent_history_created_at ON agent_history(created_at);
         CREATE INDEX IF NOT EXISTS idx_socket_events_agent_id ON socket_events(agent_id);
         CREATE INDEX IF NOT EXISTS idx_socket_events_event_name ON socket_events(event_name);
         CREATE INDEX IF NOT EXISTS idx_socket_events_created_at ON socket_events(created_at);";

/// The indexes of the memory tables.
pub const MEMORY_INDEXES: &'static str =
    "CREATE INDEX IF NOT EXISTS idx_memories_scope ON memories(scope);
         CREATE INDEX IF NOT EXISTS idx_memories_category ON memories(category);
         CREATE INDEX IF NOT EXISTS idx_memories_agent_id ON memories(agent_id);
         CREATE INDEX IF NOT EXISTS idx_memories_run_id ON memories(run_id);
         CREATE INDEX IF NOT EXISTS idx_memories_key ON memories(key);
         CREATE INDEX IF NOT EXISTS idx_memories_created_at ON memories(created_at);
         CREATE INDEX IF NOT EXISTS idx_memory_tiers_memory_id ON memory_tiers(memory_id);
         CREATE INDEX IF NOT EXISTS idx_memory_tiers_tier ON memory_tiers(tier);
         CREATE INDEX IF NOT EXISTS idx_task_memories_task_id ON task_memories(task_id);
         CREATE INDEX IF NOT EXISTS idx_task_memories_memory_id ON task_memories(memory_id);
         CREATE UNIQUE INDEX IF NOT EXISTS idx_task_memories_unique ON task_memories(task_id, memory_id);";

/// Adds the column `capabilities` to `agent_status`.
pub const ADD_AGENT_STATUS_CAPABILITIES: &'static str =
    "ALTER TABLE agent_status ADD COLUMN capabilities TEXT NOT NULL DEFAULT '[]'";

/// Adds the column `skills` to `agent_status`.
pub const ADD_AGENT_STATUS_SKILLS: &'static str =
    "ALTER TABLE agent_status ADD COLUMN skills TEXT NOT NULL DEFAULT '[]'";

/// Adds the column `pid` to `agent_status`.
pub const ADD_AGENT_STATUS_PID: &'static str =
    "ALTER TABLE agent_status ADD COLUMN pid INTEGER NOT NULL DEFAULT 0";

/// Adds the column `run_id` to `pipeline_runs`.
pub const ADD_PIPELINE_RUNS_RUN_ID: &'static str =
    "ALTER TABLE pipeline_runs ADD COLUMN run_id TEXT NOT NULL DEFAULT ''";

/// Adds the column `agent_id` to `pipeline_runs`.
pub const ADD_PIPELINE_RUNS_AGENT_ID: &'static str =
    "ALTER TABLE pipeline_runs ADD COLUMN agent_id TEXT NOT NULL DEFAULT ''";

/// Adds the column `error` to `pipeline_runs`.
pub const ADD_PIPELINE_RUNS_ERROR: &'static str =
    "ALTER TABLE pipeline_runs ADD COLUMN error TEXT";

/// Adds the column `run_id` to `tasks`.
pub const ADD_TASKS_RUN_ID: &'static str =
    "ALTER TABLE tasks ADD COLUMN run_id TEXT NOT NULL DEFAULT ''";

/// Adds the column `current_stage` to `tasks`.
pub const ADD_TASKS_CURRENT_STAGE: &'static str =
    "ALTER TABLE tasks ADD COLUMN current_stage TEXT NOT NULL DEFAULT ''";

/// Adds the column `summary` to `tasks`.
pub const ADD_TASKS_SUMMARY: &'static str =
    "ALTER TABLE tasks ADD COLUMN summary TEXT NOT NULL DEFAULT ''";

/// Adds the column `parent_id` to `tasks`.
pub const ADD_TASKS_PARENT_ID: &'static str =
    "ALTER TABLE tasks ADD COLUMN parent_id TEXT NOT NULL DEFAULT ''";

/// The index of the task logs by their task.
pub const INDEX_TASK_LOGS: &'static str =
    "CREATE INDEX IF NOT EXISTS idx_task_logs_task_id ON task_logs(task_id)";

/// Adds the column `preferred_model` to `agent_status`.
pub const ADD_AGENT_STATUS_PREFERRED_MODEL: &'static str =
    "ALTER TABLE agent_status ADD COLUMN preferred_model TEXT NOT NULL DEFAULT ''";

/// Adds the column `input_metadata` to `pipeline_runs`.
pub const ADD_PIPELINE_RUNS_INPUT_METADATA: &'static str =
    "ALTER TABLE pipeline_runs ADD COLUMN input_metadata TEXT NOT NULL DEFAULT '{}'";

/// Adds the column `retry_count` to `pipeline_runs`.
pub const ADD_PIPELINE_RUNS_RETRY_COUNT: &'static str =
    "ALTER TABLE pipeline_runs ADD COLUMN retry_count INTEGER NOT NULL DEFAULT 0";

/// Adds the column `soul_content` to `agent_status`.
pub const ADD_AGENT_STATUS_SOUL_CONTENT: &'static str =
    "ALTER TABLE agent_status ADD COLUMN soul_content TEXT NOT NULL DEFAULT ''";

/// Adds the column `binary_path` to `agent_status`.
pub const ADD_AGENT_STATUS_BINARY_PATH: &'static str =
    "ALTER TABLE agent_status ADD COLUMN binary_path TEXT NOT NULL DEFAULT ''";

/// Adds the column `version` to `agent_status`.
pub const ADD_AGENT_STATUS_VERSION: &'static str =
    "ALTER TABLE agent_status ADD COLUMN version TEXT NOT NULL DEFAULT ''";

/// Adds the column `first_registered_at` to `agent_status`.
pub const ADD_AGENT_STATUS_FIRST_REGISTERED_AT: &'static str =
    "ALTER TABLE agent_status ADD COLUMN first_registered_at TEXT NOT NULL DEFAULT ''";

/// Adds the column `registration_count` to `agent_status`.
pub const ADD_AGENT_STATUS_REGISTRATION_COUNT: &'static str =
    "ALTER TABLE agent_status ADD COLUMN registration_count INTEGER NOT NULL DEFAULT 0";

/// Adds the column `crash_count` to `agent_status`.
pub const ADD_AGENT_STATUS_CRASH_COUNT: &'static str =
    "ALTER TABLE agent_status ADD COLUMN crash_count INTEGER NOT NULL DEFAULT 0";

/// Adds the column `socket_id` to `agent_status`.
pub const ADD_AGENT_STATUS_SOCKET_ID: &'static str =
    "ALTER TABLE agent_status ADD COLUMN socket_id TEXT NOT NULL DEFAULT ''";

/// What a step of the setup is.
#[derive(Clone, Copy, PartialEq, Eq, Structural)]
pub enum SetupKind {
    /// Several statements at once, which must succeed.
    Batch,
    /// One statement, which must succeed.
    Table,
    /// One statement on a table of an older form, which may fail.
    Migration,
}

/// A step of the setup of the database.
pub struct SetupStep {
    pub kind: SetupKind,
    pub sql: String,
    pub context: String,
}

/// What a [`SetupStep`] holds.
pub struct SetupView {
    pub kind: SetupKind,
    pub sql: Seq<char>,
    pub context: Seq<char>,
}

impl View for SetupStep {
    type V = SetupView;

    open spec fn view(&self) -> SetupView {
        SetupView { kind: self.kind, sql: self.sql@, context: self.context@ }
    }
}

/// What each of a list of steps holds.
pub open spec fn setup_views(steps: Seq<SetupStep>) -> Seq<SetupView> {
    steps.map_values(|step: SetupStep| step@)
}

/// A step that must succeed.
pub open spec fn must(kind: SetupKind, sql: Seq<char>, context: Seq<char>) -> SetupView {
    SetupView { kind, sql, context }
}

/// A step that may fail.
pub open spec fn migration(sql: Seq<char>) -> SetupView {
    SetupView { kind: SetupKind::Migration, sql, context: ""@ }
}

/// A step of the setup.
fn setup_step(kind: SetupKind, sql: &str, context: &str) -> (r: SetupStep)
    ensures
        r@ == must(kind, sql@, context@),
{
    SetupStep { kind, sql: sql.to_string(), context: context.to_string() }
}

/// A step of the setup that may fail.
fn migration_step(sql: &str) -> (r: SetupStep)
    ensures
        r@ == migration(sql@),
{
    setup_step(SetupKind::Migration, sql, "")
}

/// The setup of the database: the pragmas, the tables, the indexes and the
/// migrations, in this order.
pub open spec fn setup() -> Seq<SetupView> {
    seq![
        must(SetupKind::Batch, DATABASE_PRAGMAS@, "Failed to set WAL + busy_timeout pragmas"@),
        must(SetupKind::Table, TASKS_TABLE@, "create tasks table"@),
        must(SetupKind::Table, PIPELINE_RUNS_TABLE@, "create pipeline_runs table"@),
        must(SetupKind::Table, AGENT_STATUS_TABLE@, "create agent_status table"@),
        must(SetupKind::Table, CONFIG_HISTORY_TABLE@, "create config_history table"@),
        must(SetupKind::Table, CRON_JOBS_TABLE@, "create cron_jobs table"@),
        must(SetupKind::Table, TASK_LOGS_TABLE@, "create task_logs table"@),
        must(SetupKind::Table, MEMORIES_TABLE@, "create memories table"@),
        must(SetupKind::Table, MEMORY_TIERS_TABLE@, "create memory_tiers table"@),
        must(SetupKind::Table, TASK_MEMORIES_TABLE@, "create task_memories table"@),
        must(SetupKind::Batch, MEMORY_INDEXES@, "create memory indexes"@),
        must(SetupKind::Table, AGENT_HISTORY_TABLE@, "create agent_history table"@),
        must(SetupKind::Table, SOCKET_EVENTS_TABLE@, "create socket_events table"@),
        must(SetupKind::Batch, HISTORY_INDEXES@, "create history indexes"@),
        migration(ADD_AGENT_STATUS_CAPABILITIES@),
        migration(ADD_AGENT_STATUS_SKILLS@),
        migration(ADD_AGENT_STATUS_PID@),
        migration(ADD_PIPELINE_RUNS_RUN_ID@),
        migration(ADD_PIPELINE_RUNS_AGENT_ID@),
        migration(ADD_PIPELINE_RUNS_ERROR@),
        migration(ADD_TASKS_RUN_ID@),
        migration(ADD_TASKS_CURRENT_STAGE@),
        migration(ADD_TASKS_SUMMARY@),
        migration(ADD_TASKS_PARENT_ID@),
        migration(INDEX_TASK_LOGS@),
        migration(ADD_AGENT_STATUS_PREFERRED_MODEL@),
        migration(ADD_PIPELINE_RUNS_INPUT_METADATA@),
        migration(ADD_PIPELINE_RUNS_RETRY_COUNT@),
        migration(ADD_AGENT_STATUS_SOUL_CONTENT@),
        migration(ADD_AGENT_STATUS_BINARY_PATH@),
        migration(ADD_AGENT_STATUS_VERSION@),
        migration(ADD_AGENT_STATUS_FIRST_REGISTERED_AT@),
        migration(ADD_AGENT_STATUS_REGISTRATION_COUNT@),
        migration(ADD_AGENT_STATUS_CRASH_COUNT@),
        migration(ADD_AGENT_STATUS_SOCKET_ID@),
    ]
}

/// The steps that set up a database: they make the tables that are not there, and
/// bring older ones up to date.
pub fn init_db() -> (r: Vec<SetupStep>)
    ensures
        setup_views(r@) == setup(),
{
    let r = vec![
        setup_step(SetupKind::Batch, DATABASE_PRAGMAS, "Failed to set WAL + busy_timeout pragmas"),
        setup_step(SetupKind::Table, TASKS_TABLE, "create tasks table"),
        setup_step(SetupKind::Table, PIPELINE_RUNS_TABLE, "create pipeline_runs table"),
        setup_step(SetupKind::Table, AGENT_STATUS_TABLE, "create agent_status table"),
        setup_step(SetupKind::Table, CONFIG_HISTORY_TABLE, "create config_history table"),
        setup_step(SetupKind::Table, CRON_JOBS_TABLE, "create cron_jobs table"),
        setup_step(SetupKind::Table, TASK_LOGS_TABLE, "create task_logs table"),
        setup_step(SetupKind::Table, MEMORIES_TABLE, "create memories table"),
        setup_step(SetupKind::Table, MEMORY_TIERS_TABLE, "create memory_tiers table"),
        setup_step(SetupKind::Table, TASK_MEMORIES_TABLE, "create task_memories table"),
        setup_step(SetupKind::Batch, MEMORY_INDEXES, "create memory indexes"),
        setup_step(SetupKind::Table, AGENT_HISTORY_TABLE, "create agent_history table"),
        setup_step(SetupKind::Table, SOCKET_EVENTS_TABLE, "create socket_events table"),
        setup_step(SetupKind::Batch, HISTORY_INDEXES, "create history indexes"),
        migration_step(ADD_AGENT_STATUS_CAPABILITIES),
        migration_step(ADD_AGENT_STATUS_SKILLS),
        migration_step(ADD_AGENT_STATUS_PID),
        migration_step(ADD_PIPELINE_RUNS_RUN_ID),
        migration_step(ADD_PIPELINE_RUNS_AGENT_ID),
        migration_step(ADD_PIPELINE_RUNS_ERROR),
        migration_step(ADD_TASKS_RUN_ID),
        migration_step(ADD_TASKS_CURRENT_STAGE),
        migration_step(ADD_TASKS_SUMMARY),
        migration_step(ADD_TASKS_PARENT_ID),
        migration_step(INDEX_TASK_LOGS),
        migration_step(ADD_AGENT_STATUS_PREFERRED_MODEL),
        migration_step(ADD_PIPELINE_RUNS_INPUT_METADATA),
        migration_step(ADD_PIPELINE_RUNS_RETRY_COUNT),
        migration_step(ADD_AGENT_STATUS_SOUL_CONTENT),
        migration_step(ADD_AGENT_STATUS_BINARY_PATH),
        migration_step(ADD_AGENT_STATUS_VERSION),
        migration_step(ADD_AGENT_STATUS_FIRST_REGISTERED_AT),
        migration_step(ADD_AGENT_STATUS_REGISTRATION_COUNT),
        migration_step(ADD_AGENT_STATUS_CRASH_COUNT),
        migration_step(ADD_AGENT_STATUS_SOCKET_ID),
    ];
    assert(setup_views(r@) =~= setup());
    r
}

/// What follows from the outcome of a step of the setup.
#[derive(Clone, Copy, PartialEq, Eq, Structural)]
pub enum SetupOutcome {
    /// The step is done.
    Done,
    /// The column was there already.
    Present,
    /// The step failed in another way, and the setup goes on with a warning.
    Warning,
    /// The setup is given up, with the context of the step as the error.
    Stop,
}

/// What follows from the outcome of a step, given the error where it failed.
pub open spec fn setup_outcome(kind: SetupKind, error: Option<Seq<char>>) -> SetupOutcome {
    match error {
        None => SetupOutcome::Done,
        Some(text) => if kind != SetupKind::Migration {
            SetupOutcome::Stop
        } else if has_part(text, "duplicate column"@) {
            SetupOutcome::Present
        } else {
            SetupOutcome::Warning
        },
    }
}

/// What follows from the outcome of a step, given the error where it failed.
pub fn after_setup(step: &SetupStep, error: Option<&str>) -> (r: SetupOutcome)
    ensures
        r == setup_outcome(step@.kind, opt_str(error)),
{
    match error {
        None => SetupOutcome::Done,
        Some(text) => if step.kind != SetupKind::Migration {
            SetupOutcome::Stop
        } else if contains(text, "duplicate column") {
            SetupOutcome::Present
        } else {
            SetupOutcome::Warning
        },
    }
}

/// A step of the setup that fails stops it, unless it is a migration, and the
/// migrations come last.
pub proof fn law_only_migrations_may_fail(i: int, j: int, error: Seq<char>)
    requires
        0 <= i <= j < setup().len(),
    ensures
        setup_outcome(setup()[i].kind, Some(error)) == SetupOutcome::Stop
            <==> setup()[i].kind != SetupKind::Migration,
        setup()[i].kind == SetupKind::Migration ==> setup()[j].kind == SetupKind::Migration,
{
}

/// The mark of each parameter stands in the text of a query for tasks.
pub proof fn law_list_tasks_binds_every_parameter(
    limit: u32,
    status: Option<Seq<char>>,
    agent: Option<Seq<char>>,
    parent: Option<Seq<char>>,
)
    ensures
        binds_all(list_tasks_statement(limit, status, agent, parent)),
{
    reveal_strlit(" AND status = ?");
    reveal_strlit(" AND agent_id = ?");
    reveal_strlit(" AND parent_id = ?");
    reveal_strlit(" ORDER BY created_at DESC LIMIT ?");
    let a = task_query(" FROM tasks WHERE 1=1"@);
    let b = a.filter(" AND status = ?"@, ""@, status);
    let c = b.filter(" AND agent_id = ?"@, ""@, agent);
    let d = c.filter(" AND parent_id = ?"@, ""@, parent);
    lemma_filter_binds(a, " AND status = ?"@, ""@, status);
    lemma_filter_binds(b, " AND agent_id = ?"@, ""@, agent);
    lemma_filter_binds(c, " AND parent_id = ?"@, ""@, parent);
    lemma_bind_binds(d, " ORDER BY created_at DESC LIMIT ?"@, ""@, SqlCell::Integer(limit as i64));
}

/// The mark of each parameter stands in the text of an update of a task.
pub proof fn law_update_task_binds_every_parameter(
    now: Seq<char>,
    task_id: Seq<char>,
    status: Option<Seq<char>>,
    agent_id: Option<Seq<char>>,
    payload: Option<Seq<char>>,
    current_stage: Option<Seq<char>>,
    summary: Option<Seq<char>>,
)
    ensures
        binds_all(
            update_task_statement(now, task_id, status, agent_id, payload, current_stage, summary),
        ),
{
    reveal_strlit("UPDATE tasks SET updated_at = ?1");
    reveal_strlit(", status = ?");
    reveal_strlit(", agent_id = ?");
    reveal_strlit(", payload = ?");
    reveal_strlit(", current_stage = ?");
    reveal_strlit(", summary = ?");
    reveal_strlit(" WHERE id = ?");
    let a = StatementView::of("UPDATE tasks SET updated_at = ?1"@).text(now);
    assert(binds_all(a)) by {
        assert(mark(1) =~= seq!['?', '1']);
        assert(a.sql.subrange(30, 32) =~= mark(1));
        assert(occurs_at(a.sql, mark(1), 30));
    }
    let b = a.filter(", status = ?"@, ""@, status);
    let c = b.filter(", agent_id = ?"@, ""@, agent_id);
    let d = c.filter(", payload = ?"@, ""@, payload);
    let e = d.filter(", current_stage = ?"@, ""@, current_stage);
    let f = e.filter(", summary = ?"@, ""@, summary);
    lemma_filter_binds(a, ", status = ?"@, ""@, status);
    lemma_filter_binds(b, ", agent_id = ?"@, ""@, agent_id);
    lemma_filter_binds(c, ", payload = ?"@, ""@, payload);
    lemma_filter_binds(d, ", current_stage = ?"@, ""@, current_stage);
    lemma_filter_binds(e, ", summary = ?"@, ""@, summary);
    lemma_bind_binds(f, " WHERE id = ?"@, ""@, SqlCell::Text(task_id));
}

/// The mark of each parameter stands in the text of a query for pipeline runs.
pub proof fn law_list_pipeline_runs_binds_every_parameter(limit: u32, status: Option<Seq<char>>)
    ensures
        binds_all(list_pipeline_runs_statement(limit, status)),
{
    reveal_strlit(" AND status = ?");
    reveal_strlit(" ORDER BY created_at DESC LIMIT ?");
    let a = pipeline_query(" FROM pipeline_runs WHERE 1=1"@);
    let b = a.filter(" AND status = ?"@, ""@, status);
    lemma_filter_binds(a, " AND status = ?"@, ""@, status);
    lemma_bind_binds(b, " ORDER BY created_at DESC LIMIT ?"@, ""@, SqlCell::Integer(limit as i64));
}

} // verus!
