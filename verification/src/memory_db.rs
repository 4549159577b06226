//! Statements on the tables of memories, their tiers and their tasks, and the rows
//! they give back.

use crate::sql::{
    Column, SqlCell, SqlValue, Statement, StatementView, binds_all, cell_decimal, cell_integer,
    cell_text, cells, integer_or, lemma_bind_binds, lemma_filter_binds, mark, read_decimal_or,
    read_integer_or, read_text, read_text_or, row_fits,
};
use crate::stamp::{is_time, is_uuid, new_id, now_text};
use crate::text::{decimal, decimal_text, occurs_at, opt_str, split_words, text_or, texts, words};
use vstd::prelude::*;

verus! {

/// A memory. Its relevance score is kept as its decimal text.
#[derive(Clone, Debug)]
pub struct MemoryRow {
    pub id: String,
    pub scope: String,
    pub category: String,
    pub key: String,
    pub metadata: String,
    pub tags: String,
    pub agent_id: String,
    pub run_id: String,
    pub skill_id: String,
    pub relevance_score: String,
    pub access_count: i64,
    pub created_at: String,
    pub updated_at: String,
}

/// What a [`MemoryRow`] holds.
pub struct MemoryView {
    pub id: Seq<char>,
    pub scope: Seq<char>,
    pub category: Seq<char>,
    pub key: Seq<char>,
    pub metadata: Seq<char>,
    pub tags: Seq<char>,
    pub agent_id: Seq<char>,
    pub run_id: Seq<char>,
    pub skill_id: Seq<char>,
    pub relevance_score: Seq<char>,
    pub access_count: i64,
    pub created_at: Seq<char>,
    pub updated_at: Seq<char>,
}

impl View for MemoryRow {
    type V = MemoryView;

    open spec fn view(&self) -> MemoryView {
        MemoryView {
            id: self.id@,
            scope: self.scope@,
            category: self.category@,
            key: self.key@,
            metadata: self.metadata@,
            tags: self.tags@,
            agent_id: self.agent_id@,
            run_id: self.run_id@,
            skill_id: self.skill_id@,
            relevance_score: self.relevance_score@,
            access_count: self.access_count,
            created_at: self.created_at@,
            updated_at: self.updated_at@,
        }
    }
}

/// The columns of a row of memories.
pub open spec fn memory_shape() -> Seq<Column> {
    seq![
        Column::Text,
        Column::Text,
        Column::Text,
        Column::Text,
        Column::Text,
        Column::Text,
        Column::Text,
        Column::Text,
        Column::Text,
        Column::Decimal,
        Column::Integer,
        Column::Text,
        Column::Text,
    ]
}

/// The columns of a row of memories.
pub fn memory_columns() -> (r: Vec<Column>)
    ensures
        r@ == memory_shape(),
{
    let r = vec![
        Column::Text,
        Column::Text,
        Column::Text,
        Column::Text,
        Column::Text,
        Column::Text,
        Column::Text,
        Column::Text,
        Column::Text,
        Column::Decimal,
        Column::Integer,
        Column::Text,
        Column::Text,
    ];
    assert(r@ =~= memory_shape());
    r
}

/// The memory that a row holds, or the name of the first column that must hold
/// something and holds nothing.
pub open spec fn memory_of(row: Seq<SqlCell>) -> Result<MemoryView, Seq<char>> {
    if cell_text(row[0]) is None {
        Err("read id"@)
    } else if cell_text(row[1]) is None {
        Err("read scope"@)
    } else if cell_text(row[2]) is None {
        Err("read category"@)
    } else if cell_text(row[3]) is None {
        Err("read key"@)
    } else if cell_text(row[11]) is None {
        Err("read created_at"@)
    } else if cell_text(row[12]) is None {
        Err("read updated_at"@)
    } else {
        Ok(MemoryView {
            id: cell_text(row[0])->0,
            scope: cell_text(row[1])->0,
            category: cell_text(row[2])->0,
            key: cell_text(row[3])->0,
            metadata: text_or(cell_text(row[4]), "{}"@),
            tags: text_or(cell_text(row[5]), ""@),
            agent_id: text_or(cell_text(row[6]), ""@),
            run_id: text_or(cell_text(row[7]), ""@),
            skill_id: text_or(cell_text(row[8]), ""@),
            relevance_score: text_or(cell_decimal(row[9]), "0"@),
            access_count: integer_or(row[10], 0),
            created_at: cell_text(row[11])->0,
            updated_at: cell_text(row[12])->0,
        })
    }
}

/// Reads a memory from the cells of a row.
pub fn row_to_memory(row: &Vec<SqlValue>) -> (r: Result<MemoryRow, String>)
    requires
        row_fits(cells(row@), memory_shape()),
    ensures
        match r {
            Ok(item) => memory_of(cells(row@)) == Ok::<MemoryView, Seq<char>>(item@),
            Err(context) => memory_of(cells(row@)) == Err::<MemoryView, Seq<char>>(context@),
        },
{
    assert(row@.len() == 13);
    let id = match read_text(&row[0]) {
        Some(s) => s,
        None => return Err("read id".to_string()),
    };
    let scope = match read_text(&row[1]) {
        Some(s) => s,
        None => return Err("read scope".to_string()),
    };
    let category = match read_text(&row[2]) {
        Some(s) => s,
        None => return Err("read category".to_string()),
    };
    let key = match read_text(&row[3]) {
        Some(s) => s,
        None => return Err("read key".to_string()),
    };
    let created_at = match read_text(&row[11]) {
        Some(s) => s,
        None => return Err("read created_at".to_string()),
    };
    let updated_at = match read_text(&row[12]) {
        Some(s) => s,
        None => return Err("read updated_at".to_string()),
    };
    Ok(MemoryRow {
        id,
        scope,
        category,
        key,
        metadata: read_text_or(&row[4], "{}"),
        tags: read_text_or(&row[5], ""),
        agent_id: read_text_or(&row[6], ""),
        run_id: read_text_or(&row[7], ""),
        skill_id: read_text_or(&row[8], ""),
        relevance_score: read_decimal_or(&row[9], "0"),
        access_count: read_integer_or(&row[10], 0),
        created_at,
        updated_at,
    })
}

/// A tier of a memory: `l0` is the raw data, `l1` the processed data, `l2` a
/// compressed summary.
#[derive(Clone, Debug)]
pub struct MemoryTierRow {
    pub id: String,
    pub memory_id: String,
    pub tier: String,
    pub content: String,
    pub created_at: String,
    pub updated_at: String,
}

/// What a [`MemoryTierRow`] holds.
pub struct MemoryTierView {
    pub id: Seq<char>,
    pub memory_id: Seq<char>,
    pub tier: Seq<char>,
    pub content: Seq<char>,
    pub created_at: Seq<char>,
    pub updated_at: Seq<char>,
}

impl View for MemoryTierRow {
    type V = MemoryTierView;

    open spec fn view(&self) -> MemoryTierView {
        MemoryTierView {
            id: self.id@,
            memory_id: self.memory_id@,
            tier: self.tier@,
            content: self.content@,
            created_at: self.created_at@,
            updated_at: self.updated_at@,
        }
    }
}

/// The columns of a row of tiers.
pub open spec fn tier_shape() -> Seq<Column> {
    seq![
        Column::Text,
        Column::Text,
        Column::Text,
        Column::Text,
        Column::Text,
        Column::Text,
    ]
}

/// The columns of a row of tiers.
pub fn tier_columns() -> (r: Vec<Column>)
    ensures
        r@ == tier_shape(),
{
    let r = vec![
        Column::Text,
        Column::Text,
        Column::Text,
        Column::Text,
        Column::Text,
        Column::Text,
    ];
    assert(r@ =~= tier_shape());
    r
}

/// The tier that a row holds, or the name of the first column that must hold
/// something and holds nothing.
pub open spec fn tier_of(row: Seq<SqlCell>) -> Result<MemoryTierView, Seq<char>> {
    if cell_text(row[0]) is None {
        Err("read id"@)
    } else if cell_text(row[1]) is None {
        Err("read memory_id"@)
    } else if cell_text(row[2]) is None {
        Err("read tier"@)
    } else if cell_text(row[4]) is None {
        Err("read created_at"@)
    } else if cell_text(row[5]) is None {
        Err("read updated_at"@)
    } else {
        Ok(MemoryTierView {
            id: cell_text(row[0])->0,
            memory_id: cell_text(row[1])->0,
            tier: cell_text(row[2])->0,
            content: text_or(cell_text(row[3]), ""@),
            created_at: cell_text(row[4])->0,
            updated_at: cell_text(row[5])->0,
        })
    }
}

/// Reads a tier from the cells of a row.
pub fn row_to_tier(row: &Vec<SqlValue>) -> (r: Result<MemoryTierRow, String>)
    requires
        row_fits(cells(row@), tier_shape()),
    ensures
        match r {
            Ok(item) => tier_of(cells(row@)) == Ok::<MemoryTierView, Seq<char>>(item@),
            Err(context) => tier_of(cells(row@)) == Err::<MemoryTierView, Seq<char>>(context@),
        },
{
    assert(row@.len() == 6);
    let id = match read_text(&row[0]) {
        Some(s) => s,
        None => return Err("read id".to_string()),
    };
    let memory_id = match read_text(&row[1]) {
        Some(s) => s,
        None => return Err("read memory_id".to_string()),
    };
    let tier = match read_text(&row[2]) {
        Some(s) => s,
        None => return Err("read tier".to_string()),
    };
    let created_at = match read_text(&row[4]) {
        Some(s) => s,
        None => return Err("read created_at".to_string()),
    };
    let updated_at = match read_text(&row[5]) {
        Some(s) => s,
        None => return Err("read updated_at".to_string()),
    };
    Ok(MemoryTierRow {
        id,
        memory_id,
        tier,
        content: read_text_or(&row[3], ""),
        created_at,
        updated_at,
    })
}

/// The binding of a memory to a task.
#[derive(Clone, Debug)]
pub struct TaskMemoryRow {
    pub id: String,
    pub task_id: String,
    pub memory_id: String,
    pub created_at: String,
}

/// What a [`TaskMemoryRow`] holds.
pub struct TaskMemoryView {
    pub id: Seq<char>,
    pub task_id: Seq<char>,
    pub memory_id: Seq<char>,
    pub created_at: Seq<char>,
}

impl View for TaskMemoryRow {
    type V = TaskMemoryView;

    open spec fn view(&self) -> TaskMemoryView {
        TaskMemoryView {
            id: self.id@,
            task_id: self.task_id@,
            memory_id: self.memory_id@,
            created_at: self.created_at@,
        }
    }
}

/// The columns of a row of the memories of tasks.
pub open spec fn task_memory_shape() -> Seq<Column> {
    seq![
        Column::Text,
        Column::Text,
        Column::Text,
        Column::Text,
    ]
}

/// The columns of a row of the memories of tasks.
pub fn task_memory_columns() -> (r: Vec<Column>)
    ensures
        r@ == task_memory_shape(),
{
    let r = vec![
        Column::Text,
        Column::Text,
        Column::Text,
        Column::Text,
    ];
    assert(r@ =~= task_memory_shape());
    r
}

/// The binding that a row holds, or the name of the first column that must hold
/// something and holds nothing.
pub open spec fn task_memory_of(row: Seq<SqlCell>) -> Result<TaskMemoryView, Seq<char>> {
    if cell_text(row[0]) is None {
        Err("read id"@)
    } else if cell_text(row[1]) is None {
        Err("read task_id"@)
    } else if cell_text(row[2]) is None {
        Err("read memory_id"@)
    } else if cell_text(row[3]) is None {
        Err("read created_at"@)
    } else {
        Ok(TaskMemoryView {
            id: cell_text(row[0])->0,
            task_id: cell_text(row[1])->0,
            memory_id: cell_text(row[2])->0,
            created_at: cell_text(row[3])->0,
        })
    }
}

/// Reads a binding from the cells of a row.
pub fn row_to_task_memory(row: &Vec<SqlValue>) -> (r: Result<TaskMemoryRow, String>)
    requires
        row_fits(cells(row@), task_memory_shape()),
    ensures
        match r {
            Ok(item) => task_memory_of(cells(row@)) == Ok::<TaskMemoryView, Seq<char>>(item@),
            Err(context) => task_memory_of(cells(row@)) == Err::<TaskMemoryView, Seq<char>>(context@),
        },
{
    assert(row@.len() == 4);
    let id = match read_text(&row[0]) {
        Some(s) => s,
        None => return Err("read id".to_string()),
    };
    let task_id = match read_text(&row[1]) {
        Some(s) => s,
        None => return Err("read task_id".to_string()),
    };
    let memory_id = match read_text(&row[2]) {
        Some(s) => s,
        None => return Err("read memory_id".to_string()),
    };
    let created_at = match read_text(&row[3]) {
        Some(s) => s,
        None => return Err("read created_at".to_string()),
    };
    Ok(TaskMemoryRow {
        id,
        task_id,
        memory_id,
        created_at,
    })
}

/// How many memories a scope has.
pub struct ScopeCount {
    pub scope: String,
    pub count: i64,
}

/// What a [`ScopeCount`] holds.
pub struct ScopeCountView {
    pub scope: Seq<char>,
    pub count: i64,
}

impl View for ScopeCount {
    type V = ScopeCountView;

    open spec fn view(&self) -> ScopeCountView {
        ScopeCountView {
            scope: self.scope@,
            count: self.count,
        }
    }
}

/// The columns of a row of the counts by scope.
pub open spec fn scope_count_shape() -> Seq<Column> {
    seq![
        Column::Text,
        Column::Integer,
    ]
}

/// The columns of a row of the counts by scope.
pub fn scope_count_columns() -> (r: Vec<Column>)
    ensures
        r@ == scope_count_shape(),
{
    let r = vec![
        Column::Text,
        Column::Integer,
    ];
    assert(r@ =~= scope_count_shape());
    r
}

/// The count that a row holds, or the name of the first column that must hold
/// something and holds nothing.
pub open spec fn scope_count_of(row: Seq<SqlCell>) -> Result<ScopeCountView, Seq<char>> {
    if cell_text(row[0]) is None {
        Err("read scope"@)
    } else if cell_integer(row[1]) is None {
        Err("read count"@)
    } else {
        Ok(ScopeCountView {
            scope: cell_text(row[0])->0,
            count: cell_integer(row[1])->0,
        })
    }
}

/// Reads a count from the cells of a row.
pub fn row_to_scope_count(row: &Vec<SqlValue>) -> (r: Result<ScopeCount, String>)
    requires
        row_fits(cells(row@), scope_count_shape()),
    ensures
        match r {
            Ok(item) => scope_count_of(cells(row@)) == Ok::<ScopeCountView, Seq<char>>(item@),
            Err(context) => scope_count_of(cells(row@)) == Err::<ScopeCountView, Seq<char>>(context@),
        },
{
    assert(row@.len() == 2);
    let scope = match read_text(&row[0]) {
        Some(s) => s,
        None => return Err("read scope".to_string()),
    };
    let count: i64 = match &row[1] {
        SqlValue::Integer(n) => *n,
        _ => return Err("read count".to_string()),
    };
    Ok(ScopeCount {
        scope,
        count,
    })
}

// Memories.

/// Statement of [`create_memory`].
pub const CREATE_MEMORY: &'static str =
    "INSERT INTO memories (id, scope, category, key, metadata, tags, agent_id, run_id, skill_id, relevance_score, access_count, created_at, updated_at)
         VALUES (?1, ?2, ?3, ?4, ?5, ?6, ?7, ?8, ?9, ?10, 0, ?11, ?11)";

/// The statement that stores a memory.
pub open spec fn create_memory_statement(row: MemoryView) -> StatementView {
    StatementView::of(CREATE_MEMORY@).text(row.id).text(row.scope).text(row.category).text(
        row.key,
    ).text(row.metadata).text(row.tags).text(row.agent_id).text(row.run_id).text(
        row.skill_id,
    ).decimal(row.relevance_score).text(row.created_at)
}

/// Whether a memory is a new one with the given contents.
pub open spec fn is_new_memory(
    row: MemoryView,
    scope: Seq<char>,
    category: Seq<char>,
    key: Seq<char>,
    metadata: Seq<char>,
    tags: Seq<char>,
    agent_id: Seq<char>,
    run_id: Seq<char>,
    skill_id: Seq<char>,
    relevance_score: Seq<char>,
) -> bool {
    &&& is_uuid(row.id)
    &&& row.scope == scope
    &&& row.category == category
    &&& row.key == key
    &&& row.metadata == metadata
    &&& row.tags == tags
    &&& row.agent_id == agent_id
    &&& row.run_id == run_id
    &&& row.skill_id == skill_id
    &&& row.relevance_score == relevance_score
    &&& row.access_count == 0
    &&& is_time(row.created_at)
    &&& row.updated_at == row.created_at
}

/// A new memory, and the statement that stores it.
pub fn create_memory(
    scope: &str,
    category: &str,
    key: &str,
    metadata: &str,
    tags: &str,
    agent_id: &str,
    run_id: &str,
    skill_id: &str,
    relevance_score: &str,
) -> (r: (Statement, MemoryRow))
    ensures
        is_new_memory(
            r.1@,
            scope@,
            category@,
            key@,
            metadata@,
            tags@,
            agent_id@,
            run_id@,
            skill_id@,
            relevance_score@,
        ),
        r.0@ == create_memory_statement(r.1@),
{
    let now = now_text();
    let row = MemoryRow {
        id: new_id(),
        scope: scope.to_string(),
        category: category.to_string(),
        key: key.to_string(),
        metadata: metadata.to_string(),
        tags: tags.to_string(),
        agent_id: agent_id.to_string(),
        run_id: run_id.to_string(),
        skill_id: skill_id.to_string(),
        relevance_score: relevance_score.to_string(),
        access_count: 0,
        created_at: now.clone(),
        updated_at: now,
    };
    let statement = Statement::of(CREATE_MEMORY).text(row.id.as_str()).text(
        row.scope.as_str(),
    ).text(row.category.as_str()).text(row.key.as_str()).text(row.metadata.as_str()).text(
        row.tags.as_str(),
    ).text(row.agent_id.as_str()).text(row.run_id.as_str()).text(row.skill_id.as_str()).decimal(
        row.relevance_score.as_str(),
    ).text(row.created_at.as_str());
    (statement, row)
}

/// Statement of [`get_memory`].
pub const GET_MEMORY: &'static str =
    "SELECT id, scope, category, key, metadata, tags, agent_id, run_id, skill_id, relevance_score, access_count, created_at, updated_at
             FROM memories WHERE id = ?1";

/// The statement of [`get_memory`].
pub open spec fn get_memory_statement(
    memory_id: Seq<char>,
) -> StatementView {
    StatementView::of(GET_MEMORY@).text(memory_id)
}

/// Asks for a memory by its id.
pub fn get_memory(memory_id: &str) -> (r: Statement)
    ensures
        r@ == get_memory_statement(memory_id@),
{
    Statement::of(GET_MEMORY).text(memory_id)
}

/// Statement of [`get_memory_by_key`].
pub const GET_MEMORY_BY_KEY: &'static str =
    "SELECT id, scope, category, key, metadata, tags, agent_id, run_id, skill_id, relevance_score, access_count, created_at, updated_at
             FROM memories WHERE key = ?1";

/// The statement of [`get_memory_by_key`].
pub open spec fn get_memory_by_key_statement(
    key: Seq<char>,
) -> StatementView {
    StatementView::of(GET_MEMORY_BY_KEY@).text(key)
}

/// Asks for the memory with a key.
pub fn get_memory_by_key(key: &str) -> (r: Statement)
    ensures
        r@ == get_memory_by_key_statement(key@),
{
    Statement::of(GET_MEMORY_BY_KEY).text(key)
}

/// Beginning of the statement of [`list_memories`].
pub const LIST_MEMORIES: &'static str =
    "SELECT id, scope, category, key, metadata, tags, agent_id, run_id, skill_id, relevance_score, access_count, created_at, updated_at
         FROM memories WHERE 1=1";

/// The statement of [`list_memories`].
pub open spec fn list_memories_statement(
    limit: u32,
    scope: Option<Seq<char>>,
    category: Option<Seq<char>>,
    agent_id: Option<Seq<char>>,
    run_id: Option<Seq<char>>,
    skill_id: Option<Seq<char>>,
    tag: Option<Seq<char>>,
) -> StatementView {
    StatementView::of(LIST_MEMORIES@).filter(" AND scope = ?"@, ""@, scope).filter(
        " AND category = ?"@,
        ""@,
        category,
    ).filter(" AND agent_id = ?"@, ""@, agent_id).filter(" AND run_id = ?"@, ""@, run_id).filter(
        " AND skill_id = ?"@,
        ""@,
        skill_id,
    ).filter(" AND tags LIKE '%' || ?"@, " || '%'"@, tag).bind(
        " ORDER BY relevance_score DESC, updated_at DESC LIMIT ?"@,
        ""@,
        SqlCell::Integer(limit as i64),
    )
}

/// Lists memories, the most relevant first, by scope, category, agent, run, skill
/// and tag where these are given.
pub fn list_memories(
    limit: u32,
    scope: Option<&str>,
    category: Option<&str>,
    agent_id: Option<&str>,
    run_id: Option<&str>,
    skill_id: Option<&str>,
    tag: Option<&str>,
) -> (r: Statement)
    ensures
        r@ == list_memories_statement(
            limit,
            opt_str(scope),
            opt_str(category),
            opt_str(agent_id),
            opt_str(run_id),
            opt_str(skill_id),
            opt_str(tag),
        ),
{
    Statement::of(LIST_MEMORIES).filter(" AND scope = ?", "", scope).filter(
        " AND category = ?",
        "",
        category,
    ).filter(" AND agent_id = ?", "", agent_id).filter(" AND run_id = ?", "", run_id).filter(
        " AND skill_id = ?",
        "",
        skill_id,
    ).filter(" AND tags LIKE '%' || ?", " || '%'", tag).bind(
        " ORDER BY relevance_score DESC, updated_at DESC LIMIT ?",
        "",
        SqlValue::Integer(limit as i64),
    )
}

/// The statement with a column set to a real number where one is given for it.
pub open spec fn set_decimal(s: StatementView, before: Seq<char>, item: Option<Seq<char>>) -> StatementView {
    match item {
        Some(text) => s.bind(before, ""@, SqlCell::Real(text)),
        None => s,
    }
}

/// The statement of [`update_memory`].
pub open spec fn update_memory_statement(
    now: Seq<char>,
    memory_id: Seq<char>,
    metadata: Option<Seq<char>>,
    tags: Option<Seq<char>>,
    relevance_score: Option<Seq<char>>,
) -> StatementView {
    set_decimal(
        StatementView::of("UPDATE memories SET updated_at = ?1"@).text(now).filter(
            ", metadata = ?"@,
            ""@,
            metadata,
        ).filter(", tags = ?"@, ""@, tags),
        ", relevance_score = ?"@,
        relevance_score,
    ).bind(" WHERE id = ?"@, ""@, SqlCell::Text(memory_id))
}

/// Sets those columns of a memory for which something is given, and the time of
/// the change.
pub fn update_memory(
    memory_id: &str,
    metadata: Option<&str>,
    tags: Option<&str>,
    relevance_score: Option<&str>,
) -> (r: Statement)
    ensures
        exists|now: Seq<char>| #[trigger]
            is_time(now) && r@ == update_memory_statement(
                now,
                memory_id@,
                opt_str(metadata),
                opt_str(tags),
                opt_str(relevance_score),
            ),
{
    let now = now_text();
    let head = Statement::of("UPDATE memories SET updated_at = ?1").text(now.as_str()).filter(
        ", metadata = ?",
        "",
        metadata,
    ).filter(", tags = ?", "", tags);
    let scored = match relevance_score {
        Some(score) => head.bind(", relevance_score = ?", "", SqlValue::Real(score.to_string())),
        None => head,
    };
    let r = scored.bind(" WHERE id = ?", "", SqlValue::Text(memory_id.to_string()));
    assert(is_time(now@));
    r
}

/// Statement of [`delete_memory`] for the tiers.
pub const DELETE_MEMORY_TIERS: &'static str = "DELETE FROM memory_tiers WHERE memory_id = ?1";

/// Statement of [`delete_memory`] for the bindings to tasks.
pub const DELETE_MEMORY_TASKS: &'static str = "DELETE FROM task_memories WHERE memory_id = ?1";

/// Statement of [`delete_memory`] for the memory itself.
pub const DELETE_MEMORY: &'static str = "DELETE FROM memories WHERE id = ?1";

/// Deletes a memory, after its tiers and its bindings to tasks.
pub fn delete_memory(memory_id: &str) -> (r: (Statement, Statement, Statement))
    ensures
        r.0@ == StatementView::of(DELETE_MEMORY_TIERS@).text(memory_id@),
        r.1@ == StatementView::of(DELETE_MEMORY_TASKS@).text(memory_id@),
        r.2@ == StatementView::of(DELETE_MEMORY@).text(memory_id@),
{
    (
        Statement::of(DELETE_MEMORY_TIERS).text(memory_id),
        Statement::of(DELETE_MEMORY_TASKS).text(memory_id),
        Statement::of(DELETE_MEMORY).text(memory_id),
    )
}

/// Statement of [`touch_memory`].
pub const TOUCH_MEMORY: &'static str =
    "UPDATE memories SET access_count = access_count + 1, updated_at = ?1 WHERE id = ?2";

/// The statement of [`touch_memory`].
pub open spec fn touch_memory_statement(
    now: Seq<char>,
    memory_id: Seq<char>,
) -> StatementView {
    StatementView::of(TOUCH_MEMORY@).text(now).text(memory_id)
}

/// Counts an access to a memory.
pub fn touch_memory(memory_id: &str) -> (r: Statement)
    ensures
        exists|now: Seq<char>| #[trigger] is_time(now) && r@ == touch_memory_statement(now, memory_id@),
{
    let now = now_text();
    let r = Statement::of(TOUCH_MEMORY).text(now.as_str()).text(memory_id);
    assert(is_time(now@) && r@ == touch_memory_statement(now@, memory_id@));
    r
}

/// Statement of [`count_memories_by_scope`].
pub const COUNT_MEMORIES_BY_SCOPE: &'static str =
    "SELECT scope, COUNT(*) as cnt FROM memories GROUP BY scope ORDER BY cnt DESC";

/// The statement of [`count_memories_by_scope`].
pub open spec fn count_memories_by_scope_statement() -> StatementView {
    StatementView::of(COUNT_MEMORIES_BY_SCOPE@)
}

/// Counts the memories of each scope, the largest scope first.
pub fn count_memories_by_scope() -> (r: Statement)
    ensures
        r@ == count_memories_by_scope_statement(),
{
    Statement::of(COUNT_MEMORIES_BY_SCOPE)
}

// Tiers.

/// Statement of [`find_tier`].
pub const FIND_TIER: &'static str =
    "SELECT id FROM memory_tiers WHERE memory_id = ?1 AND tier = ?2";

/// The statement of [`find_tier`].
pub open spec fn find_tier_statement(
    memory_id: Seq<char>,
    tier: Seq<char>,
) -> StatementView {
    StatementView::of(FIND_TIER@).text(memory_id).text(tier)
}

/// Asks for the id of a tier of a memory.
pub fn find_tier(memory_id: &str, tier: &str) -> (r: Statement)
    ensures
        r@ == find_tier_statement(memory_id@, tier@),
{
    Statement::of(FIND_TIER).text(memory_id).text(tier)
}

/// Statement of [`upsert_tier`] where the tier is there.
pub const UPDATE_TIER: &'static str =
    "UPDATE memory_tiers SET content = ?1, updated_at = ?2 WHERE id = ?3";

/// Statement of [`upsert_tier`] where the tier is not there.
pub const INSERT_TIER: &'static str =
    "INSERT INTO memory_tiers (id, memory_id, tier, content, created_at, updated_at)
             VALUES (?1, ?2, ?3, ?4, ?5, ?5)";

/// The statement that stores a tier.
pub open spec fn upsert_tier_statement(row: MemoryTierView, exists: bool) -> StatementView {
    if exists {
        StatementView::of(UPDATE_TIER@).text(row.content).text(row.updated_at).text(row.id)
    } else {
        StatementView::of(INSERT_TIER@).text(row.id).text(row.memory_id).text(row.tier).text(
            row.content,
        ).text(row.updated_at)
    }
}

/// A tier with its new content, and the statement that stores it: into the tier
/// with the given id where there is one, else as a new tier.
pub fn upsert_tier(existing_id: Option<&str>, memory_id: &str, tier: &str, content: &str) -> (r: (
    Statement,
    MemoryTierRow,
))
    ensures
        match existing_id {
            Some(id) => r.1@.id == id@,
            None => is_uuid(r.1@.id),
        },
        r.1@.memory_id == memory_id@,
        r.1@.tier == tier@,
        r.1@.content == content@,
        is_time(r.1@.created_at),
        r.1@.updated_at == r.1@.created_at,
        r.0@ == upsert_tier_statement(r.1@, existing_id is Some),
{
    let now = now_text();
    let id = match existing_id {
        Some(id) => id.to_string(),
        None => new_id(),
    };
    let statement = match existing_id {
        Some(_) => Statement::of(UPDATE_TIER).text(content).text(now.as_str()).text(id.as_str()),
        None => Statement::of(INSERT_TIER).text(id.as_str()).text(memory_id).text(tier).text(
            content,
        ).text(now.as_str()),
    };
    let row = MemoryTierRow {
        id,
        memory_id: memory_id.to_string(),
        tier: tier.to_string(),
        content: content.to_string(),
        created_at: now.clone(),
        updated_at: now,
    };
    (statement, row)
}

/// Statement of [`get_tiers`].
pub const GET_TIERS: &'static str =
    "SELECT id, memory_id, tier, content, created_at, updated_at
             FROM memory_tiers WHERE memory_id = ?1 ORDER BY tier";

/// The statement of [`get_tiers`].
pub open spec fn get_tiers_statement(
    memory_id: Seq<char>,
) -> StatementView {
    StatementView::of(GET_TIERS@).text(memory_id)
}

/// Lists the tiers of a memory by their names.
pub fn get_tiers(memory_id: &str) -> (r: Statement)
    ensures
        r@ == get_tiers_statement(memory_id@),
{
    Statement::of(GET_TIERS).text(memory_id)
}

/// Statement of [`get_tier`].
pub const GET_TIER: &'static str =
    "SELECT id, memory_id, tier, content, created_at, updated_at
             FROM memory_tiers WHERE memory_id = ?1 AND tier = ?2";

/// The statement of [`get_tier`].
pub open spec fn get_tier_statement(
    memory_id: Seq<char>,
    tier: Seq<char>,
) -> StatementView {
    StatementView::of(GET_TIER@).text(memory_id).text(tier)
}

/// Asks for a tier of a memory.
pub fn get_tier(memory_id: &str, tier: &str) -> (r: Statement)
    ensures
        r@ == get_tier_statement(memory_id@, tier@),
{
    Statement::of(GET_TIER).text(memory_id).text(tier)
}

/// Statement of [`delete_tier`].
pub const DELETE_TIER: &'static str =
    "DELETE FROM memory_tiers WHERE memory_id = ?1 AND tier = ?2";

/// The statement of [`delete_tier`].
pub open spec fn delete_tier_statement(
    memory_id: Seq<char>,
    tier: Seq<char>,
) -> StatementView {
    StatementView::of(DELETE_TIER@).text(memory_id).text(tier)
}

/// Deletes a tier of a memory.
pub fn delete_tier(memory_id: &str, tier: &str) -> (r: Statement)
    ensures
        r@ == delete_tier_statement(memory_id@, tier@),
{
    Statement::of(DELETE_TIER).text(memory_id).text(tier)
}

// Memories of tasks.

/// Statement of [`bind_task_memory`].
pub const BIND_TASK_MEMORY: &'static str =
    "INSERT OR IGNORE INTO task_memories (id, task_id, memory_id, created_at)
         VALUES (?1, ?2, ?3, ?4)";

/// The statement that stores a binding; one that is there already stays.
pub open spec fn bind_task_memory_statement(row: TaskMemoryView) -> StatementView {
    StatementView::of(BIND_TASK_MEMORY@).text(row.id).text(row.task_id).text(row.memory_id).text(
        row.created_at,
    )
}

/// A new binding of a memory to a task, and the statement that stores it.
pub fn bind_task_memory(task_id: &str, memory_id: &str) -> (r: (Statement, TaskMemoryRow))
    ensures
        is_uuid(r.1@.id),
        r.1@.task_id == task_id@,
        r.1@.memory_id == memory_id@,
        is_time(r.1@.created_at),
        r.0@ == bind_task_memory_statement(r.1@),
{
    let row = TaskMemoryRow {
        id: new_id(),
        task_id: task_id.to_string(),
        memory_id: memory_id.to_string(),
        created_at: now_text(),
    };
    let statement = Statement::of(BIND_TASK_MEMORY).text(row.id.as_str()).text(task_id).text(
        memory_id,
    ).text(row.created_at.as_str());
    (statement, row)
}

/// Statement of [`unbind_task_memory`].
pub const UNBIND_TASK_MEMORY: &'static str =
    "DELETE FROM task_memories WHERE task_id = ?1 AND memory_id = ?2";

/// The statement of [`unbind_task_memory`].
pub open spec fn unbind_task_memory_statement(
    task_id: Seq<char>,
    memory_id: Seq<char>,
) -> StatementView {
    StatementView::of(UNBIND_TASK_MEMORY@).text(task_id).text(memory_id)
}

/// Takes a memory away from a task.
pub fn unbind_task_memory(task_id: &str, memory_id: &str) -> (r: Statement)
    ensures
        r@ == unbind_task_memory_statement(task_id@, memory_id@),
{
    Statement::of(UNBIND_TASK_MEMORY).text(task_id).text(memory_id)
}

/// Statement of [`list_memories_for_task`].
pub const LIST_MEMORIES_FOR_TASK: &'static str =
    "SELECT m.id, m.scope, m.category, m.key, m.metadata, m.tags, m.agent_id, m.run_id, m.skill_id, m.relevance_score, m.access_count, m.created_at, m.updated_at
             FROM memories m
             INNER JOIN task_memories tm ON m.id = tm.memory_id
             WHERE tm.task_id = ?1
             ORDER BY m.relevance_score DESC, m.updated_at DESC
             LIMIT ?2";

/// The statement of [`list_memories_for_task`].
pub open spec fn list_memories_for_task_statement(
    task_id: Seq<char>,
    limit: u32,
) -> StatementView {
    StatementView::of(LIST_MEMORIES_FOR_TASK@).text(task_id).integer(limit as i64)
}

/// Lists the memories of a task, the most relevant first.
pub fn list_memories_for_task(task_id: &str, limit: u32) -> (r: Statement)
    ensures
        r@ == list_memories_for_task_statement(task_id@, limit),
{
    Statement::of(LIST_MEMORIES_FOR_TASK).text(task_id).integer(limit as i64)
}

/// Statement of [`list_tasks_for_memory`].
pub const LIST_TASKS_FOR_MEMORY: &'static str =
    "SELECT task_id FROM task_memories WHERE memory_id = ?1 ORDER BY created_at DESC";

/// The statement of [`list_tasks_for_memory`].
pub open spec fn list_tasks_for_memory_statement(
    memory_id: Seq<char>,
) -> StatementView {
    StatementView::of(LIST_TASKS_FOR_MEMORY@).text(memory_id)
}

/// Lists the ids of the tasks of a memory, the newest binding first.
pub fn list_tasks_for_memory(memory_id: &str) -> (r: Statement)
    ensures
        r@ == list_tasks_for_memory_statement(memory_id@),
{
    Statement::of(LIST_TASKS_FOR_MEMORY).text(memory_id)
}

// Search.

/// Beginning of the statement of [`search_memories`].
pub const SEARCH_MEMORIES: &'static str =
    "SELECT DISTINCT m.id, m.scope, m.category, m.key, m.metadata, m.tags, m.agent_id, m.run_id, m.skill_id, m.relevance_score, m.access_count, m.created_at, m.updated_at
         FROM memories m
         INNER JOIN memory_tiers mt ON m.id = mt.memory_id
         WHERE 1=1";

/// The condition that a word stands in the content of a tier or in the key of the
/// memory, where `n` is the mark of the word.
pub open spec fn word_condition(n: nat) -> Seq<char> {
    " AND (mt.content LIKE '%' || ?"@ + decimal(n) + " || '%' OR m.key LIKE '%' || ?"@ + decimal(n)
        + " || '%')"@
}

/// The statement with the condition on one more word.
pub open spec fn with_word(s: StatementView, word: Seq<char>) -> StatementView {
    s.param(SqlCell::Text(word)).add(word_condition(s.params.len() + 1))
}

/// The statement with the conditions on a list of words.
pub open spec fn with_words(s: StatementView, items: Seq<Seq<char>>) -> StatementView
    decreases items.len(),
{
    if items.len() == 0 {
        s
    } else {
        with_word(with_words(s, items.drop_last()), items.last())
    }
}

/// The statement of [`search_memories`].
pub open spec fn search_memories_statement(
    query: Seq<char>,
    limit: u32,
    scope: Option<Seq<char>>,
    category: Option<Seq<char>>,
    agent_id: Option<Seq<char>>,
    tier: Option<Seq<char>>,
) -> StatementView {
    if words(query).len() == 0 {
        list_memories_statement(limit, scope, category, agent_id, None, None, None)
    } else {
        with_words(
            StatementView::of(SEARCH_MEMORIES@).filter(" AND mt.tier = ?"@, ""@, tier),
            words(query),
        ).filter(" AND m.scope = ?"@, ""@, scope).filter(" AND m.category = ?"@, ""@, category).filter(
            " AND m.agent_id = ?"@,
            ""@,
            agent_id,
        ).bind(
            " ORDER BY m.relevance_score DESC, m.access_count DESC, m.updated_at DESC LIMIT ?"@,
            ""@,
            SqlCell::Integer(limit as i64),
        )
    }
}

/// Adds the condition on one more word.
fn add_word(s: Statement, word: &str) -> (r: Statement)
    ensures
        r@ == with_word(s@, word@),
{
    let next = s.text(word);
    assert(next@.params.len() == next.params@.len());
    let n = decimal_text(next.params.len() as u64);
    let condition = crate::text::concat5(
        " AND (mt.content LIKE '%' || ?",
        n.as_str(),
        " || '%' OR m.key LIKE '%' || ?",
        n.as_str(),
        " || '%')",
    );
    next.add(condition.as_str())
}

/// Looks for memories by the words of a query, each of which must stand in the
/// content of a tier or in the key, and by scope, category, agent and tier where
/// these are given. Without words this lists memories, whatever the tier.
pub fn search_memories(
    query: &str,
    limit: u32,
    scope: Option<&str>,
    category: Option<&str>,
    agent_id: Option<&str>,
    tier: Option<&str>,
) -> (r: Statement)
    ensures
        r@ == search_memories_statement(
            query@,
            limit,
            opt_str(scope),
            opt_str(category),
            opt_str(agent_id),
            opt_str(tier),
        ),
{
    let items = split_words(query);
    assert(texts(items@).len() == items@.len());
    if items.len() == 0 {
        return list_memories(limit, scope, category, agent_id, None, None, None);
    }
    let mut s = Statement::of(SEARCH_MEMORIES).filter(" AND mt.tier = ?", "", tier);
    let ghost start = s@;
    let mut i: usize = 0;
    while i < items.len()
        invariant
            i <= items@.len(),
            s@ == with_words(start, texts(items@).take(i as int)),
        decreases items@.len() - i,
    {
        proof {
            assert(texts(items@).take(i + 1).drop_last() =~= texts(items@).take(i as int));
            assert(texts(items@).take(i + 1).last() == items@[i as int]@);
        }
        s = add_word(s, items[i].as_str());
        i += 1;
    }
    assert(texts(items@).take(i as int) =~= texts(items@));
    s.filter(" AND m.scope = ?", "", scope).filter(" AND m.category = ?", "", category).filter(
        " AND m.agent_id = ?",
        "",
        agent_id,
    ).bind(
        " ORDER BY m.relevance_score DESC, m.access_count DESC, m.updated_at DESC LIMIT ?",
        "",
        SqlValue::Integer(limit as i64),
    )
}

/// The row of a memory that was just stored, in the order in which it is read: it was
/// never asked for, and both times are that of its creation.
pub open spec fn stored_memory(params: Seq<SqlCell>) -> Seq<SqlCell> {
    params.take(10).push(SqlCell::Integer(0)).push(params[10]).push(params[10])
}

/// A new memory that was stored is read back.
pub proof fn law_memory_reads_back(row: MemoryView)
    requires
        row.access_count == 0,
        row.updated_at == row.created_at,
    ensures
        row_fits(stored_memory(create_memory_statement(row).params), memory_shape()),
        memory_of(stored_memory(create_memory_statement(row).params)) == Ok::<
            MemoryView,
            Seq<char>,
        >(row),
{
    let params = create_memory_statement(row).params;
    assert(params.len() == 11);
    assert(params[0] == SqlCell::Text(row.id));
}

/// The row of a tier that was just stored as a new one, in the order in which it is
/// read: both times are that of its creation.
pub open spec fn stored_tier(params: Seq<SqlCell>) -> Seq<SqlCell> {
    params.push(params[4])
}

/// A new tier that was stored is read back.
pub proof fn law_tier_reads_back(row: MemoryTierView)
    requires
        row.updated_at == row.created_at,
    ensures
        row_fits(stored_tier(upsert_tier_statement(row, false).params), tier_shape()),
        tier_of(stored_tier(upsert_tier_statement(row, false).params)) == Ok::<
            MemoryTierView,
            Seq<char>,
        >(row),
{
    let params = upsert_tier_statement(row, false).params;
    assert(params.len() == 5);
    assert(params[0] == SqlCell::Text(row.id));
}

/// A binding of a memory to a task that was stored is read back.
pub proof fn law_binding_reads_back(row: TaskMemoryView)
    ensures
        row_fits(bind_task_memory_statement(row).params, task_memory_shape()),
        task_memory_of(bind_task_memory_statement(row).params) == Ok::<TaskMemoryView, Seq<char>>(
            row,
        ),
{
    let params = bind_task_memory_statement(row).params;
    assert(params.len() == 4);
    assert(params[0] == SqlCell::Text(row.id));
}

/// The mark of each parameter stands in the text of a query for memories.
pub proof fn law_list_memories_binds_every_parameter(
    limit: u32,
    scope: Option<Seq<char>>,
    category: Option<Seq<char>>,
    agent_id: Option<Seq<char>>,
    run_id: Option<Seq<char>>,
    skill_id: Option<Seq<char>>,
    tag: Option<Seq<char>>,
)
    ensures
        binds_all(
            list_memories_statement(limit, scope, category, agent_id, run_id, skill_id, tag),
        ),
{
    reveal_strlit(" AND scope = ?");
    reveal_strlit(" AND category = ?");
    reveal_strlit(" AND agent_id = ?");
    reveal_strlit(" AND run_id = ?");
    reveal_strlit(" AND skill_id = ?");
    reveal_strlit(" AND tags LIKE '%' || ?");
    reveal_strlit(" ORDER BY relevance_score DESC, updated_at DESC LIMIT ?");
    let a = StatementView::of(LIST_MEMORIES@);
    let b = a.filter(" AND scope = ?"@, ""@, scope);
    let c = b.filter(" AND category = ?"@, ""@, category);
    let d = c.filter(" AND agent_id = ?"@, ""@, agent_id);
    let e = d.filter(" AND run_id = ?"@, ""@, run_id);
    let f = e.filter(" AND skill_id = ?"@, ""@, skill_id);
    let g = f.filter(" AND tags LIKE '%' || ?"@, " || '%'"@, tag);
    lemma_filter_binds(a, " AND scope = ?"@, ""@, scope);
    lemma_filter_binds(b, " AND category = ?"@, ""@, category);
    lemma_filter_binds(c, " AND agent_id = ?"@, ""@, agent_id);
    lemma_filter_binds(d, " AND run_id = ?"@, ""@, run_id);
    lemma_filter_binds(e, " AND skill_id = ?"@, ""@, skill_id);
    lemma_filter_binds(f, " AND tags LIKE '%' || ?"@, " || '%'"@, tag);
    lemma_bind_binds(
        g,
        " ORDER BY relevance_score DESC, updated_at DESC LIMIT ?"@,
        ""@,
        SqlCell::Integer(limit as i64),
    );
}

proof fn lemma_word_binds(s: StatementView, word: Seq<char>)
    requires
        binds_all(s),
    ensures
        binds_all(with_word(s, word)),
{
    reveal_strlit(" AND (mt.content LIKE '%' || ?");
    let n = s.params.len() + 1;
    let rest = " || '%' OR m.key LIKE '%' || ?"@ + decimal(n) + " || '%')"@;
    lemma_bind_binds(s, " AND (mt.content LIKE '%' || ?"@, rest, SqlCell::Text(word));
    assert(with_word(s, word).sql =~= s.bind(
        " AND (mt.content LIKE '%' || ?"@,
        rest,
        SqlCell::Text(word),
    ).sql);
}

proof fn lemma_words_bind(s: StatementView, items: Seq<Seq<char>>)
    requires
        binds_all(s),
    ensures
        binds_all(with_words(s, items)),
    decreases items.len(),
{
    if items.len() > 0 {
        lemma_words_bind(s, items.drop_last());
        lemma_word_binds(with_words(s, items.drop_last()), items.last());
    }
}

/// The mark of each parameter stands in the text of a search for memories.
pub proof fn law_search_memories_binds_every_parameter(
    query: Seq<char>,
    limit: u32,
    scope: Option<Seq<char>>,
    category: Option<Seq<char>>,
    agent_id: Option<Seq<char>>,
    tier: Option<Seq<char>>,
)
    ensures
        binds_all(search_memories_statement(query, limit, scope, category, agent_id, tier)),
{
    if words(query).len() == 0 {
        law_list_memories_binds_every_parameter(limit, scope, category, agent_id, None, None, None);
    } else {
        reveal_strlit(" AND mt.tier = ?");
        reveal_strlit(" AND m.scope = ?");
        reveal_strlit(" AND m.category = ?");
        reveal_strlit(" AND m.agent_id = ?");
        reveal_strlit(
            " ORDER BY m.relevance_score DESC, m.access_count DESC, m.updated_at DESC LIMIT ?",
        );
        let a = StatementView::of(SEARCH_MEMORIES@);
        let b = a.filter(" AND mt.tier = ?"@, ""@, tier);
        let c = with_words(b, words(query));
        let d = c.filter(" AND m.scope = ?"@, ""@, scope);
        let e = d.filter(" AND m.category = ?"@, ""@, category);
        let f = e.filter(" AND m.agent_id = ?"@, ""@, agent_id);
        lemma_filter_binds(a, " AND mt.tier = ?"@, ""@, tier);
        lemma_words_bind(b, words(query));
        lemma_filter_binds(c, " AND m.scope = ?"@, ""@, scope);
        lemma_filter_binds(d, " AND m.category = ?"@, ""@, category);
        lemma_filter_binds(e, " AND m.agent_id = ?"@, ""@, agent_id);
        lemma_bind_binds(
            f,
            " ORDER BY m.relevance_score DESC, m.access_count DESC, m.updated_at DESC LIMIT ?"@,
            ""@,
            SqlCell::Integer(limit as i64),
        );
    }
}

/// The mark of each parameter stands in the text of an update of a memory.
pub proof fn law_update_memory_binds_every_parameter(
    now: Seq<char>,
    memory_id: Seq<char>,
    metadata: Option<Seq<char>>,
    tags: Option<Seq<char>>,
    relevance_score: Option<Seq<char>>,
)
    ensures
        binds_all(update_memory_statement(now, memory_id, metadata, tags, relevance_score)),
{
    reveal_strlit("UPDATE memories SET updated_at = ?1");
    reveal_strlit(", metadata = ?");
    reveal_strlit(", tags = ?");
    reveal_strlit(", relevance_score = ?");
    reveal_strlit(" WHERE id = ?");
    let a = StatementView::of("UPDATE memories SET updated_at = ?1"@).text(now);
    assert(binds_all(a)) by {
        assert(mark(1) =~= seq!['?', '1']);
        assert(a.sql.subrange(33, 35) =~= mark(1));
        assert(occurs_at(a.sql, mark(1), 33));
    }
    let b = a.filter(", metadata = ?"@, ""@, metadata);
    let c = b.filter(", tags = ?"@, ""@, tags);
    let d = set_decimal(c, ", relevance_score = ?"@, relevance_score);
    lemma_filter_binds(a, ", metadata = ?"@, ""@, metadata);
    lemma_filter_binds(b, ", tags = ?"@, ""@, tags);
    match relevance_score {
        Some(score) => lemma_bind_binds(c, ", relevance_score = ?"@, ""@, SqlCell::Real(score)),
        None => {},
    }
    lemma_bind_binds(d, " WHERE id = ?"@, ""@, SqlCell::Text(memory_id));
}

} // verus!
