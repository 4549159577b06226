//! Records of the database as JSON.

use crate::json::{
    Fields, JsonTree, flag, int_tree, list, opt_text_tree, opt_text_value, parse_or_list,
    parse_or_null, parse_or_object, parsed_or, decimal_value, null, real_tree, signed, text_list,
    text_trees, trees, value_tree,
};
use crate::memory_db::{MemoryRow, MemoryTierRow, MemoryTierView, MemoryView};
use crate::task_db::{
    AgentRow, AgentView, ConfigHistoryRow, ConfigHistoryView, CronJobRow, CronJobView, PipelineRow,
    PipelineView, TaskLogRow, TaskLogView, TaskRow, TaskView,
};
use crate::text::{borrowed, split, split_on, texts, trim, trimmed};
use serde_json::Value;
use vstd::prelude::*;

verus! {

/// The tags of a memory, which a text holds with commas between them. The empty
/// text holds none. White characters round the tags are left out where that is
/// asked for.
pub open spec fn tags_of(text: Seq<char>, trim_tags: bool) -> Seq<Seq<char>> {
    if text.len() == 0 {
        Seq::empty()
    } else if trim_tags {
        split_on(text, ',').map_values(|tag: Seq<char>| trimmed(tag))
    } else {
        split_on(text, ',')
    }
}

/// The tags of a memory.
pub open spec fn tags_tree(text: Seq<char>, trim_tags: bool) -> JsonTree {
    JsonTree::List(text_trees(tags_of(text, trim_tags)))
}

/// The tags of a memory.
pub fn tags_value(text: &str, trim_tags: bool) -> (r: Value)
    ensures
        value_tree(r) == tags_tree(text@, trim_tags),
{
    let mut tags: Vec<String> = Vec::new();
    if !text.is_empty() {
        let parts = split(text, ',');
        assert(texts(parts@).len() == parts@.len());
        if trim_tags {
            let mut i: usize = 0;
            while i < parts.len()
                invariant
                    i <= parts@.len(),
                    tags@.len() == i,
                    texts(parts@) == split_on(text@, ','),
                    forall|k: int| 0 <= k < i ==> (#[trigger] tags@[k])@ == trimmed(parts@[k]@),
                decreases parts@.len() - i,
            {
                tags.push(trim(parts[i].as_str()));
                i += 1;
            }
            assert forall|k: int| 0 <= k < tags@.len() implies texts(tags@)[k] == trimmed(
                split_on(text@, ',')[k],
            ) by {
                assert(texts(parts@)[k] == parts@[k]@);
                assert(tags@[k]@ == trimmed(parts@[k]@));
            }
            assert(texts(tags@) =~= tags_of(text@, trim_tags));
        } else {
            tags = parts;
        }
    } else {
        assert(texts(tags@) =~= tags_of(text@, trim_tags));
    }
    text_list(&tags)
}

/// A task as JSON. A payload that is no JSON is the empty object.
pub open spec fn task_json(row: TaskView) -> JsonTree {
    JsonTree::empty()
        .text("id"@, row.id)
        .text("task_type"@, row.task_type)
        .text("status"@, row.status)
        .text("agent_id"@, row.agent_id)
        .text("run_id"@, row.run_id)
        .text("current_stage"@, row.current_stage)
        .text("summary"@, row.summary)
        .text("parent_id"@, row.parent_id)
        .with("payload"@, parsed_or(row.payload, JsonTree::empty()))
        .text("created_at"@, row.created_at)
        .text("updated_at"@, row.updated_at)
}

/// A task as JSON. A payload that is no JSON is the empty object.
pub fn task_row_to_json(row: &TaskRow) -> (r: Value)
    ensures
        value_tree(r) == task_json(row@),
{
    Fields::new()
        .text("id", row.id.as_str())
        .text("task_type", row.task_type.as_str())
        .text("status", row.status.as_str())
        .text("agent_id", row.agent_id.as_str())
        .text("run_id", row.run_id.as_str())
        .text("current_stage", row.current_stage.as_str())
        .text("summary", row.summary.as_str())
        .text("parent_id", row.parent_id.as_str())
        .with("payload", parse_or_object(row.payload.as_str()))
        .text("created_at", row.created_at.as_str())
        .text("updated_at", row.updated_at.as_str())
        .done()
}

/// A list of tasks as JSON.
pub open spec fn task_trees(rows: Seq<TaskRow>) -> Seq<JsonTree> {
    rows.map_values(|row: TaskRow| task_json(row@))
}

/// A list of tasks as JSON.
pub fn task_list(rows: &Vec<TaskRow>) -> (r: Value)
    ensures
        value_tree(r) == JsonTree::List(task_trees(rows@)),
{
    let mut out: Vec<Value> = Vec::new();
    let mut i: usize = 0;
    while i < rows.len()
        invariant
            i <= rows@.len(),
            out@.len() == i,
            forall|k: int|
                0 <= k < i ==> value_tree(#[trigger] out@[k]) == task_json(rows@[k]@),
        decreases rows@.len() - i,
    {
        out.push(task_row_to_json(&rows[i]));
        i += 1;
    }
    assert(trees(out@) =~= task_trees(rows@));
    list(out)
}

/// A memory as JSON. Metadata that is no JSON is the empty object.
pub open spec fn memory_json(row: MemoryView, trim_tags: bool) -> JsonTree {
    JsonTree::empty()
        .text("id"@, row.id)
        .text("scope"@, row.scope)
        .text("category"@, row.category)
        .text("key"@, row.key)
        .with("metadata"@, parsed_or(row.metadata, JsonTree::empty()))
        .with("tags"@, tags_tree(row.tags, trim_tags))
        .text("agent_id"@, row.agent_id)
        .text("run_id"@, row.run_id)
        .text("skill_id"@, row.skill_id)
        .with("relevance_score"@, real_tree(row.relevance_score))
        .with("access_count"@, int_tree(row.access_count))
        .text("created_at"@, row.created_at)
        .text("updated_at"@, row.updated_at)
}

/// A memory as JSON. Metadata that is no JSON is the empty object.
pub fn memory_row_to_json(row: &MemoryRow, trim_tags: bool) -> (r: Value)
    ensures
        value_tree(r) == memory_json(row@, trim_tags),
{
    Fields::new()
        .text("id", row.id.as_str())
        .text("scope", row.scope.as_str())
        .text("category", row.category.as_str())
        .text("key", row.key.as_str())
        .with("metadata", parse_or_object(row.metadata.as_str()))
        .with("tags", tags_value(row.tags.as_str(), trim_tags))
        .text("agent_id", row.agent_id.as_str())
        .text("run_id", row.run_id.as_str())
        .text("skill_id", row.skill_id.as_str())
        .with("relevance_score", decimal_value(row.relevance_score.as_str()))
        .with("access_count", signed(row.access_count))
        .text("created_at", row.created_at.as_str())
        .text("updated_at", row.updated_at.as_str())
        .done()
}

/// A list of memories as JSON.
pub open spec fn memory_trees(rows: Seq<MemoryRow>, trim_tags: bool) -> Seq<JsonTree> {
    rows.map_values(|row: MemoryRow| memory_json(row@, trim_tags))
}

/// A list of memories as JSON.
pub fn memory_list(rows: &Vec<MemoryRow>, trim_tags: bool) -> (r: Value)
    ensures
        value_tree(r) == JsonTree::List(memory_trees(rows@, trim_tags)),
{
    let mut out: Vec<Value> = Vec::new();
    let mut i: usize = 0;
    while i < rows.len()
        invariant
            i <= rows@.len(),
            out@.len() == i,
            forall|k: int|
                0 <= k < i ==> value_tree(#[trigger] out@[k]) == memory_json(rows@[k]@, trim_tags),
        decreases rows@.len() - i,
    {
        out.push(memory_row_to_json(&rows[i], trim_tags));
        i += 1;
    }
    assert(trees(out@) =~= memory_trees(rows@, trim_tags));
    list(out)
}

/// A tier of a memory as JSON.
pub open spec fn tier_json(row: MemoryTierView) -> JsonTree {
    JsonTree::empty()
        .text("id"@, row.id)
        .text("memory_id"@, row.memory_id)
        .text("tier"@, row.tier)
        .text("content"@, row.content)
        .text("created_at"@, row.created_at)
        .text("updated_at"@, row.updated_at)
}

/// A tier of a memory as JSON.
pub fn tier_row_to_json(row: &MemoryTierRow) -> (r: Value)
    ensures
        value_tree(r) == tier_json(row@),
{
    Fields::new()
        .text("id", row.id.as_str())
        .text("memory_id", row.memory_id.as_str())
        .text("tier", row.tier.as_str())
        .text("content", row.content.as_str())
        .text("created_at", row.created_at.as_str())
        .text("updated_at", row.updated_at.as_str())
        .done()
}

/// A list of tiers as JSON.
pub open spec fn tier_trees(rows: Seq<MemoryTierRow>) -> Seq<JsonTree> {
    rows.map_values(|row: MemoryTierRow| tier_json(row@))
}

/// A list of tiers as JSON.
pub fn tier_list(rows: &Vec<MemoryTierRow>) -> (r: Value)
    ensures
        value_tree(r) == JsonTree::List(tier_trees(rows@)),
{
    let mut out: Vec<Value> = Vec::new();
    let mut i: usize = 0;
    while i < rows.len()
        invariant
            i <= rows@.len(),
            out@.len() == i,
            forall|k: int|
                0 <= k < i ==> value_tree(#[trigger] out@[k]) == tier_json(rows@[k]@),
        decreases rows@.len() - i,
    {
        out.push(tier_row_to_json(&rows[i]));
        i += 1;
    }
    assert(trees(out@) =~= tier_trees(rows@));
    list(out)
}

/// A tier of a memory as JSON, without the id of the memory.
pub open spec fn brief_tier_json(row: MemoryTierView) -> JsonTree {
    JsonTree::empty()
        .text("id"@, row.id)
        .text("tier"@, row.tier)
        .text("content"@, row.content)
        .text("created_at"@, row.created_at)
        .text("updated_at"@, row.updated_at)
}

/// A tier of a memory as JSON, without the id of the memory.
pub fn tier_row_to_brief_json(row: &MemoryTierRow) -> (r: Value)
    ensures
        value_tree(r) == brief_tier_json(row@),
{
    Fields::new()
        .text("id", row.id.as_str())
        .text("tier", row.tier.as_str())
        .text("content", row.content.as_str())
        .text("created_at", row.created_at.as_str())
        .text("updated_at", row.updated_at.as_str())
        .done()
}

/// A list of tiers as JSON, without the id of the memory.
pub open spec fn brief_tier_trees(rows: Seq<MemoryTierRow>) -> Seq<JsonTree> {
    rows.map_values(|row: MemoryTierRow| brief_tier_json(row@))
}

/// A list of tiers as JSON, without the id of the memory.
pub fn brief_tier_list(rows: &Vec<MemoryTierRow>) -> (r: Value)
    ensures
        value_tree(r) == JsonTree::List(brief_tier_trees(rows@)),
{
    let mut out: Vec<Value> = Vec::new();
    let mut i: usize = 0;
    while i < rows.len()
        invariant
            i <= rows@.len(),
            out@.len() == i,
            forall|k: int|
                0 <= k < i ==> value_tree(#[trigger] out@[k]) == brief_tier_json(rows@[k]@),
        decreases rows@.len() - i,
    {
        out.push(tier_row_to_brief_json(&rows[i]));
        i += 1;
    }
    assert(trees(out@) =~= brief_tier_trees(rows@));
    list(out)
}

/// An agent as JSON.
pub open spec fn agent_json(row: AgentView) -> JsonTree {
    JsonTree::empty()
        .text("agent_id"@, row.agent_id)
        .text("role"@, row.role)
        .text("status"@, row.status)
        .text("last_heartbeat"@, row.last_heartbeat)
        .with("capabilities"@, parsed_or(row.capabilities, JsonTree::List(Seq::empty())))
        .with("skills"@, parsed_or(row.skills, JsonTree::List(Seq::empty())))
        .with("pid"@, int_tree(row.pid))
        .text("preferred_model"@, row.preferred_model)
        .text("soul_content"@, row.soul_content)
        .text("binary_path"@, row.binary_path)
        .text("version"@, row.version)
        .text("first_registered_at"@, row.first_registered_at)
        .with("registration_count"@, int_tree(row.registration_count))
        .with("crash_count"@, int_tree(row.crash_count))
        .text("socket_id"@, row.socket_id)
}

/// An agent as JSON.
pub fn agent_row_to_json(row: &AgentRow) -> (r: Value)
    ensures
        value_tree(r) == agent_json(row@),
{
    Fields::new()
        .text("agent_id", row.agent_id.as_str())
        .text("role", row.role.as_str())
        .text("status", row.status.as_str())
        .text("last_heartbeat", row.last_heartbeat.as_str())
        .with("capabilities", parse_or_list(row.capabilities.as_str()))
        .with("skills", parse_or_list(row.skills.as_str()))
        .with("pid", signed(row.pid))
        .text("preferred_model", row.preferred_model.as_str())
        .text("soul_content", row.soul_content.as_str())
        .text("binary_path", row.binary_path.as_str())
        .text("version", row.version.as_str())
        .text("first_registered_at", row.first_registered_at.as_str())
        .with("registration_count", signed(row.registration_count))
        .with("crash_count", signed(row.crash_count))
        .text("socket_id", row.socket_id.as_str())
        .done()
}

/// A list of agents as JSON.
pub open spec fn agent_trees(rows: Seq<AgentRow>) -> Seq<JsonTree> {
    rows.map_values(|row: AgentRow| agent_json(row@))
}

/// A list of agents as JSON.
pub fn agent_list(rows: &Vec<AgentRow>) -> (r: Value)
    ensures
        value_tree(r) == JsonTree::List(agent_trees(rows@)),
{
    let mut out: Vec<Value> = Vec::new();
    let mut i: usize = 0;
    while i < rows.len()
        invariant
            i <= rows@.len(),
            out@.len() == i,
            forall|k: int|
                0 <= k < i ==> value_tree(#[trigger] out@[k]) == agent_json(rows@[k]@),
        decreases rows@.len() - i,
    {
        out.push(agent_row_to_json(&rows[i]));
        i += 1;
    }
    assert(trees(out@) =~= agent_trees(rows@));
    list(out)
}

/// A stage of a pipeline run as JSON. A result that is no JSON is null.
pub open spec fn pipeline_json(row: PipelineView) -> JsonTree {
    JsonTree::empty()
        .text("id"@, row.id)
        .text("run_id"@, row.run_id)
        .text("stage"@, row.stage)
        .text("artifact_id"@, row.artifact_id)
        .text("status"@, row.status)
        .text("agent_id"@, row.agent_id)
        .with(
        "result"@,
        match row.result {
            Some(s) => parsed_or(s, JsonTree::Null),
            None => JsonTree::Null,
        },
    )
        .with("error"@, opt_text_tree(row.error))
        .text("created_at"@, row.created_at)
        .text("updated_at"@, row.updated_at)
}

/// A stage of a pipeline run as JSON. A result that is no JSON is null.
pub fn pipeline_row_to_json(row: &PipelineRow) -> (r: Value)
    ensures
        value_tree(r) == pipeline_json(row@),
{
    let result = match &row.result {
        Some(s) => parse_or_null(s.as_str()),
        None => null(),
    };
    Fields::new()
        .text("id", row.id.as_str())
        .text("run_id", row.run_id.as_str())
        .text("stage", row.stage.as_str())
        .text("artifact_id", row.artifact_id.as_str())
        .text("status", row.status.as_str())
        .text("agent_id", row.agent_id.as_str())
        .with("result", result)
        .with("error", opt_text_value(borrowed(&row.error)))
        .text("created_at", row.created_at.as_str())
        .text("updated_at", row.updated_at.as_str())
        .done()
}

/// A list of stages of pipeline runs as JSON.
pub open spec fn pipeline_trees(rows: Seq<PipelineRow>) -> Seq<JsonTree> {
    rows.map_values(|row: PipelineRow| pipeline_json(row@))
}

/// A list of stages of pipeline runs as JSON.
pub fn pipeline_list(rows: &Vec<PipelineRow>) -> (r: Value)
    ensures
        value_tree(r) == JsonTree::List(pipeline_trees(rows@)),
{
    let mut out: Vec<Value> = Vec::new();
    let mut i: usize = 0;
    while i < rows.len()
        invariant
            i <= rows@.len(),
            out@.len() == i,
            forall|k: int|
                0 <= k < i ==> value_tree(#[trigger] out@[k]) == pipeline_json(rows@[k]@),
        decreases rows@.len() - i,
    {
        out.push(pipeline_row_to_json(&rows[i]));
        i += 1;
    }
    assert(trees(out@) =~= pipeline_trees(rows@));
    list(out)
}

/// A cron job as JSON.
pub open spec fn cron_json(row: CronJobView) -> JsonTree {
    JsonTree::empty()
        .text("id"@, row.id)
        .text("name"@, row.name)
        .text("schedule"@, row.schedule)
        .with("enabled"@, JsonTree::Bool(row.enabled))
        .with("last_run_at"@, opt_text_tree(row.last_run_at))
        .with("next_run_at"@, opt_text_tree(row.next_run_at))
        .with("last_status"@, opt_text_tree(row.last_status))
        .with("last_error"@, opt_text_tree(row.last_error))
        .text("created_at"@, row.created_at)
}

/// A cron job as JSON.
pub fn cron_row_to_json(row: &CronJobRow) -> (r: Value)
    ensures
        value_tree(r) == cron_json(row@),
{
    Fields::new()
        .text("id", row.id.as_str())
        .text("name", row.name.as_str())
        .text("schedule", row.schedule.as_str())
        .with("enabled", flag(row.enabled))
        .with("last_run_at", opt_text_value(borrowed(&row.last_run_at)))
        .with("next_run_at", opt_text_value(borrowed(&row.next_run_at)))
        .with("last_status", opt_text_value(borrowed(&row.last_status)))
        .with("last_error", opt_text_value(borrowed(&row.last_error)))
        .text("created_at", row.created_at.as_str())
        .done()
}

/// A list of cron jobs as JSON.
pub open spec fn cron_trees(rows: Seq<CronJobRow>) -> Seq<JsonTree> {
    rows.map_values(|row: CronJobRow| cron_json(row@))
}

/// A list of cron jobs as JSON.
pub fn cron_list(rows: &Vec<CronJobRow>) -> (r: Value)
    ensures
        value_tree(r) == JsonTree::List(cron_trees(rows@)),
{
    let mut out: Vec<Value> = Vec::new();
    let mut i: usize = 0;
    while i < rows.len()
        invariant
            i <= rows@.len(),
            out@.len() == i,
            forall|k: int|
                0 <= k < i ==> value_tree(#[trigger] out@[k]) == cron_json(rows@[k]@),
        decreases rows@.len() - i,
    {
        out.push(cron_row_to_json(&rows[i]));
        i += 1;
    }
    assert(trees(out@) =~= cron_trees(rows@));
    list(out)
}

/// A change of the gateway config as JSON.
pub open spec fn history_json(row: ConfigHistoryView) -> JsonTree {
    JsonTree::empty()
        .text("id"@, row.id)
        .text("config_hash"@, row.config_hash)
        .text("action"@, row.action)
        .text("backup_path"@, row.backup_path)
        .text("timestamp"@, row.timestamp)
}

/// A change of the gateway config as JSON.
pub fn history_row_to_json(row: &ConfigHistoryRow) -> (r: Value)
    ensures
        value_tree(r) == history_json(row@),
{
    Fields::new()
        .text("id", row.id.as_str())
        .text("config_hash", row.config_hash.as_str())
        .text("action", row.action.as_str())
        .text("backup_path", row.backup_path.as_str())
        .text("timestamp", row.timestamp.as_str())
        .done()
}

/// A list of changes of the gateway config as JSON.
pub open spec fn history_trees(rows: Seq<ConfigHistoryRow>) -> Seq<JsonTree> {
    rows.map_values(|row: ConfigHistoryRow| history_json(row@))
}

/// A list of changes of the gateway config as JSON.
pub fn history_list(rows: &Vec<ConfigHistoryRow>) -> (r: Value)
    ensures
        value_tree(r) == JsonTree::List(history_trees(rows@)),
{
    let mut out: Vec<Value> = Vec::new();
    let mut i: usize = 0;
    while i < rows.len()
        invariant
            i <= rows@.len(),
            out@.len() == i,
            forall|k: int|
                0 <= k < i ==> value_tree(#[trigger] out@[k]) == history_json(rows@[k]@),
        decreases rows@.len() - i,
    {
        out.push(history_row_to_json(&rows[i]));
        i += 1;
    }
    assert(trees(out@) =~= history_trees(rows@));
    list(out)
}

/// A log entry of a task as JSON.
pub open spec fn log_json(row: TaskLogView) -> JsonTree {
    JsonTree::empty()
        .text("id"@, row.id)
        .text("task_id"@, row.task_id)
        .text("level"@, row.level)
        .text("message"@, row.message)
        .text("detail"@, row.detail)
        .text("agent_id"@, row.agent_id)
        .text("stage"@, row.stage)
        .text("created_at"@, row.created_at)
}

/// A log entry of a task as JSON.
pub fn log_row_to_json(row: &TaskLogRow) -> (r: Value)
    ensures
        value_tree(r) == log_json(row@),
{
    Fields::new()
        .text("id", row.id.as_str())
        .text("task_id", row.task_id.as_str())
        .text("level", row.level.as_str())
        .text("message", row.message.as_str())
        .text("detail", row.detail.as_str())
        .text("agent_id", row.agent_id.as_str())
        .text("stage", row.stage.as_str())
        .text("created_at", row.created_at.as_str())
        .done()
}

/// A list of log entries of a task as JSON.
pub open spec fn log_trees(rows: Seq<TaskLogRow>) -> Seq<JsonTree> {
    rows.map_values(|row: TaskLogRow| log_json(row@))
}

/// A list of log entries of a task as JSON.
pub fn log_list(rows: &Vec<TaskLogRow>) -> (r: Value)
    ensures
        value_tree(r) == JsonTree::List(log_trees(rows@)),
{
    let mut out: Vec<Value> = Vec::new();
    let mut i: usize = 0;
    while i < rows.len()
        invariant
            i <= rows@.len(),
            out@.len() == i,
            forall|k: int|
                0 <= k < i ==> value_tree(#[trigger] out@[k]) == log_json(rows@[k]@),
        decreases rows@.len() - i,
    {
        out.push(log_row_to_json(&rows[i]));
        i += 1;
    }
    assert(trees(out@) =~= log_trees(rows@));
    list(out)
}

/// Tags without commas that are joined with commas read back as they were, as long
/// as they are not the one empty tag.
pub proof fn law_tags_read_back(tags: Seq<Seq<char>>)
    requires
        forall|i: int| 0 <= i < tags.len() ==> !(#[trigger] tags[i]).contains(','),
        tags != seq![Seq::<char>::empty()],
    ensures
        tags_of(crate::text::joined(tags, seq![',']), false) == tags,
{
    let text = crate::text::joined(tags, seq![',']);
    if tags.len() == 0 {
        assert(tags =~= Seq::empty());
    } else {
        crate::text::law_split_undoes_join(tags, ',');
        if text.len() == 0 {
            if tags.len() == 1 {
                assert(tags =~= seq![tags[0]]);
                assert(tags[0] =~= Seq::<char>::empty());
            } else {
                assert(text == tags[0] + seq![','] + crate::text::joined(tags.drop_first(), seq![',']));
                assert(text.len() >= 1);
            }
        }
    }
}

} // verus!
