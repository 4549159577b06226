//! Requests over HTTP: what is asked of the database, who is told, and what is
//! answered.

use crate::events::{
    DASHBOARD_EVENT, Emission, EmissionView, KING_CONFIG_UPDATE, MEMORY_CHANGED, ROOM_DASHBOARD,
    ROOM_KERNEL, emissions, notice, notice_value, public_event, room_event, to_everyone, to_room,
};
use crate::gateway_manager::{gateway_config, read_gateway_config};
use crate::history::{
    AgentHistoryRow, EventFilter, EventFilterView, SocketEventRow, change_list, change_trees,
    event_list, event_trees, list_agent_history, list_agent_history_statement, list_socket_events,
    list_socket_events_statement,
};
use crate::json::{
    Fields, JsonTree, compact_text, copy, flag, get, get_filled, get_text, get_uint, int_tree, null,
    parse, parsed_tree, pretty_text, set_member, signed, text, text_list, text_or_else, text_trees,
    to_pretty, to_text, uint, value_tree,
};
use crate::memory_db::{
    MemoryRow, MemoryTierRow, ScopeCount, list_memories, list_memories_for_task,
    list_memories_for_task_statement, list_memories_statement, search_memories,
    search_memories_statement,
};
use crate::pipeline_coordinator::{
    PipelineCoordinator, PipelineStage, StartedRun, progress_text, stage_name, start_steps,
    trigger_text,
};
use crate::records::{
    agent_json, agent_list, agent_row_to_json, agent_trees, cron_list, cron_trees, history_list,
    history_trees, log_list,
    log_trees, memory_json, memory_list, memory_row_to_json, memory_trees, pipeline_list,
    pipeline_trees, task_json, task_list, task_row_to_json, task_trees, tier_json, tier_list,
    tier_row_to_json, tier_trees,
};
use crate::socket_server::{
    MemoryRequest, Reply, ReplyView, granted, is_requested_memory, memory_change, on_memory_store,
    refusal, refused, tier_entries, tiers_of,
};
use crate::sql::Statement;
use crate::stamp::is_uuid;
use crate::steps::steps;
use crate::task_db::{
    AgentRow, ConfigHistoryRow, CronJobRow, PipelineRow, TaskLogRow, TaskRow, get_agent,
    get_agent_statement, is_new_stage, is_new_task, list_config_history,
    list_config_history_statement, list_pipeline_runs_statement, list_subtasks, list_task_logs,
    list_task_logs_statement, list_tasks, list_tasks_statement, set_agent_model,
    set_agent_model_statement, task_query,
};
use crate::text::{
    begins_with, borrowed, concat2, concat4, concat5, decimal, decimal_text, in_order,
    lemma_in_order_total, lemma_in_order_transitive, lines, opt_text, ordered, split_lines, text_or,
    texts,
};
use serde_json::Value;
use vstd::prelude::*;

verus! {

/// The greatest number of rows that a client gets.
pub const MAX_ROWS: u32 = 500;

/// The number of rows that a client gets: the one it asks for or another one, but no
/// more than the greatest.
pub open spec fn row_limit(asked: Option<u32>, other: u32) -> u32 {
    let wanted = match asked {
        Some(n) => n,
        None => other,
    };
    if wanted > MAX_ROWS {
        MAX_ROWS
    } else {
        wanted
    }
}

fn limit_rows(asked: Option<u32>, other: u32) -> (r: u32)
    ensures
        r == row_limit(asked, other),
{
    let wanted: u32 = match asked {
        Some(n) => n,
        None => other,
    };
    if wanted > MAX_ROWS {
        MAX_ROWS
    } else {
        wanted
    }
}

/// No client gets more rows than the greatest number, whatever it asks for.
pub proof fn law_row_limits_are_bounded(asked: Option<u32>, other: u32)
    ensures
        row_limit(asked, other) <= 500,
{
}

/// The answer that a question failed.
pub open spec fn failure(error: Seq<char>) -> JsonTree {
    JsonTree::empty().text("error"@, error)
}

fn fail(error: &str) -> (r: Value)
    ensures
        value_tree(r) == failure(error@),
{
    Fields::new().text("error", error).done()
}

fn refuse(error: &str) -> (r: Value)
    ensures
        value_tree(r) == refusal(error@),
{
    Fields::new().with("success", flag(false)).text("error", error).done()
}

fn grant() -> (r: Fields)
    ensures
        r@ == granted(),
        r@ is Object,
{
    Fields::new().with("success", flag(true))
}

/// The answer to a request that is granted or refused with an error, and says no
/// more.
pub open spec fn outcome(done: Result<(), &str>) -> JsonTree {
    match done {
        Ok(_) => granted(),
        Err(error) => refusal(error@),
    }
}

fn answer(done: Result<(), &str>) -> (r: Value)
    ensures
        value_tree(r) == outcome(done),
{
    match done {
        Ok(_) => grant().done(),
        Err(error) => refuse(error),
    }
}

/// The answer with a list and its length.
pub open spec fn counted(key: Seq<char>, items: Seq<JsonTree>) -> JsonTree {
    JsonTree::empty().with(key, JsonTree::List(items)).with(
        "count"@,
        JsonTree::UInt(items.len() as u64),
    )
}

/// The answer on the health of the king.
pub fn health_handler() -> (r: Value)
    ensures
        value_tree(r) == JsonTree::empty().text("status"@, "ok"@).text("service"@, "evo-king"@),
{
    Fields::new().text("status", "ok").text("service", "evo-king").done()
}

/// The answer to a question for the agents.
pub fn list_agents_handler(found: Result<&Vec<AgentRow>, &str>) -> (r: Value)
    ensures
        value_tree(r) == (match found {
            Ok(rows) => counted("agents"@, agent_trees(rows@)),
            Err(error) => failure(error@),
        }),
{
    match found {
        Ok(rows) => Fields::new().with("agents", agent_list(rows)).with(
            "count",
            uint(rows.len() as u64),
        ).done(),
        Err(error) => fail(error),
    }
}

// Agents.

/// The answer to a question for the model that an agent prefers.
pub fn agent_model_handler(agent_id: &str, found: Result<&str, &str>) -> (r: Value)
    ensures
        value_tree(r) == (match found {
            Ok(model) => JsonTree::empty().text("agent_id"@, agent_id@).text("model"@, model@),
            Err(error) => failure(error@),
        }),
{
    match found {
        Ok(model) => Fields::new().text("agent_id", agent_id).text("model", model).done(),
        Err(error) => fail(error),
    }
}

/// Handles a request to set the model that an agent prefers. An empty one means that
/// it prefers none.
pub fn agent_model_put_handler(agent_id: &str, body: &Value) -> (r: Result<Statement, Value>)
    ensures
        match r {
            Ok(statement) => value_tree(*body).get_text("model"@) is Some && statement@
                == set_agent_model_statement(agent_id@, value_tree(*body).get_text("model"@)->0),
            Err(refused) => value_tree(*body).get_text("model"@) is None && value_tree(refused)
                == refusal("model is required"@),
        },
{
    match get_text(body, "model") {
        Some(model) => Ok(set_agent_model(agent_id, model)),
        None => Err(refuse("model is required")),
    }
}

/// The answer to a request to set the model that an agent prefers.
pub fn agent_model_set(done: Result<(), &str>) -> (r: Value)
    ensures
        value_tree(r) == outcome(done),
{
    answer(done)
}

/// Handles a question for the changes of the status of an agent.
pub fn agent_history_handler(agent_id: &str, limit: Option<u32>, offset: Option<u32>) -> (r:
    Statement)
    ensures
        r@ == list_agent_history_statement(agent_id@, row_limit(limit, 100), row_offset(offset)),
{
    let skipped: u32 = match offset {
        Some(n) => n,
        None => 0,
    };
    list_agent_history(agent_id, limit_rows(limit, 100), skipped)
}

/// The answer to a question for the changes of the status of an agent.
pub fn agent_history_listed(
    agent_id: &str,
    found: Result<&Vec<AgentHistoryRow>, &str>,
) -> (r: Value)
    ensures
        value_tree(r) == (match found {
            Ok(rows) => JsonTree::empty().text("agent_id"@, agent_id@).with(
                "history"@,
                JsonTree::List(change_trees(rows@)),
            ).with("count"@, JsonTree::UInt(rows@.len() as u64)),
            Err(error) => failure(error@),
        }),
{
    match found {
        Ok(rows) => Fields::new().text("agent_id", agent_id).with(
            "history",
            change_list(rows),
        ).with("count", uint(rows.len() as u64)).done(),
        Err(error) => fail(error),
    }
}

/// The number of changes that the detail of an agent shows.
pub const DETAIL_CHANGES: u32 = 20;

/// Handles a question for the detail of an agent: the agent, and its last changes.
pub fn agent_detail_handler(agent_id: &str) -> (r: (Statement, Statement))
    ensures
        r.0@ == get_agent_statement(agent_id@),
        r.1@ == list_agent_history_statement(agent_id@, 20, 0),
{
    (get_agent(agent_id), list_agent_history(agent_id, DETAIL_CHANGES, 0))
}

/// The answer to a question for the detail of an agent, given the agent where there is
/// one, and its last changes.
pub fn agent_detailed(
    found: Result<Option<&AgentRow>, &str>,
    changes: Result<&Vec<AgentHistoryRow>, &str>,
) -> (r: Value)
    ensures
        value_tree(r) == (match found {
            Ok(Some(agent)) => match changes {
                Ok(rows) => JsonTree::empty().with("agent"@, agent_json(agent@)).with(
                    "history"@,
                    JsonTree::List(change_trees(rows@)),
                ),
                Err(error) => failure(error@),
            },
            Ok(None) => failure("agent not found"@),
            Err(error) => failure(error@),
        }),
{
    match found {
        Ok(Some(agent)) => match changes {
            Ok(rows) => Fields::new().with("agent", agent_row_to_json(agent)).with(
                "history",
                change_list(rows),
            ).done(),
            Err(error) => fail(error),
        },
        Ok(None) => fail("agent not found"),
        Err(error) => fail(error),
    }
}

// What happened.

/// What a client asks of the events on the sockets.
pub struct EventsQuery {
    pub agent_id: Option<String>,
    pub event_name: Option<String>,
    pub direction: Option<String>,
    pub since: Option<String>,
    pub until: Option<String>,
    pub limit: Option<u32>,
    pub offset: Option<u32>,
}

/// Which events a client asks for.
pub open spec fn asked_events(params: EventsQuery) -> EventFilterView {
    EventFilterView {
        agent_id: opt_text(params.agent_id),
        event_name: opt_text(params.event_name),
        direction: opt_text(params.direction),
        since: opt_text(params.since),
        until: opt_text(params.until),
    }
}

/// Handles a question for the events on the sockets.
pub fn events_handler(params: &EventsQuery) -> (r: Statement)
    ensures
        r@ == list_socket_events_statement(
            asked_events(*params),
            row_limit(params.limit, 100),
            row_offset(params.offset),
        ),
{
    let skipped: u32 = match params.offset {
        Some(n) => n,
        None => 0,
    };
    let asked = EventFilter {
        agent_id: borrowed(&params.agent_id),
        event_name: borrowed(&params.event_name),
        direction: borrowed(&params.direction),
        since: borrowed(&params.since),
        until: borrowed(&params.until),
    };
    list_socket_events(&asked, limit_rows(params.limit, 100), skipped)
}

/// The answer to a question for the events on the sockets.
pub fn events_listed(found: Result<&Vec<SocketEventRow>, &str>) -> (r: Value)
    ensures
        value_tree(r) == (match found {
            Ok(rows) => counted("events"@, event_trees(rows@)),
            Err(error) => failure(error@),
        }),
{
    match found {
        Ok(rows) => Fields::new().with("events", event_list(rows)).with(
            "count",
            uint(rows.len() as u64),
        ).done(),
        Err(error) => fail(error),
    }
}

/// The last of the names of log files of a component, which are its name with `.log`
/// after it and, since they are begun anew each day, the date.
pub open spec fn newest_log(names: Seq<Seq<char>>, component: Seq<char>) -> Option<Seq<char>>
    decreases names.len(),
{
    if names.len() == 0 {
        None
    } else {
        let before = newest_log(names.drop_last(), component);
        let last = names.last();
        if (component + ".log"@).is_prefix_of(last) && (before is None || in_order(
            before->0,
            last,
        )) {
            Some(last)
        } else {
            before
        }
    }
}

/// The newest log file of a component is one of its log files, and none of them comes
/// after it; there is none only where the component has no log file.
pub proof fn law_newest_log_is_last(names: Seq<Seq<char>>, component: Seq<char>, i: int)
    requires
        0 <= i < names.len(),
    ensures
        (component + ".log"@).is_prefix_of(names[i]) ==> newest_log(names, component) is Some
            && in_order(names[i], newest_log(names, component)->0),
        newest_log(names, component) is Some ==> names.contains(newest_log(names, component)->0)
            && (component + ".log"@).is_prefix_of(newest_log(names, component)->0),
    decreases names.len(),
{
    let rest = names.drop_last();
    let last = names.last();
    lemma_in_order_total(last, last);
    assert(names[names.len() - 1] == last);
    if rest.len() > 0 {
        let before = newest_log(rest, component);
        let at = if i < rest.len() {
            i
        } else {
            0
        };
        law_newest_log_is_last(rest, component, at);
        if before is Some {
            let k = choose|k: int| 0 <= k < rest.len() && rest[k] == before->0;
            assert(names[k] == before->0);
            lemma_in_order_total(before->0, last);
            if i < rest.len() && (component + ".log"@).is_prefix_of(names[i]) && in_order(
                before->0,
                last,
            ) {
                lemma_in_order_transitive(names[i], before->0, last);
            }
        }
    }
}

/// The newest of the log files of a component, given the names of all log files.
pub fn newest_log_file(names: &Vec<String>, component: &str) -> (r: Option<String>)
    ensures
        opt_text(r) == newest_log(texts(names@), component@),
{
    let start = concat2(component, ".log");
    let mut found: Option<String> = None;
    let mut i: usize = 0;
    let ghost all = texts(names@);
    while i < names.len()
        invariant
            i <= names@.len(),
            all == texts(names@),
            start@ == component@ + ".log"@,
            opt_text(found) == newest_log(all.take(i as int), component@),
        decreases names@.len() - i,
    {
        let name = &names[i];
        assert(all.take(i + 1).drop_last() =~= all.take(i as int));
        assert(all.take(i + 1).last() == name@);
        if begins_with(name.as_str(), start.as_str()) {
            let newer = match &found {
                Some(other) => ordered(other.as_str(), name.as_str()),
                None => true,
            };
            if newer {
                found = Some(name.clone());
            }
        }
        i += 1;
    }
    assert(all.take(i as int) =~= all);
    found
}

/// The number of lines of a log that a client gets where it does not ask for another.
pub const LOG_LINES: u32 = 100;

/// The last of a list of texts, at most `count`.
pub open spec fn last_of(items: Seq<Seq<char>>, count: nat) -> Seq<Seq<char>> {
    if items.len() <= count {
        items
    } else {
        items.skip(items.len() - count)
    }
}

/// The answer to a question for the last lines of the log of a component, given what
/// its newest log file holds or why it could not be read.
pub fn log_tailed(component: &str, asked: Option<u32>, found: Result<&str, &str>) -> (r: Value)
    ensures
        value_tree(r) == (match found {
            Ok(log) => {
                let shown = last_of(lines(log@), (match asked {
                    Some(n) => n,
                    None => LOG_LINES,
                }) as nat);
                JsonTree::empty().text("component"@, component@).with(
                    "lines"@,
                    JsonTree::List(text_trees(shown)),
                ).with("count"@, JsonTree::UInt(shown.len() as u64))
            },
            Err(error) => failure(error@),
        }),
{
    match found {
        Ok(log) => {
            let all = split_lines(log);
            let wanted: u32 = match asked {
                Some(n) => n,
                None => LOG_LINES,
            };
            let from: usize = if all.len() <= wanted as usize {
                0
            } else {
                all.len() - wanted as usize
            };
            let mut shown: Vec<String> = Vec::new();
            let mut i: usize = from;
            while i < all.len()
                invariant
                    from <= i <= all@.len(),
                    texts(shown@) == texts(all@).subrange(from as int, i as int),
                decreases all@.len() - i,
            {
                let ghost before = shown@;
                shown.push(all[i].clone());
                assert(texts(shown@) =~= texts(before).push(texts(all@)[i as int]));
                assert(texts(shown@) =~= texts(all@).subrange(from as int, i + 1));
                i += 1;
            }
            assert(texts(shown@) =~= last_of(lines(log@), wanted as nat));
            Fields::new().text("component", component).with("lines", text_list(&shown)).with(
                "count",
                uint(shown.len() as u64),
            ).done()
        },
        Err(error) => fail(error),
    }
}

// Pipeline runs.

/// What started a run that a client asks for: what the request says, or a word.
pub open spec fn trigger_of(body: JsonTree) -> JsonTree {
    match body.get("trigger"@) {
        Some(trigger) => trigger,
        None => JsonTree::Text("manual"@),
    }
}

/// Handles a request to start a run.
pub fn pipeline_start_handler(coordinator: &PipelineCoordinator, body: &Value) -> (r: StartedRun)
    ensures
        is_uuid(r.run_id@),
        is_new_stage(
            r.stage@,
            r.run_id@,
            stage_name(PipelineStage::Learning),
            ""@,
            compact_text(trigger_of(value_tree(*body))),
        ),
        is_new_task(
            r.task@,
            "pipeline"@,
            "running"@,
            None,
            trigger_text(trigger_of(value_tree(*body))),
            r.run_id@,
            stage_name(PipelineStage::Learning),
            progress_text(stage_name(PipelineStage::Learning)),
            ""@,
        ),
        steps(r.steps@) == start_steps(r.stage@, r.task@, trigger_of(value_tree(*body))),
{
    let trigger = match get(body, "trigger") {
        Some(trigger) => copy(trigger),
        None => text("manual"),
    };
    coordinator.start_run(&trigger)
}

/// The answer to a request to start a run, given the run or the error.
pub fn pipeline_started(started: Result<&str, &str>) -> (r: Value)
    ensures
        value_tree(r) == (match started {
            Ok(run_id) => granted().text("run_id"@, run_id@),
            Err(error) => refusal(error@),
        }),
{
    match started {
        Ok(run_id) => grant().text("run_id", run_id).done(),
        Err(error) => refuse(error),
    }
}

/// Handles a question for the stages of all runs.
pub fn pipeline_list_handler(coordinator: &PipelineCoordinator) -> (r: Statement)
    ensures
        r@ == list_pipeline_runs_statement(100, None),
{
    coordinator.list_runs(100, None)
}

/// The answer to a question for the stages of all runs.
pub fn runs_listed(found: Result<&Vec<PipelineRow>, &str>) -> (r: Value)
    ensures
        value_tree(r) == (match found {
            Ok(rows) => counted("runs"@, pipeline_trees(rows@)),
            Err(error) => failure(error@),
        }),
{
    match found {
        Ok(rows) => Fields::new().with("runs", pipeline_list(rows)).with(
            "count",
            uint(rows.len() as u64),
        ).done(),
        Err(error) => fail(error),
    }
}

/// The answer to a question for the stages of a run.
pub fn pipeline_detail_handler(run_id: &str, found: Result<&Vec<PipelineRow>, &str>) -> (r: Value)
    ensures
        value_tree(r) == (match found {
            Ok(rows) => JsonTree::empty().text("run_id"@, run_id@).with(
                "stages"@,
                JsonTree::List(pipeline_trees(rows@)),
            ).with("count"@, JsonTree::UInt(rows@.len() as u64)),
            Err(error) => failure(error@),
        }),
{
    match found {
        Ok(rows) => Fields::new().text("run_id", run_id).with("stages", pipeline_list(rows)).with(
            "count",
            uint(rows.len() as u64),
        ).done(),
        Err(error) => fail(error),
    }
}

// Administration.

/// Handles a request to have all agents read their configuration again: the event
/// that everyone gets.
pub fn admin_config_sync_handler() -> (r: Emission)
    ensures
        r@ == public_event(
            KING_CONFIG_UPDATE@,
            JsonTree::empty().text("trigger"@, "config_sync"@).text(
                "reason"@,
                "post_dependency_update"@,
            ),
        ),
{
    let payload = Fields::new().text("trigger", "config_sync").text(
        "reason",
        "post_dependency_update",
    ).done();
    to_everyone(KING_CONFIG_UPDATE, payload)
}

/// The answer to a request to have all agents read their configuration again.
pub fn config_synced(sent: Result<(), &str>) -> (r: Value)
    ensures
        value_tree(r) == outcome(sent),
{
    answer(sent)
}

/// The answer to a question for the cron jobs.
pub fn admin_list_crons_handler(found: Result<&Vec<CronJobRow>, &str>) -> (r: Value)
    ensures
        value_tree(r) == (match found {
            Ok(rows) => counted("crons"@, cron_trees(rows@)),
            Err(error) => failure(error@),
        }),
{
    match found {
        Ok(rows) => Fields::new().with("crons", cron_list(rows)).with(
            "count",
            uint(rows.len() as u64),
        ).done(),
        Err(error) => fail(error),
    }
}

/// The answer to a request to run a cron job now.
pub fn admin_run_cron_handler(name: &str, done: Result<(), &str>) -> (r: Value)
    ensures
        value_tree(r) == (match done {
            Ok(_) => granted().text("cron"@, name@),
            Err(error) => refusal(error@),
        }),
{
    match done {
        Ok(_) => grant().text("cron", name).done(),
        Err(error) => refuse(error),
    }
}

// The configuration of the gateway.

/// The answer to a question for the configuration of the gateway, given the text of
/// the file or why it cannot be read.
pub open spec fn config_answer(path: Seq<char>, found: Result<Seq<char>, Seq<char>>) -> JsonTree {
    match found {
        Ok(content) => match parsed_tree(content) {
            Ok(config) => config,
            Err(error) => failure("invalid config JSON: "@ + error),
        },
        Err(error) => failure("cannot read "@ + path + ": "@ + error),
    }
}

/// The answer to a question for the configuration of the gateway.
pub fn gateway_config_get_handler(path: &str, found: Result<&str, &str>) -> (r: Value)
    ensures
        value_tree(r) == config_answer(
            path@,
            match found {
                Ok(content) => Ok(content@),
                Err(error) => Err(error@),
            },
        ),
{
    match found {
        Ok(content) => match parse(content) {
            Ok(config) => config,
            Err(error) => {
                let message = concat2("invalid config JSON: ", error.as_str());
                fail(message.as_str())
            },
        },
        Err(error) => {
            let message = concat4("cannot read ", path, ": ", error);
            fail(message.as_str())
        },
    }
}

/// Handles a request to set the configuration of the gateway: the text that is
/// written to the file, or the refusal where the gateway cannot read it.
pub fn gateway_config_put_handler(body: &Value) -> (r: Result<String, Value>)
    ensures
        match r {
            Ok(content) => gateway_config(compact_text(value_tree(*body))) is Ok && content@
                == pretty_text(value_tree(*body)),
            Err(reply) => gateway_config(compact_text(value_tree(*body))) matches Err(error)
                && value_tree(reply) == refusal("invalid config: "@ + error),
        },
{
    let written = to_text(body);
    match read_gateway_config(written.as_str()) {
        Ok(_) => Ok(to_pretty(body)),
        Err(error) => {
            let message = concat2("invalid config: ", error.as_str());
            Err(refuse(message.as_str()))
        },
    }
}

/// The answer to a request to set the configuration of the gateway, given the
/// outcome of the write.
pub fn gateway_config_written(written: Result<(), &str>) -> (r: Value)
    ensures
        value_tree(r) == (match written {
            Ok(_) => granted(),
            Err(error) => refusal("write error: "@ + error@),
        }),
{
    match written {
        Ok(_) => grant().done(),
        Err(error) => {
            let message = concat2("write error: ", error);
            refuse(message.as_str())
        },
    }
}

/// Where the gateway lists its models, as its config says.
pub open spec fn models_url_of(config: JsonTree) -> Option<Seq<char>> {
    match config.get("server"@) {
        Some(server) => match (server.get_text("host"@), server.get_uint("port"@)) {
            (Some(host), Some(port)) => Some(
                "http://"@ + host + ":"@ + decimal(port as nat) + "/v1/models"@,
            ),
            _ => None,
        },
        None => None,
    }
}

/// Where the gateway lists its models, as its config says.
pub fn models_url(config: &Value) -> (r: Option<String>)
    ensures
        opt_text(r) == models_url_of(value_tree(*config)),
{
    match get(config, "server") {
        Some(server) => match (get_text(server, "host"), get_uint(server, "port")) {
            (Some(host), Some(port)) => {
                let number = decimal_text(port);
                Some(concat5("http://", host, ":", number.as_str(), "/v1/models"))
            },
            _ => None,
        },
        None => None,
    }
}

/// Where the gateway lists its models, given the text of its config, or why that is not
/// known.
pub fn gateway_models_handler(config: &str) -> (r: Result<String, String>)
    ensures
        match parsed_tree(config@) {
            Ok(tree) => match models_url_of(tree) {
                Some(url) => r is Ok && r->Ok_0@ == url,
                None => r is Err && r->Err_0@ == "gateway address not configured"@,
            },
            Err(error) => r is Err && r->Err_0@ == error,
        },
{
    match parse(config) {
        Ok(value) => match models_url(&value) {
            Some(url) => Ok(url),
            None => Err("gateway address not configured".to_string()),
        },
        Err(error) => Err(error),
    }
}

/// The answer to a question for the models of the gateway: what the gateway answers,
/// or the error.
pub fn models_listed(found: Result<&Value, &str>) -> (r: Value)
    ensures
        value_tree(r) == (match found {
            Ok(models) => value_tree(*models),
            Err(error) => failure(error@),
        }),
{
    match found {
        Ok(models) => copy(models),
        Err(error) => fail(error),
    }
}

/// Handles a question for the changes of the configuration.
pub fn config_history_handler() -> (r: Statement)
    ensures
        r@ == list_config_history_statement(100),
{
    list_config_history(100)
}

/// The answer to a question for the changes of the configuration.
pub fn history_listed(found: Result<&Vec<ConfigHistoryRow>, &str>) -> (r: Value)
    ensures
        value_tree(r) == (match found {
            Ok(rows) => counted("history"@, history_trees(rows@)),
            Err(error) => failure(error@),
        }),
{
    match found {
        Ok(rows) => Fields::new().with("history", history_list(rows)).with(
            "count",
            uint(rows.len() as u64),
        ).done(),
        Err(error) => fail(error),
    }
}

// Tasks.

/// The parameters of a question for tasks.
pub struct TasksQuery {
    pub status: Option<String>,
    pub agent_id: Option<String>,
    pub parent_id: Option<String>,
    pub limit: Option<u32>,
}

/// Handles a question for tasks.
pub fn tasks_list_handler(params: &TasksQuery) -> (r: Statement)
    ensures
        r@ == list_tasks_statement(
            row_limit(params.limit, 50),
            opt_text(params.status),
            opt_text(params.agent_id),
            opt_text(params.parent_id),
        ),
{
    list_tasks(
        limit_rows(params.limit, 50),
        borrowed(&params.status),
        borrowed(&params.agent_id),
        borrowed(&params.parent_id),
    )
}

/// The answer to a question for tasks.
pub fn tasks_listed(found: Result<&Vec<TaskRow>, &str>) -> (r: Value)
    ensures
        value_tree(r) == (match found {
            Ok(rows) => counted("tasks"@, task_trees(rows@)),
            Err(error) => failure(error@),
        }),
{
    match found {
        Ok(rows) => Fields::new().with("tasks", task_list(rows)).with(
            "count",
            uint(rows.len() as u64),
        ).done(),
        Err(error) => fail(error),
    }
}

/// The answer to a question for the current task.
pub fn task_current_handler(found: Result<Option<&TaskRow>, &str>) -> (r: Value)
    ensures
        value_tree(r) == (match found {
            Ok(Some(task)) => JsonTree::empty().with("task"@, task_json(task@)),
            Ok(None) => JsonTree::empty().with("task"@, JsonTree::Null),
            Err(error) => failure(error@),
        }),
{
    match found {
        Ok(Some(task)) => Fields::new().with("task", task_row_to_json(task)).done(),
        Ok(None) => Fields::new().with("task", null()).done(),
        Err(error) => fail(error),
    }
}

/// The parameters of a question for the log of a task.
pub struct TaskLogsQuery {
    pub limit: Option<u32>,
    pub offset: Option<u32>,
}

/// The number of rows that are left out at the start.
pub open spec fn row_offset(offset: Option<u32>) -> u32 {
    match offset {
        Some(n) => n,
        None => 0,
    }
}

/// Handles a question for the log of a task.
pub fn task_logs_handler(task_id: &str, params: &TaskLogsQuery) -> (r: Statement)
    ensures
        r@ == list_task_logs_statement(
            task_id@,
            row_limit(params.limit, 100),
            row_offset(params.offset),
        ),
{
    let offset: u32 = match params.offset {
        Some(n) => n,
        None => 0,
    };
    list_task_logs(task_id, limit_rows(params.limit, 100), offset)
}

/// The answer to a question for the log of a task. The count is that of all entries,
/// not only of those that are listed.
pub fn task_logs_listed(count: u32, found: Result<&Vec<TaskLogRow>, &str>) -> (r: Value)
    ensures
        value_tree(r) == (match found {
            Ok(rows) => JsonTree::empty().with("logs"@, JsonTree::List(log_trees(rows@))).with(
                "count"@,
                JsonTree::UInt(count as u64),
            ),
            Err(error) => failure(error@),
        }),
{
    match found {
        Ok(rows) => Fields::new().with("logs", log_list(rows)).with(
            "count",
            uint(count as u64),
        ).done(),
        Err(error) => fail(error),
    }
}

/// Handles a question for the subtasks of a task.
pub fn task_subtasks_handler(task_id: &str, params: &TasksQuery) -> (r: Statement)
    ensures
        r@ == task_query(
            " FROM tasks WHERE parent_id = ?1 ORDER BY created_at ASC LIMIT ?2"@,
        ).text(task_id@).integer(row_limit(params.limit, 100) as i64),
{
    list_subtasks(task_id, limit_rows(params.limit, 100))
}

/// The answer to a question for the subtasks of a task, with how many there are and
/// how many of them are completed.
pub fn subtasks_listed(found: Result<&Vec<TaskRow>, &str>, total: u32, completed: u32) -> (r: Value)
    ensures
        value_tree(r) == (match found {
            Ok(rows) => counted("subtasks"@, task_trees(rows@)).with(
                "progress"@,
                JsonTree::empty().with("total"@, JsonTree::UInt(total as u64)).with(
                    "completed"@,
                    JsonTree::UInt(completed as u64),
                ),
            ),
            Err(error) => failure(error@),
        }),
{
    match found {
        Ok(rows) => {
            let progress = Fields::new().with("total", uint(total as u64)).with(
                "completed",
                uint(completed as u64),
            ).done();
            Fields::new().with("subtasks", task_list(rows)).with(
                "count",
                uint(rows.len() as u64),
            ).with("progress", progress).done()
        },
        Err(error) => fail(error),
    }
}

// Memories.

/// The parameters of a question for memories.
pub struct MemoriesQuery {
    pub scope: Option<String>,
    pub category: Option<String>,
    pub agent_id: Option<String>,
    pub run_id: Option<String>,
    pub skill_id: Option<String>,
    pub tag: Option<String>,
    pub limit: Option<u32>,
}

/// Handles a question for memories.
pub fn memories_list_handler(params: &MemoriesQuery) -> (r: Statement)
    ensures
        r@ == list_memories_statement(
            row_limit(params.limit, 50),
            opt_text(params.scope),
            opt_text(params.category),
            opt_text(params.agent_id),
            opt_text(params.run_id),
            opt_text(params.skill_id),
            opt_text(params.tag),
        ),
{
    list_memories(
        limit_rows(params.limit, 50),
        borrowed(&params.scope),
        borrowed(&params.category),
        borrowed(&params.agent_id),
        borrowed(&params.run_id),
        borrowed(&params.skill_id),
        borrowed(&params.tag),
    )
}

/// The answer to a question for memories.
pub fn memories_listed(found: Result<&Vec<MemoryRow>, &str>) -> (r: Value)
    ensures
        value_tree(r) == (match found {
            Ok(rows) => counted("memories"@, memory_trees(rows@, true)),
            Err(error) => failure(error@),
        }),
{
    match found {
        Ok(rows) => Fields::new().with("memories", memory_list(rows, true)).with(
            "count",
            uint(rows.len() as u64),
        ).done(),
        Err(error) => fail(error),
    }
}

/// The events on a change of a memory, for all kernel agents and the dashboard.
pub open spec fn memory_news(action: Seq<char>, memory_id: Seq<char>) -> Seq<EmissionView> {
    seq![
        room_event(ROOM_KERNEL@, MEMORY_CHANGED@, memory_change(action, memory_id)),
        room_event(
            ROOM_DASHBOARD@,
            DASHBOARD_EVENT@,
            notice(MEMORY_CHANGED@, memory_change(action, memory_id)),
        ),
    ]
}

fn tell_memory_news(action: &str, memory_id: &str) -> (r: Vec<Emission>)
    ensures
        emissions(r@) == memory_news(action@, memory_id@),
{
    let change = Fields::new().text("action", action).text("memory_id", memory_id).done();
    let told = notice_value(MEMORY_CHANGED, &change);
    let r = vec![
        to_room(ROOM_KERNEL, MEMORY_CHANGED, change),
        to_room(ROOM_DASHBOARD, DASHBOARD_EVENT, told),
    ];
    assert(emissions(r@) =~= memory_news(action@, memory_id@));
    r
}

fn reply_without_news(ack: Value) -> (r: Reply)
    ensures
        r@ == (ReplyView { ack: value_tree(ack), events: Seq::empty() }),
{
    let events: Vec<Emission> = Vec::new();
    assert(emissions(events@) =~= Seq::empty());
    Reply { ack, events }
}

/// Handles a request to create a memory.
pub fn memory_create_handler(body: &Value) -> (r: MemoryRequest)
    ensures
        is_requested_memory(r.memory@, value_tree(*body)),
        r.statement@ == crate::memory_db::create_memory_statement(r.memory@),
        tier_entries(r.tiers@) == tiers_of(value_tree(*body)),
        opt_text(r.task_id) == value_tree(*body).get_filled("task_id"@),
{
    on_memory_store(body)
}

/// The answer to a request to create a memory, given the memory or the error.
pub fn memory_created(stored: Result<&MemoryRow, &str>) -> (r: Reply)
    ensures
        r@ == (match stored {
            Ok(row) => (ReplyView {
                ack: granted().with("memory"@, memory_json(row@, true)),
                events: memory_news("created"@, row@.id),
            }),
            Err(error) => refused(error@),
        }),
{
    match stored {
        Ok(row) => Reply {
            ack: grant().with("memory", memory_row_to_json(row, true)).done(),
            events: tell_memory_news("created", row.id.as_str()),
        },
        Err(error) => reply_without_news(refuse(error)),
    }
}

/// The number of memories that a search gives: the lowest 32 bits of the number that
/// it asks for.
pub open spec fn search_limit(body: JsonTree) -> u32 {
    match body.get_uint("limit"@) {
        Some(n) => (n % 0x1_0000_0000) as u32,
        None => 20,
    }
}

/// Handles a request to search for memories.
pub fn memory_search_handler(body: &Value) -> (r: Statement)
    ensures
        r@ == search_memories_statement(
            text_or(value_tree(*body).get_text("query"@), ""@),
            search_limit(value_tree(*body)),
            value_tree(*body).get_text("scope"@),
            value_tree(*body).get_text("category"@),
            value_tree(*body).get_text("agent_id"@),
            value_tree(*body).get_text("tier"@),
        ),
{
    let limit: u32 = match get_uint(body, "limit") {
        Some(n) => (n % 0x1_0000_0000) as u32,
        None => 20,
    };
    search_memories(
        text_or_else(body, "query", ""),
        limit,
        get_text(body, "scope"),
        get_text(body, "category"),
        get_text(body, "agent_id"),
        get_text(body, "tier"),
    )
}

/// The numbers of memories as JSON, by scope. The last number of a scope counts.
pub open spec fn scope_stats(counts: Seq<ScopeCount>) -> JsonTree
    decreases counts.len(),
{
    if counts.len() == 0 {
        JsonTree::empty()
    } else {
        scope_stats(counts.drop_last()).with(
            counts.last()@.scope,
            int_tree(counts.last()@.count),
        )
    }
}

/// The answer to a question for the numbers of memories.
pub fn memory_stats_handler(found: Result<&Vec<ScopeCount>, &str>) -> (r: Value)
    ensures
        value_tree(r) == (match found {
            Ok(counts) => JsonTree::empty().with("stats"@, scope_stats(counts@)),
            Err(error) => failure(error@),
        }),
{
    match found {
        Ok(counts) => {
            let mut stats = Fields::new();
            let mut i: usize = 0;
            assert(counts@.take(0) =~= Seq::<ScopeCount>::empty());
            while i < counts.len()
                invariant
                    i <= counts@.len(),
                    stats@ is Object,
                    stats@ == scope_stats(counts@.take(i as int)),
                decreases counts@.len() - i,
            {
                let item = &counts[i];
                assert(counts@.take(i + 1).drop_last() =~= counts@.take(i as int));
                stats = stats.with(item.scope.as_str(), signed(item.count));
                i += 1;
            }
            assert(counts@.take(i as int) =~= counts@);
            Fields::new().with("stats", stats.done()).done()
        },
        Err(error) => fail(error),
    }
}

/// A memory as JSON, with the tiers and the tasks that the database gave.
pub open spec fn memory_detail(
    memory: JsonTree,
    tiers: Option<Seq<JsonTree>>,
    task_ids: Option<Seq<JsonTree>>,
) -> JsonTree {
    let a = match tiers {
        Some(items) => memory.with("tiers"@, JsonTree::List(items)),
        None => memory,
    };
    match task_ids {
        Some(items) => a.with("task_ids"@, JsonTree::List(items)),
        None => a,
    }
}

/// The answer to a question for a memory, with the tiers and the tasks where the
/// database gave them.
pub fn memory_get_handler(
    found: Result<Option<&MemoryRow>, &str>,
    tiers: Option<&Vec<MemoryTierRow>>,
    task_ids: Option<&Vec<String>>,
) -> (r: Value)
    ensures
        value_tree(r) == (match found {
            Ok(Some(row)) => JsonTree::empty().with(
                "memory"@,
                memory_detail(
                    memory_json(row@, true),
                    match tiers {
                        Some(rows) => Some(tier_trees(rows@)),
                        None => None,
                    },
                    match task_ids {
                        Some(ids) => Some(text_trees(texts(ids@))),
                        None => None,
                    },
                ),
            ),
            Ok(None) => failure("not found"@),
            Err(error) => failure(error@),
        }),
{
    match found {
        Ok(Some(row)) => {
            let plain = memory_row_to_json(row, true);
            let tiered = match tiers {
                Some(rows) => set_member(plain, "tiers", tier_list(rows)),
                None => plain,
            };
            let whole = match task_ids {
                Some(ids) => set_member(tiered, "task_ids", text_list(ids)),
                None => tiered,
            };
            Fields::new().with("memory", whole).done()
        },
        Ok(None) => fail("not found"),
        Err(error) => fail(error),
    }
}

/// The answer to a request to change a memory, given what was found of it
/// afterwards, with the error where the database failed.
pub fn memory_changed(memory_id: &str, found: Result<Option<&MemoryRow>, &str>) -> (r: Reply)
    ensures
        r@ == (match found {
            Ok(Some(row)) => (ReplyView {
                ack: granted().with("memory"@, memory_json(row@, true)),
                events: memory_news("updated"@, memory_id@),
            }),
            Ok(None) => refused("not found"@),
            Err(error) => refused(error@),
        }),
{
    match found {
        Ok(Some(row)) => Reply {
            ack: grant().with("memory", memory_row_to_json(row, true)).done(),
            events: tell_memory_news("updated", memory_id),
        },
        Ok(None) => reply_without_news(refuse("not found")),
        Err(error) => reply_without_news(refuse(error)),
    }
}

/// The answer to a request to delete a memory, given whether a memory was deleted.
pub fn memory_delete_handler(memory_id: &str, deleted: Result<bool, &str>) -> (r: Reply)
    ensures
        r@ == (match deleted {
            Ok(true) => (ReplyView {
                ack: granted(),
                events: memory_news("deleted"@, memory_id@),
            }),
            Ok(false) => refused("not found"@),
            Err(error) => refused(error@),
        }),
{
    match deleted {
        Ok(done) => if done {
            Reply { ack: grant().done(), events: tell_memory_news("deleted", memory_id) }
        } else {
            reply_without_news(refuse("not found"))
        },
        Err(error) => reply_without_news(refuse(error)),
    }
}

/// The answer to a question for the tiers of a memory.
pub fn memory_tiers_handler(found: Result<&Vec<MemoryTierRow>, &str>) -> (r: Value)
    ensures
        value_tree(r) == (match found {
            Ok(rows) => counted("tiers"@, tier_trees(rows@)),
            Err(error) => failure(error@),
        }),
{
    match found {
        Ok(rows) => Fields::new().with("tiers", tier_list(rows)).with(
            "count",
            uint(rows.len() as u64),
        ).done(),
        Err(error) => fail(error),
    }
}

/// Handles a request to set a tier of a memory: its name and its content, or the
/// refusal.
pub fn memory_tier_upsert_handler(body: &Value) -> (r: Result<(String, String), Value>)
    ensures
        match r {
            Ok(item) => value_tree(*body).get_filled("tier"@) == Some(item.0@) && item.1@
                == text_or(value_tree(*body).get_text("content"@), ""@),
            Err(reply) => value_tree(*body).get_filled("tier"@) is None && value_tree(reply)
                == refusal("tier is required (l0, l1, or l2)"@),
        },
{
    match get_filled(body, "tier") {
        Some(tier) => Ok((tier.to_string(), text_or_else(body, "content", "").to_string())),
        None => Err(refuse("tier is required (l0, l1, or l2)")),
    }
}

/// The answer to a request to set a tier of a memory.
pub fn memory_tier_upserted(stored: Result<&MemoryTierRow, &str>) -> (r: Value)
    ensures
        value_tree(r) == (match stored {
            Ok(row) => granted().with("tier"@, tier_json(row@)),
            Err(error) => refusal(error@),
        }),
{
    match stored {
        Ok(row) => grant().with("tier", tier_row_to_json(row)).done(),
        Err(error) => refuse(error),
    }
}

/// The answer to a question for a tier of a memory.
pub fn memory_tier_get_handler(found: Result<Option<&MemoryTierRow>, &str>) -> (r: Value)
    ensures
        value_tree(r) == (match found {
            Ok(Some(row)) => JsonTree::empty().with("tier"@, tier_json(row@)),
            Ok(None) => failure("not found"@),
            Err(error) => failure(error@),
        }),
{
    match found {
        Ok(Some(row)) => Fields::new().with("tier", tier_row_to_json(row)).done(),
        Ok(None) => fail("not found"),
        Err(error) => fail(error),
    }
}

/// The answer to a request to delete a tier of a memory, given whether a tier was
/// deleted.
pub fn memory_tier_delete_handler(deleted: Result<bool, &str>) -> (r: Value)
    ensures
        value_tree(r) == (match deleted {
            Ok(true) => granted(),
            Ok(false) => refusal("not found"@),
            Err(error) => refusal(error@),
        }),
{
    match deleted {
        Ok(done) => if done {
            grant().done()
        } else {
            refuse("not found")
        },
        Err(error) => refuse(error),
    }
}

/// The answer to a question for the tasks that a memory is bound to.
pub fn memory_tasks_handler(found: Result<&Vec<String>, &str>) -> (r: Value)
    ensures
        value_tree(r) == (match found {
            Ok(ids) => counted("task_ids"@, text_trees(texts(ids@))),
            Err(error) => failure(error@),
        }),
{
    match found {
        Ok(ids) => Fields::new().with("task_ids", text_list(ids)).with(
            "count",
            uint(ids.len() as u64),
        ).done(),
        Err(error) => fail(error),
    }
}

/// Handles a question for the memories that are bound to a task.
pub fn task_memories_handler(task_id: &str) -> (r: Statement)
    ensures
        r@ == list_memories_for_task_statement(task_id@, 100),
{
    list_memories_for_task(task_id, 100)
}

/// Handles a request to bind a memory to a task: the memory, or the refusal.
pub fn task_memory_bind_handler(body: &Value) -> (r: Result<String, Value>)
    ensures
        match r {
            Ok(memory_id) => value_tree(*body).get_filled("memory_id"@) == Some(memory_id@),
            Err(reply) => value_tree(*body).get_filled("memory_id"@) is None && value_tree(reply)
                == refusal("memory_id is required"@),
        },
{
    match get_filled(body, "memory_id") {
        Some(memory_id) => Ok(memory_id.to_string()),
        None => Err(refuse("memory_id is required")),
    }
}

/// The answer to a request to bind a memory to a task.
pub fn task_memory_bound(done: Result<(), &str>) -> (r: Value)
    ensures
        value_tree(r) == outcome(done),
{
    answer(done)
}

} // verus!
