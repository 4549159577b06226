//! Recurring jobs of the system.

use crate::events::{
    Emission, KING_CONFIG_UPDATE, PIPELINE_NEXT, public_event, role_room, role_room_name, room_event,
    to_everyone, to_room,
};
use crate::history::{
    PURGE_AGENT_HISTORY, PURGE_SOCKET_EVENTS, purge_agent_history, purge_socket_events,
};
use crate::json::{Fields, JsonTree};
use crate::sql::{Statement, StatementView};
use crate::stamp::{Instant, is_time, is_uuid, new_id, utc_text};
use crate::task_db::{
    CronJobRow, CronJobView, PipelineRow, create_pipeline_stage, create_pipeline_stage_statement,
    is_new_stage, update_cron_run, update_cron_with_statement, upsert_cron_job,
    upsert_cron_with_statement,
};
use crate::text::{concat2, concat4, opt_str, same, text_or};
use vstd::prelude::*;

verus! {

/// Name of the job that looks for new versions.
pub const DAILY_UPDATE_CHECK: &'static str = "daily_update_check";

/// Name of the job that has the agents look after the gateway.
pub const GATEWAY_HEALTH_CHECK: &'static str = "gateway_health_check";

/// Name of the job that deletes old events of the sockets.
pub const SOCKET_EVENT_PURGE: &'static str = "socket_event_purge";

/// Name of the job that deletes old changes of the status of agents.
pub const AGENT_HISTORY_PURGE: &'static str = "agent_history_purge";

/// Metadata of a stage that no earlier stage handed anything to.
pub const NO_METADATA: &'static str = "{}";

/// A job of the system: its name, its schedule, and the seconds between two runs.
pub struct SystemCron {
    pub name: &'static str,
    pub schedule: &'static str,
    pub interval_secs: u64,
}

/// What each of a list of jobs holds.
pub open spec fn cron_views(items: Seq<SystemCron>) -> Seq<(Seq<char>, Seq<char>, u64)> {
    items.map_values(|item: SystemCron| (item.name@, item.schedule@, item.interval_secs))
}

/// The jobs of the system.
pub open spec fn cron_table() -> Seq<(Seq<char>, Seq<char>, u64)> {
    seq![
        (DAILY_UPDATE_CHECK@, "0 0 * * *"@, 86400),
        (GATEWAY_HEALTH_CHECK@, "0 * * * *"@, 3600),
        (SOCKET_EVENT_PURGE@, "0 0 * * *"@, 86400),
        (AGENT_HISTORY_PURGE@, "0 0 * * *"@, 86400),
    ]
}

/// The jobs of the system: the check of the gateway runs each hour, the others each
/// day.
pub fn system_crons() -> (r: Vec<SystemCron>)
    ensures
        cron_views(r@) == cron_table(),
{
    let r = vec![
        SystemCron { name: DAILY_UPDATE_CHECK, schedule: "0 0 * * *", interval_secs: 86400 },
        SystemCron { name: GATEWAY_HEALTH_CHECK, schedule: "0 * * * *", interval_secs: 3600 },
        SystemCron { name: SOCKET_EVENT_PURGE, schedule: "0 0 * * *", interval_secs: 86400 },
        SystemCron { name: AGENT_HISTORY_PURGE, schedule: "0 0 * * *", interval_secs: 86400 },
    ];
    assert(cron_views(r@) =~= cron_table());
    r
}

/// The statement that stores a job of the system, which is enabled.
pub fn init_system_cron(cron: &SystemCron) -> (r: Statement)
    ensures
        exists|id: Seq<char>, now: Seq<char>|
            #![trigger is_uuid(id), is_time(now)]
            is_uuid(id) && is_time(now) && r@ == upsert_cron_with_statement(
                id,
                now,
                cron.name@,
                cron.schedule@,
                1,
            ),
{
    upsert_cron_job(cron.name, cron.schedule, true)
}

/// Whether the first job with a name is enabled; false where there is none.
pub open spec fn enabled_among(jobs: Seq<CronJobView>, name: Seq<char>) -> bool
    decreases jobs.len(),
{
    if jobs.len() == 0 {
        false
    } else if jobs[0].name == name {
        jobs[0].enabled
    } else {
        enabled_among(jobs.drop_first(), name)
    }
}

/// What a list of jobs holds.
pub open spec fn job_views(jobs: Seq<CronJobRow>) -> Seq<CronJobView> {
    jobs.map_values(|job: CronJobRow| job@)
}

/// Whether a job is to run: the first job with its name is enabled.
pub fn is_enabled(jobs: &Vec<CronJobRow>, name: &str) -> (r: bool)
    ensures
        r == enabled_among(job_views(jobs@), name@),
{
    let ghost all = job_views(jobs@);
    let mut i: usize = 0;
    assert(all.skip(0) =~= all);
    while i < jobs.len()
        invariant
            i <= jobs@.len(),
            all == job_views(jobs@),
            enabled_among(all.skip(i as int), name@) == enabled_among(all, name@),
        decreases jobs@.len() - i,
    {
        let ghost rest = all.skip(i as int);
        assert(rest[0] == jobs@[i as int]@);
        if same(jobs[i].name.as_str(), name) {
            return jobs[i].enabled;
        }
        assert(rest.drop_first() =~= all.skip(i + 1));
        i += 1;
    }
    false
}

/// What a job does.
pub enum CronAction {
    /// Send an event to the agent that updates, and then record the stage.
    UpdateCheck { emission: Emission, statement: Statement, stage: PipelineRow },
    /// Send an event to all agents.
    GatewayHealth { emission: Emission },
    /// Delete old records.
    Purge { statement: Statement },
    /// There is no such job.
    Nothing,
}

/// The payload of the event that asks for an update check.
pub open spec fn update_check_payload(run_id: Seq<char>) -> JsonTree {
    JsonTree::empty().text("run_id"@, run_id).text("stage"@, "update"@).text(
        "artifact_id"@,
        ""@,
    ).with(
        "metadata"@,
        JsonTree::empty().text("trigger"@, "cron"@).text("cron_job"@, DAILY_UPDATE_CHECK@),
    )
}

/// The payload of the event that asks for a check of the gateway.
pub open spec fn gateway_health_payload() -> JsonTree {
    JsonTree::empty().text("trigger"@, "cron"@).text("reason"@, "hourly_health_check"@)
}

/// What the job with a name does. The job that looks for new versions starts a run
/// of its own.
pub fn dispatch_cron_job(name: &str) -> (r: CronAction)
    ensures
        if name@ == DAILY_UPDATE_CHECK@ {
            r matches CronAction::UpdateCheck { emission, statement, stage } && {
                &&& is_uuid(stage@.run_id)
                &&& is_new_stage(stage@, stage@.run_id, "update"@, ""@, NO_METADATA@)
                &&& statement@ == create_pipeline_stage_statement(stage@)
                &&& emission@ == room_event(
                    role_room_name("update"@),
                    PIPELINE_NEXT@,
                    update_check_payload(stage@.run_id),
                )
            }
        } else if name@ == GATEWAY_HEALTH_CHECK@ {
            r matches CronAction::GatewayHealth { emission } && emission@ == public_event(
                KING_CONFIG_UPDATE@,
                gateway_health_payload(),
            )
        } else if name@ == SOCKET_EVENT_PURGE@ {
            r matches CronAction::Purge { statement } && exists|now: Instant| #[trigger]
                now.valid() && now.secs >= 0 && utc_text(
                    (now.secs - 604800) as i64,
                    now.nanos,
                ) is Some && statement@ == StatementView::of(PURGE_SOCKET_EVENTS@).text(
                    utc_text((now.secs - 604800) as i64, now.nanos)->0,
                )
        } else if name@ == AGENT_HISTORY_PURGE@ {
            r matches CronAction::Purge { statement } && exists|now: Instant| #[trigger]
                now.valid() && now.secs >= 0 && utc_text(
                    (now.secs - 2592000) as i64,
                    now.nanos,
                ) is Some && statement@ == StatementView::of(PURGE_AGENT_HISTORY@).text(
                    utc_text((now.secs - 2592000) as i64, now.nanos)->0,
                )
        } else {
            r is Nothing
        },
{
    if same(name, DAILY_UPDATE_CHECK) {
        let run_id = new_id();
        let (statement, stage) = create_pipeline_stage(run_id.as_str(), "update", "", NO_METADATA);
        let metadata = Fields::new().text("trigger", "cron").text(
            "cron_job",
            DAILY_UPDATE_CHECK,
        ).done();
        let payload = Fields::new().text("run_id", run_id.as_str()).text("stage", "update").text(
            "artifact_id",
            "",
        ).with("metadata", metadata).done();
        let room = role_room("update");
        CronAction::UpdateCheck {
            emission: to_room(room.as_str(), PIPELINE_NEXT, payload),
            statement,
            stage,
        }
    } else if same(name, GATEWAY_HEALTH_CHECK) {
        let payload = Fields::new().text("trigger", "cron").text(
            "reason",
            "hourly_health_check",
        ).done();
        CronAction::GatewayHealth { emission: to_everyone(KING_CONFIG_UPDATE, payload) }
    } else if same(name, SOCKET_EVENT_PURGE) {
        CronAction::Purge { statement: purge_socket_events() }
    } else if same(name, AGENT_HISTORY_PURGE) {
        CronAction::Purge { statement: purge_agent_history() }
    } else {
        CronAction::Nothing
    }
}

/// The error of a job whose event could not be sent or whose statement failed; none for
/// a job that does nothing.
pub fn dispatch_error(action: &CronAction, error: &str) -> (r: Option<String>)
    ensures
        match action {
            CronAction::UpdateCheck { .. } => r is Some && r->0@
                == "failed to emit pipeline:next to "@ + role_room_name("update"@) + ": "@ + error@,
            CronAction::GatewayHealth { .. } => r is Some && r->0@
                == "failed to broadcast king:config_update: "@ + error@,
            CronAction::Purge { .. } => r is Some && r->0@ == "failed to purge old records: "@
                + error@,
            CronAction::Nothing => r is None,
        },
{
    match action {
        CronAction::UpdateCheck { .. } => {
            let room = role_room("update");
            Some(concat4("failed to emit pipeline:next to ", room.as_str(), ": ", error))
        },
        CronAction::GatewayHealth { .. } => Some(
            concat2("failed to broadcast king:config_update: ", error),
        ),
        CronAction::Purge { .. } => Some(concat2("failed to purge old records: ", error)),
        CronAction::Nothing => None,
    }
}

/// The statement that records that a job has run, with its error where it failed.
pub fn record_run(name: &str, error: Option<&str>) -> (r: Statement)
    ensures
        exists|now: Seq<char>| #[trigger]
            is_time(now) && r@ == update_cron_with_statement(
                now,
                name@,
                if error is Some {
                    "error"@
                } else {
                    "ok"@
                },
                text_or(opt_str(error), ""@),
                ""@,
            ),
{
    let status = match error {
        Some(_) => "error",
        None => "ok",
    };
    update_cron_run(name, status, error, None)
}

} // verus!
