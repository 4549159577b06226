//! What the doctor, the discovery of the system, the cron jobs and the answers of the
//! API say, in terms of what was seen and asked for.

use crate::agent_manager::{
    AgentProcess, EntryView, FolderView, Heartbeat, RespawnView, after_attempt_view, agents_among,
    binary_name, first_folder, first_of_role, folder_role, heartbeat_of, names_role, role_heartbeat,
};
use crate::api::{
    EventsQuery, asked_events, config_answer, counted, failure, last_of, memory_detail, memory_news,
    models_url_of, outcome, row_limit, row_offset, scope_stats, search_limit, trigger_of,
};
use crate::cron_manager::{cron_table, enabled_among, gateway_health_payload, update_check_payload};
use crate::debug::{TerminalFault, fault_name, terminal_env};
use crate::doctor::{
    CheckView, ProbeView, RepairView, Seen, doctor_probes, kernel_agent_table, padded, repo_table,
    result_text, verdict, wanted_repair,
};
use crate::events::{TargetView, public_event};
use crate::history::{Direction, records_change, records_event, stores_registration, target_room};
use crate::json::{JsonTree, compact_text, int_tree, parsed_tree, texts_among};
use crate::memory_db::{MemoryView, ScopeCount, is_new_memory};
use crate::message_laws::to_room_of;
use crate::paths::{expanded, joined_path};
use crate::pipeline_coordinator::{first_present, update_scripts};
use crate::records::{brief_tier_json, memory_json};
use crate::socket_server::{FoundMemory, found_json, registered_pid};
use crate::sql::{Column, SqlCell, StatementView, count_of, fits};
use crate::stamp::{Instant, is_time, is_uuid, seconds_between};
use crate::steps::{StepView, stops_with};
use crate::system_discovery::{
    ChecklistStatus, ComponentView, ToolStatus, ToolView, absent_tool, available_tool, checklist_of,
    component_paths, component_view, first_beginning, macos_bytes, memory_kb, pretty_name,
    tool_table, tools_in_order, version_of, version_source,
};
use crate::task_db::{
    AgentMetadataView, AgentView, CronJobView, PipelineView, TaskLogView, TaskView, is_new_log,
    is_new_stage, is_new_task, joined_logs, model_of, pid_or_zero, pipeline_query, spawn_error_note,
    task_query,
};
use crate::text::{
    decimal, has_part, in_order, lines, occurs_at, opt_text, replaced, text_or, trimmed, unled,
    untrailed, words,
};
use crate::text_laws::law_decimals_read_back;
use crate::trace_api::{trace_limit, trace_offset};
use crate::trace_db::{
    ResourceView, SpanView, request_statements, resource_statements, scope_statements, service_name,
    span_statement, trace_statement,
};
use crate::trace_receiver::{export_of, json_request, protobuf_request};
use vstd::prelude::*;

verus! {

// The doctor.

/// The doctor first looks for the home with its directories and for the two services, then
/// for the agents, the config files, the repositories and the gateway.
#[verifier::rlimit(60)]
pub proof fn law_the_doctor_looks_at_the_home(home: Seq<char>)
    ensures
        doctor_probes(home).len() == 45,
        doctor_probes(home)[0] == (ProbeView::Dir { path: home }),
        doctor_probes(home)[1] == (ProbeView::Dir { path: joined_path(home, "bin"@) }),
        doctor_probes(home)[2] == (ProbeView::Dir { path: joined_path(home, "data"@) }),
        doctor_probes(home)[3] == (ProbeView::Dir { path: joined_path(home, "data/backups"@) }),
        doctor_probes(home)[4] == (ProbeView::Dir { path: joined_path(home, "logs"@) }),
        doctor_probes(home)[5] == (ProbeView::Dir { path: joined_path(home, "repos"@) }),
        doctor_probes(home)[6] == (ProbeView::Binary { path: joined_path(home, "bin/evo-king"@) }),
        doctor_probes(home)[7]
            == (ProbeView::Binary { path: joined_path(home, "bin/evo-gateway"@) }),
        doctor_probes(home)[32]
            == (ProbeView::File { path: joined_path(home, "data/gateway.json"@) }),
        doctor_probes(home)[33] == (ProbeView::File { path: joined_path(home, "repos.json"@) }),
        doctor_probes(home)[44] == ProbeView::Gateway,
{
    reveal_with_fuel(crate::doctor::all_agent_probes, 7);
    let t = kernel_agent_table();
    assert(t.len() == 6);
    assert(t.drop_last().len() == 5);
    assert(t.drop_last().drop_last().len() == 4);
    assert(t.drop_last().drop_last().drop_last().len() == 3);
    assert(t.drop_last().drop_last().drop_last().drop_last().len() == 2);
    assert(t.drop_last().drop_last().drop_last().drop_last().drop_last().len() == 1);
    assert(t.drop_last().drop_last().drop_last().drop_last().drop_last().drop_last().len() == 0);
}

/// Each repository is looked for below the directory of the repositories, under its name.
#[verifier::rlimit(60)]
pub proof fn law_the_doctor_looks_at_each_repository(home: Seq<char>, k: int)
    requires
        0 <= k < 10,
    ensures
        doctor_probes(home)[34 + k] == (ProbeView::Repo {
            name: repo_table()[k],
            path: joined_path(joined_path(home, "repos"@), repo_table()[k]),
        }),
        repo_table() == seq![
            "evo-common"@,
            "evo-king"@,
            "evo-gateway"@,
            "evo-agents"@,
            "evo-kernel-agent-learning"@,
            "evo-kernel-agent-building"@,
            "evo-kernel-agent-pre-load"@,
            "evo-kernel-agent-evaluation"@,
            "evo-kernel-agent-skill-manage"@,
            "evo-kernel-agent-update"@,
        ],
{
    law_the_doctor_looks_at_the_home(home);
    reveal_with_fuel(crate::doctor::all_agent_probes, 7);
    let t = kernel_agent_table();
    assert(t.len() == 6);
    assert(t.drop_last().len() == 5);
    assert(t.drop_last().drop_last().len() == 4);
    assert(t.drop_last().drop_last().drop_last().len() == 3);
    assert(t.drop_last().drop_last().drop_last().drop_last().len() == 2);
    assert(t.drop_last().drop_last().drop_last().drop_last().drop_last().len() == 1);
    assert(t.drop_last().drop_last().drop_last().drop_last().drop_last().drop_last().len() == 0);
}

proof fn lemma_agent_probes(home: Seq<char>, agents: Seq<(Seq<char>, Seq<char>)>, k: int)
    requires
        0 <= k < agents.len(),
    ensures
        crate::doctor::all_agent_probes(home, agents).len() == 4 * agents.len(),
        crate::doctor::all_agent_probes(home, agents).subrange(4 * k, 4 * k + 4)
            == crate::doctor::agent_probes(home, agents[k]),
    decreases agents.len(),
{
    let rest = agents.drop_last();
    let before = crate::doctor::all_agent_probes(home, rest);
    let own = crate::doctor::agent_probes(home, agents.last());
    let all = crate::doctor::all_agent_probes(home, agents);
    assert(own.len() == 4);
    if rest.len() > 0 {
        lemma_agent_probes(home, rest, if k < rest.len() { k } else { 0 });
    } else {
        assert(before.len() == 0);
    }
    if k < rest.len() {
        assert(all.subrange(4 * k, 4 * k + 4) =~= before.subrange(4 * k, 4 * k + 4));
    } else {
        assert(all.subrange(4 * k, 4 * k + 4) =~= own);
    }
}

/// For each agent of a kernel role the doctor looks for its folder, its binary in the
/// folder, its soul and its skills.
#[verifier::rlimit(40)]
pub proof fn law_the_doctor_looks_at_each_agent(home: Seq<char>, k: int)
    requires
        0 <= k < 6,
    ensures
        ({
            let dir = joined_path(home, kernel_agent_table()[k].0);
            &&& doctor_probes(home)[8 + 4 * k] == (ProbeView::Dir { path: dir })
            &&& doctor_probes(home)[9 + 4 * k] == (ProbeView::Binary {
                path: joined_path(dir, kernel_agent_table()[k].1),
            })
            &&& doctor_probes(home)[10 + 4 * k] == (ProbeView::File {
                path: joined_path(dir, "soul.md"@),
            })
            &&& doctor_probes(home)[11 + 4 * k] == (ProbeView::Dir {
                path: joined_path(dir, "skills"@),
            })
        }),
        kernel_agent_table().len() == 6,
        kernel_agent_table()[0] == ("evo-kernel-agent-learning"@, "evo-agent-learning"@),
        kernel_agent_table()[1] == ("evo-kernel-agent-building"@, "evo-agent-building"@),
        kernel_agent_table()[2] == ("evo-kernel-agent-pre-load"@, "evo-agent-pre-load"@),
        kernel_agent_table()[3] == ("evo-kernel-agent-evaluation"@, "evo-agent-evaluation"@),
        kernel_agent_table()[4] == ("evo-kernel-agent-skill-manage"@, "evo-agent-skill-manage"@),
        kernel_agent_table()[5] == ("evo-kernel-agent-update"@, "evo-agent-update"@),
{
    lemma_agent_probes(home, kernel_agent_table(), k);
    let all = crate::doctor::all_agent_probes(home, kernel_agent_table());
    let own = crate::doctor::agent_probes(home, kernel_agent_table()[k]);
    assert(own[0] == all[4 * k] && own[1] == all[4 * k + 1]);
    assert(own[2] == all[4 * k + 2] && own[3] == all[4 * k + 3]);
    assert(crate::doctor::base_probes(home).len() == 8);
}

/// A check passes where what it is about is there, can be run if it is a binary, or was
/// repaired on demand. It is named after what it is about.
pub proof fn law_checks_pass_where_all_is_there(probe: ProbeView, fix: bool, seen: Seen)
    ensures
        verdict(probe, fix, seen).passed <==> match probe {
            ProbeView::Dir { .. } => seen.present || (fix && seen.repaired),
            ProbeView::Binary { .. } => seen.present && seen.executable,
            ProbeView::File { .. } => seen.present,
            ProbeView::Repo { .. } => seen.present || (fix && seen.repaired),
            ProbeView::Gateway => seen.present,
        },
        verdict(probe, fix, seen).name == match probe {
            ProbeView::Dir { path } => path,
            ProbeView::Binary { path } => path,
            ProbeView::File { path } => path,
            ProbeView::Repo { name, .. } => "repos/"@ + name,
            ProbeView::Gateway => "gateway:3301/health"@,
        },
        verdict(probe, fix, seen).fixable <==> !seen.present && (probe is Dir || probe is Repo),
        verdict(probe, fix, seen).message == match probe {
            ProbeView::Dir { .. } => if seen.present {
                "exists"@
            } else if !fix {
                "missing"@
            } else if seen.repaired {
                "created"@
            } else {
                "failed to create"@
            },
            ProbeView::Binary { .. } => if !seen.present {
                "missing (run install.sh to download)"@
            } else if seen.executable {
                "executable"@
            } else {
                "exists but not executable"@
            },
            ProbeView::File { .. } => if seen.present {
                "exists"@
            } else {
                "missing"@
            },
            ProbeView::Repo { .. } => if seen.present {
                "exists"@
            } else if fix && seen.repaired {
                "cloned"@
            } else {
                "missing (run with --fix to clone)"@
            },
            ProbeView::Gateway => if seen.present {
                "reachable"@
            } else {
                "not reachable (start gateway first)"@
            },
        },
{
}

/// A repair makes the directory that is missing, or clones the repository that is missing
/// to where it was looked for; there is none for anything else or where nothing is missing.
pub proof fn law_repairs_mend_what_is_missing(probe: ProbeView, present: bool)
    ensures
        wanted_repair(probe, true, true) is None,
        wanted_repair(probe, false, present) is None,
        probe matches ProbeView::Dir { path } ==> wanted_repair(probe, true, false) == Some(
            RepairView::MakeDir { path },
        ),
        probe matches ProbeView::Repo { name, path } ==> wanted_repair(probe, true, false) == Some(
            RepairView::Clone {
                url: "https://github.com/ai-evo-agents/"@ + name + ".git"@,
                path,
            },
        ),
        !(probe is Dir) && !(probe is Repo) ==> wanted_repair(probe, true, present) is None,
{
}

/// The line of a result says whether the check passed, its name and then its message; names
/// that are short are filled up with blanks.
pub proof fn law_results_say_whether_they_passed(item: CheckView)
    ensures
        result_text(item) == (if item.passed {
            "  \u{2714} [  OK] "@
        } else {
            "  \u{2718} [FAIL] "@
        }) + padded(item.name, 45) + " "@ + item.message,
        item.name.is_prefix_of(padded(item.name, 45)),
        item.name.len() <= 45 ==> padded(item.name, 45).len() == 45,
        item.name.len() > 45 ==> padded(item.name, 45) == item.name,
        forall|i: int|
            item.name.len() <= i < padded(item.name, 45).len() ==> #[trigger] padded(
                item.name,
                45,
            )[i] == ' ',
{
}

// What is discovered.

/// A tool that answers is available with the version that it tells, on its standard output
/// or, where that is blank, on its error output; one that does not is suggested with a
/// reason or not found.
pub proof fn law_tools_are_what_was_seen(
    name: Seq<char>,
    category: Seq<char>,
    stdout: Seq<char>,
    stderr: Seq<char>,
    path: Option<Seq<char>>,
    reason: Seq<char>,
)
    ensures
        ({
            let tool = available_tool(name, category, version_source(stdout, stderr), path);
            &&& tool.name == name && tool.category == category && tool.path == path
            &&& tool.status == ToolStatus::Available
            &&& tool.suggestion_reason is None
            &&& trimmed(stdout).len() > 0 ==> tool.version == Some(version_of(stdout))
            &&& trimmed(stdout).len() == 0 ==> tool.version == Some(version_of(stderr))
        }),
        ({
            let tool = absent_tool(name, category, true, reason);
            &&& tool.name == name && tool.category == category && tool.path is None
            &&& tool.version is None
            &&& tool.status == ToolStatus::Suggested
            &&& tool.suggestion_reason == Some(reason)
        }),
        ({
            let tool = absent_tool(name, category, false, reason);
            &&& tool.name == name && tool.category == category && tool.path is None
            &&& tool.version is None
            &&& tool.status == ToolStatus::NotFound
            &&& tool.suggestion_reason is None
        }),
{
}

/// Each status is written as its name.
pub proof fn law_labels_of_tools()
    ensures
        ToolStatus::Available.label() == "available"@,
        ToolStatus::NotFound.label() == "not_found"@,
        ToolStatus::Suggested.label() == "suggested"@,
        ChecklistStatus::Pass.label() == "pass"@,
        ChecklistStatus::Fail.label() == "fail"@,
        ChecklistStatus::Suggested.label() == "suggested"@,
{
}

/// Each tool is asked for its version. Those that are suggested where they are missing have
/// a reason, and no others have one.
pub proof fn law_tools_are_asked_for_their_version(i: int)
    requires
        0 <= i < 14,
    ensures
        tool_table().len() == 14,
        tool_table()[i].version_args.last() == "--version"@,
        tool_table()[i].suggested <==> tool_table()[i].suggestion_reason.len() > 0,
        tool_table()[i].name == "cargo-clippy"@ || tool_table()[i].name == "cargo-fmt"@
            || tool_table()[i].command == tool_table()[i].name,
{
    reveal_strlit("");
    reveal_strlit("Required for building evo agents");
    reveal_strlit("Recommended for Rust toolchain management");
    reveal_strlit("Required for evo-dashboard");
    reveal_strlit("Required for repo cloning and updates");
    reveal_strlit("Required for fast code search in agents");
}

/// A component that is found has its path, and its version where it tells one; one that is
/// not found has neither.
pub proof fn law_components_are_what_was_seen(name: Seq<char>, path: Seq<char>, raw: Seq<char>)
    ensures
        component_view(name, path, true, Some(raw))
            == (ComponentView { name, binary_path: Some(path), version: Some(version_of(raw)),
                found: true }),
        component_view(name, path, true, None)
            == (ComponentView { name, binary_path: Some(path), version: None, found: true }),
        component_view(name, path, false, Some(raw))
            == (ComponentView { name, binary_path: None, version: None, found: false }),
        component_view(name, path, false, None)
            == (ComponentView { name, binary_path: None, version: None, found: false }),
{
}

/// The services are looked for in the directory of the binaries, and each kernel agent in
/// its folder.
pub proof fn law_components_are_looked_for_in_the_home(evo_home: Seq<char>, k: int)
    ensures
        component_paths(evo_home).len() == 9,
        component_paths(evo_home)[0] == ("evo-king"@, evo_home + "/bin/"@ + "evo-king"@),
        component_paths(evo_home)[1] == ("evo-gateway"@, evo_home + "/bin/"@ + "evo-gateway"@),
        component_paths(evo_home)[2] == ("evo-runner"@, evo_home + "/bin/"@ + "evo-runner"@),
        0 <= k < 6 ==> component_paths(evo_home)[3 + k] == (
            kernel_agent_table()[k].0,
            evo_home + "/"@ + kernel_agent_table()[k].0 + "/"@ + kernel_agent_table()[k].1,
        ),
{
}

/// The checklist begins with the home, which passes where it is a directory. Then it has
/// each tool, which passes where it is available and fails where it is not found, and each
/// component, which passes where it is found. An item tells the version where there is one.
pub proof fn law_the_checklist_says_what_was_seen(
    evo_home: Seq<char>,
    is_dir: bool,
    tools: Seq<ToolView>,
    components: Seq<ComponentView>,
    i: int,
)
    ensures
        ({
            let item = checklist_of(evo_home, is_dir, tools, components)[0];
            &&& item.name == "evo_home_exists"@ && item.message == evo_home
            &&& item.status == ChecklistStatus::Pass <==> is_dir
            &&& item.status == ChecklistStatus::Fail <==> !is_dir
        }),
        0 <= i < tools.len() ==> {
            let item = checklist_of(evo_home, is_dir, tools, components)[1 + i];
            &&& item.name == "tool:"@ + tools[i].name
            &&& item.status == ChecklistStatus::Pass <==> tools[i].status == ToolStatus::Available
            &&& item.status == ChecklistStatus::Fail <==> tools[i].status == ToolStatus::NotFound
            &&& item.status == ChecklistStatus::Suggested <==> tools[i].status
                == ToolStatus::Suggested
            &&& tools[i].version matches Some(version) ==> item.message == version
            &&& tools[i].version is None ==> item.message == "not found"@
        },
        0 <= i < components.len() ==> {
            let item = checklist_of(evo_home, is_dir, tools, components)[1 + tools.len() + i];
            &&& item.name == "evo:"@ + components[i].name
            &&& item.status == ChecklistStatus::Pass <==> components[i].found
            &&& item.status == ChecklistStatus::Fail <==> !components[i].found
            &&& components[i].version matches Some(version) ==> item.message == version
            &&& components[i].version is None && components[i].found ==> item.message
                == "found (version unknown)"@
            &&& components[i].version is None && !components[i].found ==> item.message
                == "missing"@
        },
{
}

/// Tools are ordered by their category first, and by their name within one.
pub proof fn law_tools_are_ordered_by_category(a: ToolView, b: ToolView)
    ensures
        a.category != b.category ==> (tools_in_order(a, b) <==> in_order(a.category, b.category)),
        a.category == b.category ==> (tools_in_order(a, b) <==> in_order(a.name, b.name)),
{
}

proof fn lemma_first_beginning(items: Seq<Seq<char>>, start: Seq<char>, i: int)
    requires
        0 <= i < items.len(),
        start.is_prefix_of(items[i]),
        forall|k: int| 0 <= k < i ==> !start.is_prefix_of(#[trigger] items[k]),
    ensures
        first_beginning(items, start) == i,
    decreases items.len(),
{
    if i > 0 {
        assert(!start.is_prefix_of(items[0]));
        let rest = items.drop_first();
        assert forall|k: int| 0 <= k < i - 1 implies !start.is_prefix_of(#[trigger] rest[k]) by {
            assert(rest[k] == items[k + 1]);
        }
        lemma_first_beginning(rest, start, i - 1);
    }
}

/// The name of the system is what the first line `PRETTY_NAME` has between its quotes.
pub proof fn law_the_name_of_the_system_is_found(release: Seq<char>, i: int, name: Seq<char>)
    requires
        0 <= i < lines(release).len(),
        lines(release)[i] == "PRETTY_NAME="@ + seq!['"'] + name + seq!['"'],
        forall|k: int| 0 <= k < i ==> !"PRETTY_NAME="@.is_prefix_of(#[trigger] lines(release)[k]),
        name.len() > 0,
        name[0] != '"',
        name.last() != '"',
    ensures
        pretty_name(release) == name,
{
    reveal_strlit("PRETTY_NAME=");
    let start = "PRETTY_NAME="@;
    let line = lines(release)[i];
    let quoted = seq!['"'] + name + seq!['"'];
    assert(line =~= start + quoted);
    assert(start.is_prefix_of(line));
    lemma_first_beginning(lines(release), start, i);
    assert(line.skip(start.len() as int) =~= quoted);
    assert(!start.is_prefix_of(quoted)) by {
        assert(quoted[0] == '"');
        assert(start[0] == 'P');
    }
    assert(crate::system_discovery::without_start(quoted, start) == quoted);
    assert(crate::system_discovery::without_start(line, start) == quoted);
    let open = name + seq!['"'];
    assert(quoted.drop_first() =~= open);
    assert(open[0] == name[0]);
    assert(unled(open, '"') == open);
    assert(unled(quoted, '"') == open);
    assert(open.drop_last() =~= name);
    assert(untrailed(name, '"') == name);
}

/// The memory is the number after `MemTotal:` on the first line that begins so.
pub proof fn law_the_memory_is_found(meminfo: Seq<char>, i: int, n: nat, rest: Seq<Seq<char>>)
    requires
        0 <= i < lines(meminfo).len(),
        "MemTotal:"@.is_prefix_of(lines(meminfo)[i]),
        words(lines(meminfo)[i]) == seq!["MemTotal:"@, decimal(n)] + rest,
        forall|k: int| 0 <= k < i ==> !"MemTotal:"@.is_prefix_of(#[trigger] lines(meminfo)[k]),
        n <= u64::MAX,
    ensures
        memory_kb(meminfo) == Some(n),
{
    lemma_first_beginning(lines(meminfo), "MemTotal:"@, i);
    law_decimals_read_back(n, u64::MAX as nat);
    assert(words(lines(meminfo)[i])[1] == decimal(n));
}

// Jobs and agents.

/// There are four jobs: the gateway is looked after each hour, and the others run each day.
pub proof fn law_the_jobs_of_the_system()
    ensures
        cron_table().len() == 4,
        cron_table()[0] == ("daily_update_check"@, "0 0 * * *"@, 86400u64),
        cron_table()[1] == ("gateway_health_check"@, "0 * * * *"@, 3600u64),
        cron_table()[2] == ("socket_event_purge"@, "0 0 * * *"@, 86400u64),
        cron_table()[3] == ("agent_history_purge"@, "0 0 * * *"@, 86400u64),
{
}

/// A job runs where the first job of its name is enabled, and not where there is none.
pub proof fn law_the_first_job_of_a_name_counts(jobs: Seq<CronJobView>, name: Seq<char>, i: int)
    ensures
        0 <= i < jobs.len() && jobs[i].name == name && (forall|k: int| 0 <= k < i
            ==> (#[trigger] jobs[k]).name != name) ==> enabled_among(jobs, name) == jobs[i].enabled,
        (forall|k: int| 0 <= k < jobs.len()
            ==> (#[trigger] jobs[k]).name != name) ==> !enabled_among(jobs, name),
    decreases jobs.len(),
{
    if jobs.len() > 0 {
        let rest = jobs.drop_first();
        law_the_first_job_of_a_name_counts(rest, name, i - 1);
        assert(forall|k: int| 0 <= k < rest.len() ==> (#[trigger] rest[k]) == jobs[k + 1]);
        if 0 < i < jobs.len() && jobs[i].name == name && (forall|k: int|
            0 <= k < i ==> (#[trigger] jobs[k]).name != name) {
            assert(jobs[0].name != name);
            assert(rest[i - 1] == jobs[i]);
        }
        if forall|k: int| 0 <= k < jobs.len() ==> (#[trigger] jobs[k]).name != name {
            assert(jobs[0].name != name);
        }
    }
}

/// The names are distinct.
proof fn lemma_jobs_say_what_they_ask_for_names()
    ensures
        "run_id"@ != "stage"@,
        "run_id"@ != "artifact_id"@,
        "run_id"@ != "metadata"@,
        "run_id"@ != "trigger"@,
        "run_id"@ != "cron_job"@,
        "run_id"@ != "reason"@,
        "stage"@ != "artifact_id"@,
        "stage"@ != "metadata"@,
        "stage"@ != "trigger"@,
        "stage"@ != "cron_job"@,
        "stage"@ != "reason"@,
        "artifact_id"@ != "metadata"@,
        "artifact_id"@ != "trigger"@,
        "artifact_id"@ != "cron_job"@,
        "artifact_id"@ != "reason"@,
        "metadata"@ != "trigger"@,
        "metadata"@ != "cron_job"@,
        "metadata"@ != "reason"@,
        "trigger"@ != "cron_job"@,
        "trigger"@ != "reason"@,
        "cron_job"@ != "reason"@,
{
    reveal_strlit("run_id");
    reveal_strlit("stage");
    reveal_strlit("artifact_id");
    reveal_strlit("metadata");
    reveal_strlit("trigger");
    reveal_strlit("cron_job");
    reveal_strlit("reason");
    assert("run_id"@.len() != "stage"@.len());
    assert("run_id"@.len() != "artifact_id"@.len());
    assert("run_id"@.len() != "metadata"@.len());
    assert("run_id"@.len() != "trigger"@.len());
    assert("run_id"@.len() != "cron_job"@.len());
    assert("run_id"@[1] == 'u' && "reason"@[1] == 'e');
    assert("stage"@.len() != "artifact_id"@.len());
    assert("stage"@.len() != "metadata"@.len());
    assert("stage"@.len() != "trigger"@.len());
    assert("stage"@.len() != "cron_job"@.len());
    assert("stage"@.len() != "reason"@.len());
    assert("artifact_id"@.len() != "metadata"@.len());
    assert("artifact_id"@.len() != "trigger"@.len());
    assert("artifact_id"@.len() != "cron_job"@.len());
    assert("artifact_id"@.len() != "reason"@.len());
    assert("metadata"@.len() != "trigger"@.len());
    assert("metadata"@[0] == 'm' && "cron_job"@[0] == 'c');
    assert("metadata"@.len() != "reason"@.len());
    assert("trigger"@.len() != "cron_job"@.len());
    assert("trigger"@.len() != "reason"@.len());
    assert("cron_job"@.len() != "reason"@.len());
}

/// The agent that updates is asked for a check in a run of its own, which a job of the
/// system began; the agents are asked to look after the gateway each hour.
pub proof fn law_jobs_say_what_they_ask_for(run_id: Seq<char>)
    ensures
        ({
            let p = update_check_payload(run_id);
            &&& p.get_text("run_id"@) == Some(run_id)
            &&& p.get_text("stage"@) == Some("update"@)
            &&& p.get_text("artifact_id"@) == Some(""@)
            &&& p.get("metadata"@) matches Some(metadata)
            &&& metadata.get_text("trigger"@) == Some("cron"@)
            &&& metadata.get_text("cron_job"@) == Some("daily_update_check"@)
        }),
        gateway_health_payload().get_text("trigger"@) == Some("cron"@),
        gateway_health_payload().get_text("reason"@) == Some("hourly_health_check"@),
{
    lemma_jobs_say_what_they_ask_for_names();
}

/// An agent in a folder of the kernel has the role that the name of the folder ends with,
/// written with underscores, and the binary that is named after it; another agent has the
/// name of its folder.
pub proof fn law_roles_follow_the_folders(rest: Seq<char>, other: Seq<char>)
    ensures
        folder_role("evo-kernel-agent-"@ + rest) == replaced(rest, '-', "_"@),
        binary_name("evo-kernel-agent-"@ + rest) == "evo-agent-"@ + rest,
        !"evo-kernel-agent-"@.is_prefix_of(other)
            ==> folder_role(other) == other && binary_name(other) == other,
        names_role(other, rest)
            <==> has_part(replaced(other, '-', "_"@), replaced(rest, '-', "_"@)),
{
    let start = "evo-kernel-agent-"@;
    assert((start + rest).skip(start.len() as int) =~= rest);
    assert(start.is_prefix_of(start + rest));
}

/// An agent is healthy for as long as its last heartbeat is no older than the time it may be
/// silent, and silent for all the time since it after that.
pub proof fn law_silent_agents_are_noticed(secs: i64)
    ensures
        secs <= crate::agent_manager::HEARTBEAT_SILENCE_THRESHOLD_SECS
            ==> heartbeat_of(Some(secs)) == Heartbeat::Healthy,
        secs > crate::agent_manager::HEARTBEAT_SILENCE_THRESHOLD_SECS
            ==> heartbeat_of(Some(secs)) == (Heartbeat::Silent { elapsed_secs: secs }),
        heartbeat_of(None) == Heartbeat::Unreadable,
        crate::agent_manager::HEARTBEAT_SILENCE_THRESHOLD_SECS == 90,
{
}

/// The agents of a kind are just the directories whose name begins as the kind says and
/// which have a soul, each with its name and its path.
pub proof fn law_agents_are_folders_with_a_soul(
    entries: Seq<EntryView>,
    prefix: Seq<char>,
    item: FolderView,
)
    ensures
        agents_among(entries, prefix).contains(item) <==> exists|i: int|
            {
                &&& 0 <= i < entries.len()
                &&& (#[trigger] entries[i]).is_dir
                &&& entries[i].has_soul
                &&& entries[i].name == Some(item.name)
                &&& prefix.is_prefix_of(item.name)
                &&& entries[i].path == item.path
            },
    decreases entries.len(),
{
    if entries.len() > 0 {
        let rest = entries.drop_last();
        let last = entries.last();
        law_agents_are_folders_with_a_soul(rest, prefix, item);
        let before = agents_among(rest, prefix);
        let all = agents_among(entries, prefix);
        if all.contains(item) {
            let k = choose|k: int| 0 <= k < all.len() && all[k] == item;
            if k < before.len() {
                assert(before[k] == item);
                assert(before.contains(item));
                let i = choose|i: int|
                    {
                        &&& 0 <= i < rest.len()
                        &&& (#[trigger] rest[i]).is_dir
                        &&& rest[i].has_soul
                        &&& rest[i].name == Some(item.name)
                        &&& prefix.is_prefix_of(item.name)
                        &&& rest[i].path == item.path
                    };
                assert(entries[i] == rest[i]);
            } else {
                assert(entries[entries.len() - 1] == last);
            }
        }
        if exists|i: int|
            {
                &&& 0 <= i < entries.len()
                &&& (#[trigger] entries[i]).is_dir
                &&& entries[i].has_soul
                &&& entries[i].name == Some(item.name)
                &&& prefix.is_prefix_of(item.name)
                &&& entries[i].path == item.path
            } {
            let i = choose|i: int|
                {
                    &&& 0 <= i < entries.len()
                    &&& (#[trigger] entries[i]).is_dir
                    &&& entries[i].has_soul
                    &&& entries[i].name == Some(item.name)
                    &&& prefix.is_prefix_of(item.name)
                    &&& entries[i].path == item.path
                };
            if i < rest.len() {
                assert(rest[i] == entries[i]);
                let k = choose|k: int| 0 <= k < before.len() && before[k] == item;
                assert(all[k] == item);
            } else {
                assert(entries[i] == last);
                assert(all.last() == item);
            }
        }
    }
}

/// A path below a directory is the directory, a slash and the part; a directory that ends in
/// a slash gets no second one. A tilde at the beginning of a path stands for the home.
pub proof fn law_paths_are_joined_by_one_slash(dir: Seq<char>, part: Seq<char>, home: Seq<char>)
    ensures
        joined_path(dir.push('/'), part) == dir.push('/') + part,
        dir.len() > 0 && dir.last() != '/'
            ==> joined_path(dir, part) == joined_path(dir.push('/'), part),
        dir.len() == 0 ==> joined_path(dir, part) == part,
        expanded("~/"@ + part, Some(home)) == home + "/"@ + part,
        expanded("~/"@ + part, None) == "~/"@ + part,
        !"~/"@.is_prefix_of(part) ==> expanded(part, Some(home)) == part,
{
    reveal_strlit("/");
    reveal_strlit("~/");
    assert("~/"@.is_prefix_of("~/"@ + part));
    assert(("~/"@ + part).skip(1) =~= "/"@ + part);
    assert(home + ("/"@ + part) =~= home + "/"@ + part);
    assert(dir + "/"@ + part =~= dir.push('/') + part);
}

// Answers.

/// A list is answered with its items under their name, and with their number.
pub proof fn law_answers_are_counted(key: Seq<char>, items: Seq<JsonTree>, error: Seq<char>)
    ensures
        key != "count"@ ==> counted(key, items).get_items(key) == Some(items),
        counted(key, items).get("count"@) == Some(JsonTree::UInt(items.len() as u64)),
        failure(error).get_text("error"@) == Some(error),
{
}

/// As many rows are given as are asked for, up to the most that are given; a question that
/// does not say gets the number for such.
pub proof fn law_limits_are_taken_as_asked(n: u32, other: u32)
    ensures
        n <= 500 ==> row_limit(Some(n), other) == n,
        n > 500 ==> row_limit(Some(n), other) == 500,
        other <= 500 ==> row_limit(None, other) == other,
        n <= 200 ==> trace_limit(Some(n)) == n,
        n > 200 ==> trace_limit(Some(n)) == 200,
        trace_limit(None) == 50,
        trace_offset(Some(n)) == n,
        trace_offset(None) == 0,
        row_offset(Some(n)) == n,
        row_offset(None) == 0,
{
}

/// A search gives as many memories as it asks for, and twenty where it does not say.
pub proof fn law_searches_are_limited_as_asked(body: JsonTree, n: u32)
    ensures
        body.get("limit"@) == Some(JsonTree::UInt(n as u64)) ==> search_limit(body) == n,
        body.get("limit"@) is None ==> search_limit(body) == 20,
{
}

/// Of a log the last lines are given, all of them where there are no more than asked for.
pub proof fn law_the_last_lines_are_given(items: Seq<Seq<char>>, count: nat, i: int)
    ensures
        items.len() <= count ==> last_of(items, count) == items,
        items.len() > count ==> last_of(items, count).len() == count,
        items.len() > count && 0 <= i < count
            ==> last_of(items, count)[i] == items[items.len() - count + i],
{
}

/// A run that is started by hand says so unless it is told what set it off.
pub proof fn law_runs_say_what_set_them_off(body: JsonTree)
    ensures
        body.get("trigger"@) matches Some(trigger) ==> trigger_of(body) == trigger,
        body.get("trigger"@) is None ==> trigger_of(body) == JsonTree::Text("manual"@),
{
}

/// The config is answered as it is; where it cannot be read or is no JSON, the answer says
/// so.
pub proof fn law_the_config_is_answered_as_it_is(path: Seq<char>, text: Seq<char>)
    ensures
        parsed_tree(text) matches Ok(config) ==> config_answer(path, Ok(text)) == config,
        parsed_tree(text) matches Err(error)
            ==> config_answer(path, Ok(text)).get_text("error"@)
                == Some("invalid config JSON: "@ + error),
        config_answer(path, Err(text)).get_text("error"@)
            == Some("cannot read "@ + path + ": "@ + text),
{
}

/// The models are asked of the host and the port that the config names for the server, and
/// of nobody where it does not name both.
pub proof fn law_models_are_asked_of_the_gateway(
    config: JsonTree,
    server: JsonTree,
    host: Seq<char>,
    port: u64,
)
    ensures
        config.get("server"@) == Some(server) && server.get_text("host"@) == Some(host)
            && server.get_uint(
            "port"@,
        ) == Some(port) ==> models_url_of(config) == Some(
            "http://"@ + host + ":"@ + decimal(port as nat) + "/v1/models"@,
        ),
        config.get("server"@) is None ==> models_url_of(config) is None,
        config.get("server"@) == Some(server)
            && (server.get_text("host"@) is None || server.get_uint("port"@) is None)
                ==> models_url_of(config) is None,
{
}

/// The names are distinct.
proof fn lemma_changes_of_memories_are_told_names()
    ensures
        "action"@ != "memory_id"@,
        "action"@ != "event"@,
        "action"@ != "data"@,
        "memory_id"@ != "event"@,
        "memory_id"@ != "data"@,
        "event"@ != "data"@,
{
    reveal_strlit("action");
    reveal_strlit("memory_id");
    reveal_strlit("event");
    reveal_strlit("data");
    assert("action"@.len() != "memory_id"@.len());
    assert("action"@.len() != "event"@.len());
    assert("action"@.len() != "data"@.len());
    assert("memory_id"@.len() != "event"@.len());
    assert("memory_id"@.len() != "data"@.len());
    assert("event"@.len() != "data"@.len());
}

/// Of a memory that changed, the kernel agents and the dashboard are told its id and what was
/// done to it.
pub proof fn law_changes_of_memories_are_told(action: Seq<char>, memory_id: Seq<char>)
    ensures
        ({
            let e = memory_news(action, memory_id);
            let change = e[0].payload;
            &&& e.len() == 2
            &&& to_room_of(e[0], "kernel"@, "memory:changed"@)
            &&& to_room_of(e[1], "dashboard"@, "dashboard:event"@)
            &&& change.get_text("action"@) == Some(action)
            &&& change.get_text("memory_id"@) == Some(memory_id)
            &&& e[1].payload.get_text("event"@) == Some("memory:changed"@)
            &&& e[1].payload.get("data"@) == Some(change)
        }),
{
    lemma_changes_of_memories_are_told_names();
}

/// The names are distinct.
proof fn lemma_memories_are_detailed_names()
    ensures
        "tiers"@ != "task_ids"@,
{
    reveal_strlit("tiers");
    reveal_strlit("task_ids");
    assert("tiers"@.len() != "task_ids"@.len());
}

/// The details of a memory are its members with its tiers and its tasks, where these are
/// known.
pub proof fn law_memories_are_detailed(
    memory: JsonTree,
    tiers: Option<Seq<JsonTree>>,
    task_ids: Option<Seq<JsonTree>>,
    key: Seq<char>,
)
    requires
        memory is Object,
    ensures
        tiers matches Some(items)
            ==> memory_detail(memory, tiers, task_ids).get_items("tiers"@) == Some(items),
        task_ids matches Some(items)
            ==> memory_detail(memory, tiers, task_ids).get_items("task_ids"@) == Some(items),
        key != "tiers"@ && key != "task_ids"@
            ==> memory_detail(memory, tiers, task_ids).get(key) == memory.get(key),
{
    lemma_memories_are_detailed_names();
}

proof fn lemma_scope_stats(counts: Seq<ScopeCount>)
    ensures
        scope_stats(counts) is Object,
    decreases counts.len(),
{
    if counts.len() > 0 {
        lemma_scope_stats(counts.drop_last());
    }
}

/// The statistics have the number of memories of each scope under its name.
pub proof fn law_scopes_are_counted(counts: Seq<ScopeCount>, i: int)
    requires
        0 <= i < counts.len(),
        forall|k: int| i < k < counts.len() ==> (#[trigger] counts[k])@.scope != counts[i]@.scope,
    ensures
        scope_stats(counts).get(counts[i]@.scope) == Some(int_tree(counts[i]@.count)),
    decreases counts.len(),
{
    let rest = counts.drop_last();
    lemma_scope_stats(rest);
    if i < rest.len() {
        assert forall|k: int| i < k < rest.len() implies (#[trigger] rest[k])@.scope != rest[i]@.scope by {
            assert(rest[k] == counts[k]);
            assert(rest[i] == counts[i]);
        }
        law_scopes_are_counted(rest, i);
        assert(counts[counts.len() - 1]@.scope != counts[i]@.scope);
    }
}

/// The record of an event has its name, its direction, its socket, its room and its payload,
/// and the agent that the payload names.
pub proof fn law_events_are_recorded_with_their_agent(
    statement: StatementView,
    event_name: Seq<char>,
    direction: Direction,
    socket_id: Seq<char>,
    room: Seq<char>,
    payload: JsonTree,
)
    requires
        records_event(statement, event_name, direction, socket_id, room, payload),
    ensures
        statement.params.len() == 8,
        statement.params[1] == SqlCell::Text(event_name),
        statement.params[2] == SqlCell::Text(
            match direction {
                Direction::Inbound => "inbound"@,
                Direction::Outbound => "outbound"@,
            },
        ),
        statement.params[3] == SqlCell::Text(text_or(payload.get_text("agent_id"@), ""@)),
        statement.params[4] == SqlCell::Text(socket_id),
        statement.params[5] == SqlCell::Text(room),
        statement.params[6] == SqlCell::Text(crate::history::recorded_payload(payload)),
{
}

/// The room of an event is the one that it is for, whether or not its sender is left out.
pub proof fn law_events_are_recorded_with_their_room(room: Seq<char>)
    ensures
        target_room(TargetView::Room(room)) == room,
        target_room(TargetView::Peers(room)) == room,
        target_room(TargetView::Everyone).len() == 0,
{
    reveal_strlit("");
}

// New records.

/// A new task has what is given, an id of its own, and was changed when it was created.
pub proof fn law_new_tasks_have_what_is_given(
    row: TaskView,
    task_type: Seq<char>,
    status: Seq<char>,
    agent_id: Option<Seq<char>>,
    payload: Seq<char>,
    run_id: Seq<char>,
    current_stage: Seq<char>,
    summary: Seq<char>,
    parent_id: Seq<char>,
)
    requires
        is_new_task(row, task_type, status, agent_id, payload, run_id, current_stage, summary,
            parent_id),
    ensures
        row.task_type == task_type,
        row.status == status,
        agent_id matches Some(agent) ==> row.agent_id == agent,
        agent_id is None ==> row.agent_id.len() == 0,
        row.payload == payload,
        row.run_id == run_id,
        row.current_stage == current_stage,
        row.summary == summary,
        row.parent_id == parent_id,
        row.created_at == row.updated_at,
        is_uuid(row.id),
        is_time(row.created_at),
{
    reveal_strlit("");
}

/// A new log entry has what is given.
pub proof fn law_new_logs_have_what_is_given(
    row: TaskLogView,
    task_id: Seq<char>,
    level: Seq<char>,
    message: Seq<char>,
    detail: Seq<char>,
    agent_id: Seq<char>,
    stage: Seq<char>,
)
    requires
        is_new_log(row, task_id, level, message, detail, agent_id, stage),
    ensures
        row.task_id == task_id,
        row.level == level,
        row.message == message,
        row.detail == detail,
        row.agent_id == agent_id,
        row.stage == stage,
        is_uuid(row.id),
        is_time(row.created_at),
{
}

/// A new stage has what is given, is running, and has no agent and no outcome yet.
pub proof fn law_new_stages_have_what_is_given(
    row: PipelineView,
    run_id: Seq<char>,
    stage: Seq<char>,
    artifact_id: Seq<char>,
    input_metadata: Seq<char>,
)
    requires
        is_new_stage(row, run_id, stage, artifact_id, input_metadata),
    ensures
        row.run_id == run_id,
        row.stage == stage,
        row.artifact_id == artifact_id,
        row.input_metadata == input_metadata,
        row.status == "running"@,
        row.agent_id == ""@,
        row.result is None,
        row.error is None,
        row.created_at == row.updated_at,
        is_uuid(row.id),
{
}

/// A new memory has what is given, and was never looked at.
pub proof fn law_new_memories_have_what_is_given(
    row: MemoryView,
    scope: Seq<char>,
    category: Seq<char>,
    key: Seq<char>,
    metadata: Seq<char>,
    tags: Seq<char>,
    agent_id: Seq<char>,
    run_id: Seq<char>,
    skill_id: Seq<char>,
    relevance_score: Seq<char>,
)
    requires
        is_new_memory(row, scope, category, key, metadata, tags, agent_id, run_id, skill_id,
            relevance_score),
    ensures
        row.scope == scope,
        row.category == category,
        row.key == key,
        row.metadata == metadata,
        row.tags == tags,
        row.agent_id == agent_id,
        row.run_id == run_id,
        row.skill_id == skill_id,
        row.relevance_score == relevance_score,
        row.access_count == 0,
        row.created_at == row.updated_at,
        is_uuid(row.id),
{
}

/// The text of a log has the message and then the detail of each entry, each on a line of
/// its own, and nothing for what is empty.
pub proof fn law_logs_are_joined_line_by_line(
    rows: Seq<(Seq<char>, Seq<char>)>,
    message: Seq<char>,
    detail: Seq<char>,
)
    ensures
        message.len() > 0 && detail.len() > 0
            ==> joined_logs(rows.push((message, detail)))
                == joined_logs(rows) + message.push('\n') + detail.push('\n'),
        message.len() > 0 && detail.len() == 0
            ==> joined_logs(rows.push((message, detail))) == joined_logs(rows) + message.push('\n'),
        message.len() == 0 && detail.len() > 0
            ==> joined_logs(rows.push((message, detail))) == joined_logs(rows) + detail.push('\n'),
        message.len() == 0 && detail.len() == 0
            ==> joined_logs(rows.push((message, detail))) == joined_logs(rows),
        rows.len() == 0 ==> joined_logs(rows).len() == 0,
{
    let all = rows.push((message, detail));
    assert(all.drop_last() =~= rows);
    assert(all.last() == (message, detail));
    let before = joined_logs(rows);
    if detail.len() == 0 {
        assert(before + message + detail =~= before + message);
        assert(before + message.push('\n') + detail =~= before + message.push('\n'));
    }
    if message.len() == 0 {
        assert(before + message =~= before);
    }
}

/// The trace of a span is stored before the span, and the spans are stored in their order.
pub proof fn law_each_span_is_stored_after_its_trace(
    service: Seq<char>,
    resource: Seq<char>,
    spans: Seq<SpanView>,
    i: int,
)
    ensures
        scope_statements(service, resource, spans).len() == 2 * spans.len(),
        0 <= i < spans.len() ==> {
            &&& scope_statements(service, resource, spans)[2 * i] == trace_statement(
                service,
                resource,
                spans[i],
            )
            &&& scope_statements(service, resource, spans)[2 * i + 1] == span_statement(
                service,
                spans[i],
            )
        },
    decreases spans.len(),
{
    if spans.len() > 0 {
        law_each_span_is_stored_after_its_trace(service, resource, spans.drop_last(), i);
    }
}

/// The scopes of a resource are stored in their order, and so are the resources of a request,
/// each with the name of its service.
pub proof fn law_resources_are_stored_in_order(
    service: Seq<char>,
    resource: Seq<char>,
    scopes: Seq<Seq<SpanView>>,
    scope: Seq<SpanView>,
    resources: Seq<ResourceView>,
    last: ResourceView,
)
    ensures
        resource_statements(service, resource, scopes.push(scope))
            == resource_statements(service, resource, scopes)
                + scope_statements(service, resource, scope),
        resource_statements(service, resource, Seq::empty()).len() == 0,
        request_statements(resources.push(last))
            == request_statements(resources)
                + resource_statements(service_name(last.attributes), text_or(last.text, "{}"@),
                    last.scopes),
        request_statements(Seq::empty()).len() == 0,
{
    assert(scopes.push(scope).drop_last() =~= scopes);
    assert(resources.push(last).drop_last() =~= resources);
}

// Further answers.

/// The heartbeat of a role is that of the first agent whose role has it in it; the role is
/// not registered where there is no such agent.
pub proof fn law_the_first_agent_of_a_role_counts(
    agents: Seq<AgentView>,
    role: Seq<char>,
    now: Instant,
    i: int,
)
    requires
        0 <= i < agents.len(),
        has_part(agents[i].role, role),
        forall|k: int| 0 <= k < i ==> !has_part((#[trigger] agents[k]).role, role),
    ensures
        role_heartbeat(agents, role, now)
            == heartbeat_of(seconds_between(agents[i].last_heartbeat, now.secs, now.nanos)),
        role_heartbeat(agents, role, now) != Heartbeat::Unregistered,
{
    lemma_first_of_role(agents, role, i);
}

proof fn lemma_first_of_role(agents: Seq<AgentView>, role: Seq<char>, i: int)
    requires
        0 <= i <= agents.len(),
        i < agents.len() ==> has_part(agents[i].role, role),
        forall|k: int| 0 <= k < i ==> !has_part((#[trigger] agents[k]).role, role),
    ensures
        first_of_role(agents, role) == i,
    decreases agents.len(),
{
    if i > 0 {
        assert(!has_part(agents[0].role, role));
        let rest = agents.drop_first();
        assert forall|k: int| 0 <= k < i - 1 implies !has_part((#[trigger] rest[k]).role, role) by {
            assert(rest[k] == agents[k + 1]);
        }
        lemma_first_of_role(rest, role, i - 1);
    }
}

/// A role that no agent has in its role is not registered.
pub proof fn law_roles_without_agents_are_unregistered(
    agents: Seq<AgentView>,
    role: Seq<char>,
    now: Instant,
)
    requires
        forall|k: int| 0 <= k < agents.len() ==> !has_part((#[trigger] agents[k]).role, role),
    ensures
        role_heartbeat(agents, role, now) == Heartbeat::Unregistered,
{
    lemma_first_of_role(agents, role, agents.len() as int);
}

/// The folder of a role is the first that is named after it.
pub proof fn law_the_first_folder_of_a_role_counts(items: Seq<FolderView>, role: Seq<char>, i: int)
    requires
        0 <= i <= items.len(),
        i < items.len() ==> names_role(items[i].name, role),
        forall|k: int| 0 <= k < i ==> !names_role((#[trigger] items[k]).name, role),
    ensures
        first_folder(items, role) == i,
    decreases items.len(),
{
    if i > 0 {
        assert(!names_role(items[0].name, role));
        let rest = items.drop_first();
        assert forall|k: int| 0 <= k < i - 1 implies !names_role((#[trigger] rest[k]).name,
            role) by {
            assert(rest[k] == items[k + 1]);
        }
        law_the_first_folder_of_a_role_counts(rest, role, i - 1);
    }
}

/// A process that three attempts did not start is given up, and how many there were is told.
pub proof fn law_attempts_are_given_up_with_their_number()
    ensures
        after_attempt_view(3, false)
            == (RespawnView::GiveUp { message: "all "@ + decimal(3)
                + " respawn attempts failed"@ }),
{
}

/// Of a list the texts are kept, in their order.
pub proof fn law_texts_are_kept_in_order(items: Seq<JsonTree>, item: JsonTree)
    ensures
        item matches JsonTree::Text(s)
            ==> texts_among(items.push(item)) == texts_among(items).push(s),
        !(item is Text) ==> texts_among(items.push(item)) == texts_among(items),
        texts_among(Seq::empty()).len() == 0,
{
    assert(items.push(item).drop_last() =~= items);
}

/// The rest of a plan is given up where a statement fails, a stage cannot be created or
/// retried, or its outcome matters and cannot be stored; other failures are passed over.
pub proof fn law_failures_that_end_a_plan(step: StepView)
    ensures
        stops_with(step) == match step {
            StepView::Execute { context, .. } => Some(Some(context)),
            StepView::CreateStage { context, .. } => Some(Some(context)),
            StepView::Stop { message } => Some(Some(message)),
            StepView::RetryStage { .. } => Some(None),
            StepView::UpdateStage { context, .. } => match context {
                Some(context) => Some(Some(context)),
                None => None,
            },
            StepView::RecordLog { .. } => None,
            StepView::AnnounceLog { .. } => None,
            StepView::UpdateTask { .. } => None,
            StepView::ShareTask { .. } => None,
            StepView::StoreMemory { .. } => None,
            StepView::CreateSubtask { .. } => None,
            StepView::Send { .. } => None,
            StepView::AskForRecovery { .. } => None,
            StepView::StartUpdate { .. } => None,
        },
{
}

/// An export is read as JSON where its type says so, wherever in it, and else in its binary
/// form.
pub proof fn law_exports_are_read_by_their_type(before: Seq<char>, after: Seq<char>, body: Seq<u8>)
    ensures
        export_of(before + "application/json"@ + after, body) == json_request(body),
        !has_part(before, "application/json"@)
            ==> export_of(before, body) == protobuf_request(body),
{
    let part = "application/json"@;
    let whole = before + part + after;
    let at = before.len() as int;
    assert(whole.subrange(at, at + part.len()) =~= part);
    assert(occurs_at(whole, part, at));
}

/// What is not there counts as nothing: no model, no rows, no process.
pub proof fn law_absent_values_are_empty(model: Seq<char>, n: i64, pid: u32, column: int)
    ensures
        model_of(None).len() == 0,
        model_of(Some(seq![SqlCell::Text(model)])) == model,
        model_of(Some(seq![SqlCell::Null])).len() == 0,
        count_of(None, column) == 0,
        0 <= n <= u32::MAX ==> count_of(Some(seq![SqlCell::Integer(n)]), 0) == n,
        pid_or_zero(None) == 0,
        pid_or_zero(Some(pid)) == pid,
{
    reveal_strlit("");
}

/// A column takes values of its kind and the absence of one, and nothing else.
pub proof fn law_columns_take_their_kind(cell: SqlCell)
    ensures
        fits(cell, Column::Text) <==> cell is Text || cell is Null,
        fits(cell, Column::Integer) <==> cell is Integer || cell is Null,
        fits(cell, Column::Decimal) <==> cell is Real || cell is Null,
{
}

/// The process of a role is one whose folder is named after the role; it is zero only where
/// there is none or that one is.
pub proof fn law_registered_processes_are_known_by_role(
    processes: Map<Seq<char>, AgentProcess>,
    role: Seq<char>,
    pid: u32,
    key: Seq<char>,
)
    requires
        registered_pid(processes, role, pid),
    ensures
        pid != 0
            ==> exists|k: Seq<char>| #[trigger] processes.dom().contains(k)
                && processes[k].pid == pid && names_role(processes[k].agent_folder@, role),
        pid == 0 && processes.dom().contains(key)
            && names_role(processes[key].agent_folder@, role)
                ==> exists|k: Seq<char>| #[trigger] processes.dom().contains(k)
                    && processes[k].pid == 0 && names_role(processes[k].agent_folder@, role),
{
}

/// The script that updates is looked for in the home, then among the binaries, then beside
/// the agents; the first that is there is taken.
pub proof fn law_update_scripts_are_tried_in_order(
    home: Seq<char>,
    agents_dir: Seq<char>,
    present: Seq<bool>,
    i: int,
)
    ensures
        update_scripts(home, Some(agents_dir))
            == seq![joined_path(home, "update.sh"@), joined_path(home, "bin/update.sh"@),
                joined_path(agents_dir, "evo-king/update.sh"@)],
        update_scripts(home, None)[2] == joined_path(".."@, "evo-king/update.sh"@),
        0 <= i < present.len() && present[i] && (forall|k: int| 0 <= k < i
            ==> !(#[trigger] present[k])) ==> first_present(present) == i,
        (forall|k: int| 0 <= k < present.len()
            ==> !(#[trigger] present[k])) ==> first_present(present) == present.len(),
    decreases present.len(),
{
    if present.len() > 0 {
        let rest = present.drop_first();
        law_update_scripts_are_tried_in_order(home, agents_dir, rest, i - 1);
        assert(forall|k: int| 0 <= k < rest.len() ==> (#[trigger] rest[k]) == present[k + 1]);
        if 0 < i < present.len() && (forall|k: int| 0 <= k < i ==> !(#[trigger] present[k])) {
            assert(!present[0]);
            assert(rest[i - 1] == present[i]);
        }
        if forall|k: int| 0 <= k < present.len() ==> !(#[trigger] present[k]) {
            assert(!present[0]);
        }
    }
}

/// The events are asked for by what the question gives, each by its name.
pub proof fn law_events_are_asked_for_as_given(params: EventsQuery)
    ensures
        asked_events(params).agent_id == opt_text(params.agent_id),
        asked_events(params).event_name == opt_text(params.event_name),
        asked_events(params).direction == opt_text(params.direction),
        asked_events(params).since == opt_text(params.since),
        asked_events(params).until == opt_text(params.until),
{
}

/// A command runs in a terminal with colours, of two hundred and twenty columns and fifty
/// lines; a failure to run it says what failed.
pub proof fn law_terminals_are_set_up()
    ensures
        terminal_env()
            == seq![("TERM"@, "xterm-256color"@), ("COLUMNS"@, "220"@), ("LINES"@, "50"@)],
        fault_name(TerminalFault::Open) == "[PTY error: "@,
        fault_name(TerminalFault::Spawn) == "[spawn error: "@,
        fault_name(TerminalFault::Reader) == "[reader error: "@,
{
}

/// The record of a change has the new status, its detail, the role and the status before.
pub proof fn law_changes_are_recorded_by_name(
    statement: StatementView,
    role_hint: Seq<char>,
    new_status: Seq<char>,
    detail: Seq<char>,
    from: Seq<char>,
)
    requires
        records_change(statement, role_hint, new_status, detail, from),
    ensures
        statement.params.len() == 7,
        statement.params[1] == SqlCell::Text(new_status),
        statement.params[3] == SqlCell::Text(detail),
        statement.params[5] == SqlCell::Text(role_hint),
        statement.params[6] == SqlCell::Text(from),
{
}

/// A registration is recorded for the agent and its process, and stored with its role.
pub proof fn law_registrations_are_recorded_and_stored(
    statements: (StatementView, StatementView),
    agent: AgentMetadataView,
)
    requires
        stores_registration(statements, agent),
    ensures
        statements.0.params.len() == 4,
        statements.0.params[1] == SqlCell::Text(agent.agent_id),
        statements.0.params[2] == SqlCell::Integer(agent.pid as i64),
        statements.1.params.len() == 11,
        statements.1.params[0] == SqlCell::Text(agent.agent_id),
        statements.1.params[1] == SqlCell::Text(agent.role),
        statements.1.params[6] == SqlCell::Integer(agent.pid as i64),
{
}

/// The memory is the number that the system tells, with blanks around it or without.
pub proof fn law_the_memory_of_a_mac_is_a_number(stdout: Seq<char>, n: nat)
    ensures
        trimmed(stdout) == decimal(n) && n <= u64::MAX ==> macos_bytes(Some(stdout)) == Some(n),
        macos_bytes(None) is None,
{
    law_decimals_read_back(n, u64::MAX as nat);
}

/// A query for tasks and one for stages ask for all their columns.
pub proof fn law_queries_name_the_columns(rest: Seq<char>)
    ensures
        task_query(rest).sql
            == "SELECT "@
                + "id, task_type, status, agent_id, payload, run_id, current_stage, summary, parent_id, created_at, updated_at"@ + rest,
        pipeline_query(rest).sql
            == "SELECT "@
                + "id, run_id, stage, artifact_id, status, agent_id, result, error, created_at, updated_at, input_metadata"@ + rest,
        task_query(rest).params.len() == 0,
        pipeline_query(rest).params.len() == 0,
{
}

/// A memory that was found is told with its tiers in their order.
pub proof fn law_found_memories_have_their_tiers(item: FoundMemory, i: int)
    ensures
        found_json(item).get_items("tiers"@) matches Some(tiers)
            && tiers.len() == item.tiers@.len() && (0 <= i < tiers.len()
                ==> tiers[i] == brief_tier_json(item.tiers@[i]@)),
        forall|key: Seq<char>| key != "tiers"@
            ==> #[trigger] found_json(item).get(key) == memory_json(item.memory@, false).get(key),
{
}

/// The note of an agent that could not be started holds the error.
pub proof fn law_notes_say_what_went_wrong(error: Seq<char>)
    ensures
        exists|note: JsonTree| #[trigger] compact_text(note) == spawn_error_note(error)
            && note.get_text("spawn_error"@) == Some(error),
{
    let note = JsonTree::empty().text("spawn_error"@, error);
    assert(compact_text(note) == spawn_error_note(error));
    assert(note.get_text("spawn_error"@) == Some(error));
}

/// An event for every client has no room.
pub proof fn law_public_events_are_for_everyone(event: Seq<char>, payload: JsonTree)
    ensures
        public_event(event, payload).target == TargetView::Everyone,
        public_event(event, payload).event == event,
        public_event(event, payload).payload == payload,
{
}

/// The names are distinct.
proof fn lemma_outcomes_say_why_names()
    ensures
        "success"@ != "error"@,
{
    reveal_strlit("success");
    reveal_strlit("error");
    assert("success"@.len() != "error"@.len());
}

/// What was done is answered with success, and what was not with the error.
pub proof fn law_outcomes_say_why(error: &str)
    ensures
        outcome(Ok(())).get("success"@) == Some(JsonTree::Bool(true)),
        outcome(Err(error)).get("success"@) == Some(JsonTree::Bool(false)),
        outcome(Err(error)).get_text("error"@) == Some(error@),
{
    lemma_outcomes_say_why_names();
}

} // verus!
