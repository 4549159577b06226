//! Validation of the installation, and what can be repaired in it.

use crate::paths::{join_path, joined_path};
use crate::text::{concat2, concat3, decimal, decimal_text};
use vstd::prelude::*;

verus! {

/// The folder and the binary of an agent.
pub struct AgentBinary {
    pub folder: String,
    pub binary: String,
}

/// What each of a list of agents holds: the folder and the binary.
pub open spec fn binaries(items: Seq<AgentBinary>) -> Seq<(Seq<char>, Seq<char>)> {
    items.map_values(|item: AgentBinary| (item.folder@, item.binary@))
}

/// The folders and binaries of the kernel agents.
pub open spec fn kernel_agent_table() -> Seq<(Seq<char>, Seq<char>)> {
    seq![
        ("evo-kernel-agent-learning"@, "evo-agent-learning"@),
        ("evo-kernel-agent-building"@, "evo-agent-building"@),
        ("evo-kernel-agent-pre-load"@, "evo-agent-pre-load"@),
        ("evo-kernel-agent-evaluation"@, "evo-agent-evaluation"@),
        ("evo-kernel-agent-skill-manage"@, "evo-agent-skill-manage"@),
        ("evo-kernel-agent-update"@, "evo-agent-update"@),
    ]
}

fn agent_binary(folder: &str, binary: &str) -> (r: AgentBinary)
    ensures
        r.folder@ == folder@,
        r.binary@ == binary@,
{
    AgentBinary { folder: folder.to_string(), binary: binary.to_string() }
}

/// The folders and binaries of the kernel agents.
pub fn kernel_agents() -> (r: Vec<AgentBinary>)
    ensures
        binaries(r@) == kernel_agent_table(),
{
    let r = vec![
        agent_binary("evo-kernel-agent-learning", "evo-agent-learning"),
        agent_binary("evo-kernel-agent-building", "evo-agent-building"),
        agent_binary("evo-kernel-agent-pre-load", "evo-agent-pre-load"),
        agent_binary("evo-kernel-agent-evaluation", "evo-agent-evaluation"),
        agent_binary("evo-kernel-agent-skill-manage", "evo-agent-skill-manage"),
        agent_binary("evo-kernel-agent-update", "evo-agent-update"),
    ];
    assert(binaries(r@) =~= kernel_agent_table());
    r
}

/// Something to look at.
pub enum Probe {
    /// A directory.
    Dir { path: String },
    /// An executable file.
    Binary { path: String },
    /// A file.
    File { path: String },
    /// A cloned repository.
    Repo { name: String, path: String },
    /// The gateway.
    Gateway,
}

/// What a [`Probe`] holds.
pub enum ProbeView {
    Dir { path: Seq<char> },
    Binary { path: Seq<char> },
    File { path: Seq<char> },
    Repo { name: Seq<char>, path: Seq<char> },
    Gateway,
}

impl View for Probe {
    type V = ProbeView;

    open spec fn view(&self) -> ProbeView {
        match self {
            Probe::Dir { path } => ProbeView::Dir { path: path@ },
            Probe::Binary { path } => ProbeView::Binary { path: path@ },
            Probe::File { path } => ProbeView::File { path: path@ },
            Probe::Repo { name, path } => ProbeView::Repo { name: name@, path: path@ },
            Probe::Gateway => ProbeView::Gateway,
        }
    }
}

/// What each of a list of probes holds.
pub open spec fn probes(items: Seq<Probe>) -> Seq<ProbeView> {
    items.map_values(|item: Probe| item@)
}

/// A directory below the home directory.
pub open spec fn dir_at(home: Seq<char>, part: Seq<char>) -> ProbeView {
    ProbeView::Dir { path: joined_path(home, part) }
}

/// The probes of the directories and service binaries.
pub open spec fn base_probes(home: Seq<char>) -> Seq<ProbeView> {
    seq![
        ProbeView::Dir { path: home },
        dir_at(home, "bin"@),
        dir_at(home, "data"@),
        dir_at(home, "data/backups"@),
        dir_at(home, "logs"@),
        dir_at(home, "repos"@),
        ProbeView::Binary { path: joined_path(home, "bin/evo-king"@) },
        ProbeView::Binary { path: joined_path(home, "bin/evo-gateway"@) },
    ]
}

/// The probes of a kernel agent.
pub open spec fn agent_probes(home: Seq<char>, agent: (Seq<char>, Seq<char>)) -> Seq<ProbeView> {
    let dir = joined_path(home, agent.0);
    seq![
        ProbeView::Dir { path: dir },
        ProbeView::Binary { path: joined_path(dir, agent.1) },
        ProbeView::File { path: joined_path(dir, "soul.md"@) },
        ProbeView::Dir { path: joined_path(dir, "skills"@) },
    ]
}

/// The probes of a list of kernel agents.
pub open spec fn all_agent_probes(
    home: Seq<char>,
    agents: Seq<(Seq<char>, Seq<char>)>,
) -> Seq<ProbeView>
    decreases agents.len(),
{
    if agents.len() == 0 {
        Seq::empty()
    } else {
        all_agent_probes(home, agents.drop_last()) + agent_probes(home, agents.last())
    }
}

/// The probes of the config files.
pub open spec fn config_probes(home: Seq<char>) -> Seq<ProbeView> {
    seq![
        ProbeView::File { path: joined_path(home, "data/gateway.json"@) },
        ProbeView::File { path: joined_path(home, "repos.json"@) },
    ]
}

/// The names of the repositories.
pub open spec fn repo_table() -> Seq<Seq<char>> {
    seq![
        "evo-common"@,
        "evo-king"@,
        "evo-gateway"@,
        "evo-agents"@,
        "evo-kernel-agent-learning"@,
        "evo-kernel-agent-building"@,
        "evo-kernel-agent-pre-load"@,
        "evo-kernel-agent-evaluation"@,
        "evo-kernel-agent-skill-manage"@,
        "evo-kernel-agent-update"@,
    ]
}

/// The probes of a list of repositories.
pub open spec fn repo_probes(home: Seq<char>, names: Seq<Seq<char>>) -> Seq<ProbeView> {
    names.map_values(
        |name: Seq<char>|
            ProbeView::Repo { name, path: joined_path(joined_path(home, "repos"@), name) },
    )
}

/// Everything the doctor looks at, in order.
pub open spec fn doctor_probes(home: Seq<char>) -> Seq<ProbeView> {
    base_probes(home) + all_agent_probes(home, kernel_agent_table()) + config_probes(home)
        + repo_probes(home, repo_table()) + seq![ProbeView::Gateway]
}

/// The names of the repositories.
pub fn repo_names() -> (r: Vec<String>)
    ensures
        crate::text::texts(r@) == repo_table(),
{
    let r = vec![
        "evo-common".to_string(),
        "evo-king".to_string(),
        "evo-gateway".to_string(),
        "evo-agents".to_string(),
        "evo-kernel-agent-learning".to_string(),
        "evo-kernel-agent-building".to_string(),
        "evo-kernel-agent-pre-load".to_string(),
        "evo-kernel-agent-evaluation".to_string(),
        "evo-kernel-agent-skill-manage".to_string(),
        "evo-kernel-agent-update".to_string(),
    ];
    assert(crate::text::texts(r@) =~= repo_table());
    r
}

/// Adds the probes of a kernel agent.
fn push_agent_probes(items: &mut Vec<Probe>, home: &str, agent: &AgentBinary)
    ensures
        probes(final(items)@) == probes(old(items)@) + agent_probes(
            home@,
            (agent.folder@, agent.binary@),
        ),
{
    let ghost before = probes(items@);
    let dir = join_path(home, agent.folder.as_str());
    let binary = join_path(dir.as_str(), agent.binary.as_str());
    let soul = join_path(dir.as_str(), "soul.md");
    let skills = join_path(dir.as_str(), "skills");
    items.push(Probe::Dir { path: dir });
    items.push(Probe::Binary { path: binary });
    items.push(Probe::File { path: soul });
    items.push(Probe::Dir { path: skills });
    assert(probes(items@) =~= before + agent_probes(home@, (agent.folder@, agent.binary@)));
}

/// Everything the doctor looks at below a home directory, in order: the
/// directories, the service binaries, the kernel agents, the config files, the
/// repositories and the gateway.
pub fn run_doctor(home: &str) -> (r: Vec<Probe>)
    ensures
        probes(r@) == doctor_probes(home@),
{
    let mut items: Vec<Probe> = vec![
        Probe::Dir { path: home.to_string() },
        Probe::Dir { path: join_path(home, "bin") },
        Probe::Dir { path: join_path(home, "data") },
        Probe::Dir { path: join_path(home, "data/backups") },
        Probe::Dir { path: join_path(home, "logs") },
        Probe::Dir { path: join_path(home, "repos") },
        Probe::Binary { path: join_path(home, "bin/evo-king") },
        Probe::Binary { path: join_path(home, "bin/evo-gateway") },
    ];
    proof {
        assert(probes(items@) =~= base_probes(home@));
        assert(base_probes(home@) + all_agent_probes(
            home@,
            kernel_agent_table().take(0),
        ) =~= base_probes(home@));
    }
    let agents = kernel_agents();
    let mut i: usize = 0;
    while i < agents.len()
        invariant
            i <= agents@.len(),
            binaries(agents@) == kernel_agent_table(),
            probes(items@) == base_probes(home@) + all_agent_probes(
                home@,
                kernel_agent_table().take(i as int),
            ),
        decreases agents@.len() - i,
    {
        let ghost table = kernel_agent_table();
        let ghost before = all_agent_probes(home@, table.take(i as int));
        proof {
            assert(binaries(agents@)[i as int] == (agents@[i as int].folder@, agents@[i as int].binary@));
            assert(table.take(i + 1).drop_last() =~= table.take(i as int));
        }
        push_agent_probes(&mut items, home, &agents[i]);
        proof {
            assert(base_probes(home@) + before + agent_probes(home@, table[i as int]) =~= base_probes(
                home@,
            ) + (before + agent_probes(home@, table[i as int])));
        }
        i += 1;
    }
    let ghost start = base_probes(home@) + all_agent_probes(home@, kernel_agent_table());
    assert(kernel_agent_table().take(i as int) =~= kernel_agent_table());
    items.push(Probe::File { path: join_path(home, "data/gateway.json") });
    items.push(Probe::File { path: join_path(home, "repos.json") });
    assert(probes(items@) =~= start + config_probes(home@));
    let repos = join_path(home, "repos");
    let names = repo_names();
    let mut j: usize = 0;
    while j < names.len()
        invariant
            j <= names@.len(),
            crate::text::texts(names@) == repo_table(),
            repos@ == joined_path(home@, "repos"@),
            probes(items@) == start + config_probes(home@) + repo_probes(
                home@,
                repo_table().take(j as int),
            ),
        decreases names@.len() - j,
    {
        let ghost before = probes(items@);
        let path = join_path(repos.as_str(), names[j].as_str());
        let item = Probe::Repo { name: names[j].clone(), path };
        proof {
            assert(crate::text::texts(names@)[j as int] == names@[j as int]@);
            assert(repo_probes(home@, repo_table().take(j + 1)) =~= repo_probes(
                home@,
                repo_table().take(j as int),
            ).push(item@));
        }
        items.push(item);
        assert(probes(items@) =~= before.push(item@));
        j += 1;
    }
    assert(repo_table().take(j as int) =~= repo_table());
    items.push(Probe::Gateway);
    assert(probes(items@) =~= doctor_probes(home@));
    items
}

/// The number of things the doctor looks at, whatever the home directory.
pub proof fn law_probe_count(home: Seq<char>)
    ensures
        doctor_probes(home).len() == 8 + 4 * kernel_agent_table().len() + 2 + repo_table().len() + 1,
{
    lemma_agent_probe_count(home, kernel_agent_table());
}

proof fn lemma_agent_probe_count(home: Seq<char>, agents: Seq<(Seq<char>, Seq<char>)>)
    ensures
        all_agent_probes(home, agents).len() == 4 * agents.len(),
    decreases agents.len(),
{
    if agents.len() > 0 {
        lemma_agent_probe_count(home, agents.drop_last());
    }
}

/// The result of one check.
#[derive(Clone, Debug)]
pub struct CheckResult {
    pub name: String,
    pub passed: bool,
    pub message: String,
    pub fixable: bool,
}

/// What a [`CheckResult`] holds.
pub struct CheckView {
    pub name: Seq<char>,
    pub passed: bool,
    pub message: Seq<char>,
    pub fixable: bool,
}

impl View for CheckResult {
    type V = CheckView;

    open spec fn view(&self) -> CheckView {
        CheckView {
            name: self.name@,
            passed: self.passed,
            message: self.message@,
            fixable: self.fixable,
        }
    }
}

fn check(name: &str, passed: bool, message: &str, fixable: bool) -> (r: CheckResult)
    ensures
        r@ == (CheckView { name: name@, passed, message: message@, fixable }),
{
    CheckResult { name: name.to_string(), passed, message: message.to_string(), fixable }
}

/// What was seen of something: whether it is there, whether it can be executed,
/// and whether the repair of it worked.
#[derive(Clone, Copy)]
pub struct Seen {
    pub present: bool,
    pub executable: bool,
    pub repaired: bool,
}

/// A repair.
pub enum Repair {
    /// Make a directory with those above it.
    MakeDir { path: String },
    /// Clone a repository.
    Clone { url: String, path: String },
}

/// What a [`Repair`] holds.
pub enum RepairView {
    MakeDir { path: Seq<char> },
    Clone { url: Seq<char>, path: Seq<char> },
}

impl View for Repair {
    type V = RepairView;

    open spec fn view(&self) -> RepairView {
        match self {
            Repair::MakeDir { path } => RepairView::MakeDir { path: path@ },
            Repair::Clone { url, path } => RepairView::Clone { url: url@, path: path@ },
        }
    }
}

/// The address that a repository is cloned from.
pub open spec fn repo_url(name: Seq<char>) -> Seq<char> {
    "https://github.com/ai-evo-agents/"@ + name + ".git"@
}

/// The address that a repository is cloned from.
pub fn clone_repo_url(name: &str) -> (r: String)
    ensures
        r@ == repo_url(name@),
{
    concat3("https://github.com/ai-evo-agents/", name, ".git")
}

/// The repair of something that is not there, where repairs are wanted.
pub open spec fn wanted_repair(probe: ProbeView, fix: bool, present: bool) -> Option<RepairView> {
    if !fix || present {
        None
    } else {
        match probe {
            ProbeView::Dir { path } => Some(RepairView::MakeDir { path }),
            ProbeView::Repo { name, path } => Some(RepairView::Clone { url: repo_url(name), path }),
            _ => None,
        }
    }
}

/// The repair of something that is not there, where repairs are wanted.
pub fn repair(probe: &Probe, fix: bool, present: bool) -> (r: Option<Repair>)
    ensures
        match r {
            Some(item) => wanted_repair(probe@, fix, present) == Some(item@),
            None => wanted_repair(probe@, fix, present) is None,
        },
{
    if !fix || present {
        return None;
    }
    match probe {
        Probe::Dir { path } => Some(Repair::MakeDir { path: path.clone() }),
        Probe::Repo { name, path } => Some(
            Repair::Clone { url: clone_repo_url(name.as_str()), path: path.clone() },
        ),
        _ => None,
    }
}

/// The result of the check of a directory.
pub open spec fn dir_check(path: Seq<char>, present: bool, fix: bool, repaired: bool) -> CheckView {
    if present {
        CheckView { name: path, passed: true, message: "exists"@, fixable: false }
    } else if fix {
        CheckView {
            name: path,
            passed: repaired,
            message: if repaired {
                "created"@
            } else {
                "failed to create"@
            },
            fixable: true,
        }
    } else {
        CheckView { name: path, passed: false, message: "missing"@, fixable: true }
    }
}

/// The result of the check of a directory.
pub fn check_dir(path: &str, present: bool, fix: bool, repaired: bool) -> (r: CheckResult)
    ensures
        r@ == dir_check(path@, present, fix, repaired),
{
    if present {
        check(path, true, "exists", false)
    } else if fix {
        check(path, repaired, if repaired { "created" } else { "failed to create" }, true)
    } else {
        check(path, false, "missing", true)
    }
}

/// The result of the check of an executable file.
pub open spec fn binary_check(path: Seq<char>, present: bool, executable: bool) -> CheckView {
    if present {
        CheckView {
            name: path,
            passed: executable,
            message: if executable {
                "executable"@
            } else {
                "exists but not executable"@
            },
            fixable: false,
        }
    } else {
        CheckView {
            name: path,
            passed: false,
            message: "missing (run install.sh to download)"@,
            fixable: false,
        }
    }
}

/// The result of the check of an executable file.
pub fn check_binary(path: &str, present: bool, executable: bool) -> (r: CheckResult)
    ensures
        r@ == binary_check(path@, present, executable),
{
    if present {
        let message = if executable {
            "executable"
        } else {
            "exists but not executable"
        };
        check(path, executable, message, false)
    } else {
        check(path, false, "missing (run install.sh to download)", false)
    }
}

/// The result of the check of a file.
pub open spec fn file_check(path: Seq<char>, present: bool) -> CheckView {
    CheckView {
        name: path,
        passed: present,
        message: if present {
            "exists"@
        } else {
            "missing"@
        },
        fixable: false,
    }
}

/// The result of the check of a file.
pub fn check_file(path: &str, present: bool) -> (r: CheckResult)
    ensures
        r@ == file_check(path@, present),
{
    check(path, present, if present { "exists" } else { "missing" }, false)
}

/// The result of the check of a repository.
pub open spec fn repo_check(name: Seq<char>, present: bool, cloned: bool) -> CheckView {
    if present {
        CheckView { name: "repos/"@ + name, passed: true, message: "exists"@, fixable: false }
    } else {
        CheckView {
            name: "repos/"@ + name,
            passed: cloned,
            message: if cloned {
                "cloned"@
            } else {
                "missing (run with --fix to clone)"@
            },
            fixable: true,
        }
    }
}

/// The result of the check of a repository.
pub fn check_repo(name: &str, present: bool, cloned: bool) -> (r: CheckResult)
    ensures
        r@ == repo_check(name@, present, cloned),
{
    let title = concat2("repos/", name);
    if present {
        check(title.as_str(), true, "exists", false)
    } else {
        let message = if cloned {
            "cloned"
        } else {
            "missing (run with --fix to clone)"
        };
        check(title.as_str(), cloned, message, true)
    }
}

/// The result of the check of the gateway.
pub open spec fn gateway_check(reachable: bool) -> CheckView {
    CheckView {
        name: "gateway:3301/health"@,
        passed: reachable,
        message: if reachable {
            "reachable"@
        } else {
            "not reachable (start gateway first)"@
        },
        fixable: false,
    }
}

/// The result of the check of the gateway.
pub fn check_gateway(reachable: bool) -> (r: CheckResult)
    ensures
        r@ == gateway_check(reachable),
{
    let message = if reachable {
        "reachable"
    } else {
        "not reachable (start gateway first)"
    };
    check("gateway:3301/health", reachable, message, false)
}

/// What was seen of something says the result of its check. A repair counts only
/// where repairs are wanted.
pub open spec fn verdict(probe: ProbeView, fix: bool, seen: Seen) -> CheckView {
    match probe {
        ProbeView::Dir { path } => dir_check(path, seen.present, fix, seen.repaired),
        ProbeView::Binary { path } => binary_check(path, seen.present, seen.executable),
        ProbeView::File { path } => file_check(path, seen.present),
        ProbeView::Repo { name, .. } => repo_check(name, seen.present, fix && seen.repaired),
        ProbeView::Gateway => gateway_check(seen.present),
    }
}

/// The result of the check of something that was looked at.
pub fn judge(probe: &Probe, fix: bool, seen: Seen) -> (r: CheckResult)
    ensures
        r@ == verdict(probe@, fix, seen),
{
    match probe {
        Probe::Dir { path } => check_dir(path.as_str(), seen.present, fix, seen.repaired),
        Probe::Binary { path } => check_binary(path.as_str(), seen.present, seen.executable),
        Probe::File { path } => check_file(path.as_str(), seen.present),
        Probe::Repo { name, .. } => check_repo(name.as_str(), seen.present, fix && seen.repaired),
        Probe::Gateway => check_gateway(seen.present),
    }
}

/// Nothing is repaired unless repairs are wanted, and a check that fails then says
/// whether it can be repaired: directories and repositories can.
pub proof fn law_repairs_only_where_wanted(probe: ProbeView, seen: Seen)
    ensures
        wanted_repair(probe, false, seen.present) is None,
        !verdict(probe, false, seen).passed ==> (verdict(probe, false, seen).fixable
            <==> wanted_repair(probe, true, seen.present) is Some),
        seen.present && seen.executable ==> verdict(probe, false, seen).passed,
{
}

// The report.

/// What each of a list of results holds.
pub open spec fn checks(items: Seq<CheckResult>) -> Seq<CheckView> {
    items.map_values(|item: CheckResult| item@)
}

/// Number of results with the given outcome.
pub open spec fn outcome_count(items: Seq<CheckView>, passed: bool) -> nat
    decreases items.len(),
{
    if items.len() == 0 {
        0
    } else {
        outcome_count(items.drop_last(), passed) + (if items.last().passed == passed {
            1nat
        } else {
            0nat
        })
    }
}

/// Every result is counted once.
pub proof fn law_counts_add_up(items: Seq<CheckView>)
    ensures
        outcome_count(items, true) + outcome_count(items, false) == items.len(),
    decreases items.len(),
{
    if items.len() > 0 {
        law_counts_add_up(items.drop_last());
    }
}

/// No result failed exactly when all passed.
pub proof fn law_no_failure_means_all_passed(items: Seq<CheckView>)
    ensures
        outcome_count(items, false) == 0 <==> (forall|i: int|
            0 <= i < items.len() ==> (#[trigger] items[i]).passed),
    decreases items.len(),
{
    if items.len() > 0 {
        let rest = items.drop_last();
        law_no_failure_means_all_passed(rest);
        if outcome_count(items, false) == 0 {
            assert forall|i: int| 0 <= i < items.len() implies (#[trigger] items[i]).passed by {
                if i < rest.len() {
                    assert(rest[i] == items[i]);
                }
            }
        }
        if forall|i: int| 0 <= i < items.len() ==> (#[trigger] items[i]).passed {
            assert(items[items.len() - 1].passed);
            assert forall|i: int| 0 <= i < rest.len() implies (#[trigger] rest[i]).passed by {
                assert(items[i].passed);
            }
        }
    }
}

/// A text with spaces at its end, so that it has at least a number of characters.
pub open spec fn padded(s: Seq<char>, width: nat) -> Seq<char> {
    if s.len() >= width {
        s
    } else {
        s + Seq::new((width - s.len()) as nat, |i: int| ' ')
    }
}

/// A text with spaces at its end, so that it has at least a number of characters.
pub fn pad(s: &str, width: usize) -> (r: String)
    ensures
        r@ == padded(s@, width as nat),
{
    let mut out = s.to_string();
    let len: usize = s.unicode_len();
    let mut i: usize = len;
    assert(out@ =~= s@ + Seq::new(0, |i: int| ' '));
    while i < width
        invariant
            len == s@.len(),
            len <= i,
            i <= width || i == len,
            out@ == s@ + Seq::new((i - len) as nat, |i: int| ' '),
        decreases width - i,
    {
        proof {
            assert((s@ + Seq::new((i - len) as nat, |i: int| ' ')).push(' ') =~= s@ + Seq::new(
                (i + 1 - len) as nat,
                |i: int| ' ',
            ));
        }
        out.push(' ');
        i += 1;
    }
    assert(i == len ==> out@ =~= s@);
    out
}

/// The line of the report on a result.
pub open spec fn result_text(item: CheckView) -> Seq<char> {
    (if item.passed {
        "  \u{2714} [  OK] "@
    } else {
        "  \u{2718} [FAIL] "@
    }) + padded(item.name, 45) + " "@ + item.message
}

/// The line of the report on a result.
pub fn result_line(item: &CheckResult) -> (r: String)
    ensures
        r@ == result_text(item@),
{
    let start = if item.passed {
        "  \u{2714} [  OK] "
    } else {
        "  \u{2718} [FAIL] "
    };
    let name = pad(item.name.as_str(), 45);
    crate::text::concat4(start, name.as_str(), " ", item.message.as_str())
}

/// What the doctor says at its end.
pub struct Summary {
    pub passed: u64,
    pub failed: u64,
    pub line: String,
    pub hint: Option<String>,
    pub exit_code: i32,
}

/// What the doctor says at its end: how many checks passed and failed, a hint
/// where repairs could help and were not asked for, and the exit code, which is
/// zero exactly when no check failed.
pub fn summarize(items: &Vec<CheckResult>, fix: bool) -> (r: Summary)
    ensures
        r.passed == outcome_count(checks(items@), true),
        r.failed == outcome_count(checks(items@), false),
        r.line@ == "  "@ + decimal(outcome_count(checks(items@), true)) + " passed, "@ + decimal(
            outcome_count(checks(items@), false),
        ) + " failed (total: "@ + decimal(items@.len()) + ")"@,
        r.exit_code == (if outcome_count(checks(items@), false) == 0 {
            0int
        } else {
            1int
        }),
        match r.hint {
            Some(text) => outcome_count(checks(items@), false) > 0 && !fix && text@
                == "  Run with --fix to attempt automatic repairs."@,
            None => outcome_count(checks(items@), false) == 0 || fix,
        },
{
    let mut passed: u64 = 0;
    let mut failed: u64 = 0;
    let mut i: usize = 0;
    let ghost all = checks(items@);
    while i < items.len()
        invariant
            i <= items@.len(),
            all == checks(items@),
            passed == outcome_count(all.take(i as int), true),
            failed == outcome_count(all.take(i as int), false),
            passed + failed == i,
        decreases items@.len() - i,
    {
        proof {
            assert(all.take(i + 1).drop_last() =~= all.take(i as int));
            assert(all.take(i + 1).last() == items@[i as int]@);
        }
        if items[i].passed {
            passed += 1;
        } else {
            failed += 1;
        }
        i += 1;
    }
    assert(all.take(i as int) =~= all);
    let p = decimal_text(passed);
    let f = decimal_text(failed);
    let t = decimal_text(items.len() as u64);
    let head = crate::text::concat4("  ", p.as_str(), " passed, ", f.as_str());
    let line = crate::text::concat4(head.as_str(), " failed (total: ", t.as_str(), ")");
    let hint = if failed > 0 && !fix {
        Some("  Run with --fix to attempt automatic repairs.".to_string())
    } else {
        None
    };
    Summary {
        passed,
        failed,
        line,
        hint,
        exit_code: if failed > 0 {
            1
        } else {
            0
        },
    }
}

} // verus!
