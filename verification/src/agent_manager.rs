//! Agents on this machine: their folders, their processes and their heartbeats.

use crate::doctor::kernel_agent_table;
use crate::keyed::KeyedList;
use crate::paths::{join_path, joined_path};
use crate::stamp::{Instant, seconds_between, seconds_since};
use crate::task_db::{AgentRow, AgentView};
use crate::text::{
    begins_with, characters, concat2, concat3, contains, decimal, decimal_text, has_part, in_order,
    lemma_in_order_antisymmetric, lemma_in_order_total, lemma_in_order_transitive, occurs_at,
    opt_text, ordered, piece, replace, replaced, texts,
};
use vstd::multiset::Multiset;
use vstd::prelude::*;
use vstd::relations::{sorted_by, total_ordering};
use vstd::seq_lib::{lemma_fold_left_permutation, lemma_sorted_unique};

verus! {

/// How often a process that exited is started again before it is given up.
pub const MAX_RESPAWN_ATTEMPTS: u32 = 3;

/// Seconds to wait before the first attempt to start a process again; each
/// further attempt waits twice as long as the one before.
pub const RESPAWN_BASE_DELAY_SECS: u64 = 5;

/// Seconds between two checks of the heartbeats.
pub const HEARTBEAT_CHECK_INTERVAL_SECS: u64 = 60;

/// Seconds of silence after which an agent is missing.
pub const HEARTBEAT_SILENCE_THRESHOLD_SECS: i64 = 90;

/// Seconds between two checks of the processes.
pub const PROCESS_CHECK_INTERVAL_SECS: u64 = 10;

/// Beginning of the folder names of kernel agents.
pub const KERNEL_PREFIX: &'static str = "evo-kernel-agent-";

/// Beginning of the folder names of user agents.
pub const USER_PREFIX: &'static str = "evo-user-agent-";

/// The roles of the kernel agents that are expected to run at all times.
pub open spec fn expected_roles() -> Seq<Seq<char>> {
    seq![
        "learning"@,
        "building"@,
        "pre_load"@,
        "evaluation"@,
        "skill_manage"@,
        "update"@,
    ]
}

/// The roles of the kernel agents that are expected to run at all times.
pub fn expected_kernel_roles() -> (r: Vec<String>)
    ensures
        texts(r@) == expected_roles(),
{
    let r = vec![
        "learning".to_string(),
        "building".to_string(),
        "pre_load".to_string(),
        "evaluation".to_string(),
        "skill_manage".to_string(),
        "update".to_string(),
    ];
    assert(texts(r@) =~= expected_roles());
    r
}

// Folders.

/// An entry of a directory: its name where it is readable text, its path, whether
/// it is a directory, and whether it holds a `soul.md`.
pub struct FolderEntry {
    pub name: Option<String>,
    pub path: String,
    pub is_dir: bool,
    pub has_soul: bool,
}

/// What a [`FolderEntry`] holds.
pub struct EntryView {
    pub name: Option<Seq<char>>,
    pub path: Seq<char>,
    pub is_dir: bool,
    pub has_soul: bool,
}

impl View for FolderEntry {
    type V = EntryView;

    open spec fn view(&self) -> EntryView {
        EntryView {
            name: opt_text(self.name),
            path: self.path@,
            is_dir: self.is_dir,
            has_soul: self.has_soul,
        }
    }
}

/// What each entry of a directory holds.
pub open spec fn listing(entries: Seq<FolderEntry>) -> Seq<EntryView> {
    entries.map_values(|entry: FolderEntry| entry@)
}

/// The folder of an agent.
pub struct AgentFolder {
    pub name: String,
    pub path: String,
}

/// What an [`AgentFolder`] holds.
pub struct FolderView {
    pub name: Seq<char>,
    pub path: Seq<char>,
}

impl View for AgentFolder {
    type V = FolderView;

    open spec fn view(&self) -> FolderView {
        FolderView { name: self.name@, path: self.path@ }
    }
}

/// What each of a list of folders holds.
pub open spec fn folders(items: Seq<AgentFolder>) -> Seq<FolderView> {
    items.map_values(|item: AgentFolder| item@)
}

/// Whether an entry is the folder of an agent of a kind.
pub open spec fn is_agent(entry: EntryView, prefix: Seq<char>) -> bool {
    &&& entry.is_dir
    &&& entry.name is Some
    &&& prefix.is_prefix_of(entry.name->0)
    &&& entry.has_soul
}

/// The folders of the agents of a kind, in the order of the entries.
pub open spec fn agents_among(entries: Seq<EntryView>, prefix: Seq<char>) -> Seq<FolderView>
    decreases entries.len(),
{
    if entries.len() == 0 {
        Seq::empty()
    } else {
        let before = agents_among(entries.drop_last(), prefix);
        let entry = entries.last();
        if is_agent(entry, prefix) {
            before.push(FolderView { name: entry.name->0, path: entry.path })
        } else {
            before
        }
    }
}

/// Whether folders are in the order of their names.
pub open spec fn sorted(items: Seq<FolderView>) -> bool {
    forall|i: int, j: int|
        0 <= i <= j < items.len() ==> in_order((#[trigger] items[i]).name, (#[trigger] items[j]).name)
}

/// Inserts a folder into folders that are in order, so that they stay in order.
fn insert_sorted(items: &mut Vec<AgentFolder>, item: AgentFolder)
    requires
        sorted(folders(old(items)@)),
    ensures
        sorted(folders(final(items)@)),
        folders(final(items)@).to_multiset() == folders(old(items)@).to_multiset().insert(item@),
{
    let ghost before = folders(items@);
    let mut at: usize = 0;
    while at < items.len() && ordered(items[at].name.as_str(), item.name.as_str())
        invariant
            at <= items@.len(),
            before == folders(items@),
            forall|k: int| 0 <= k < at ==> in_order(#[trigger] before[k].name, item@.name),
        decreases items@.len() - at,
    {
        assert(before[at as int] == items@[at as int]@);
        at += 1;
    }
    proof {
        if at < items@.len() {
            assert(before[at as int] == items@[at as int]@);
            lemma_in_order_total(before[at as int].name, item@.name);
        }
    }
    let ghost added = item@;
    items.insert(at, item);
    proof {
        let after = folders(items@);
        assert(after =~= before.insert(at as int, added));
        before.insert_ensures(at as int, added);
        broadcast use vstd::seq_lib::group_to_multiset_ensures;
        assert(after.to_multiset() =~= before.to_multiset().insert(added));
        assert forall|i: int, j: int| 0 <= i <= j < after.len() implies in_order(
            (#[trigger] after[i]).name,
            (#[trigger] after[j]).name,
        ) by {
            if i < at && j == at {
                assert(in_order(before[i].name, added.name));
            } else if i == at && j > at {
                assert(after[j] == before[j - 1]);
                assert(in_order(before[at as int].name, before[j - 1].name));
                lemma_in_order_transitive(
                    added.name,
                    before[at as int].name,
                    before[j - 1].name,
                );
            } else if i == at && j == at {
                lemma_in_order_total(added.name, added.name);
            } else {
                let a = if i < at {
                    i
                } else {
                    i - 1
                };
                let b = if j < at {
                    j
                } else {
                    j - 1
                };
                assert(after[i] == before[a] && after[j] == before[b]);
                assert(in_order(before[a].name, before[b].name));
            }
        }
    }
}

/// The folders of the agents of a kind in a directory, in the order of their
/// names.
pub fn discover_agents_by_prefix(entries: &Vec<FolderEntry>, prefix: &str) -> (r: Vec<AgentFolder>)
    ensures
        sorted(folders(r@)),
        folders(r@).to_multiset() == agents_among(listing(entries@), prefix@).to_multiset(),
{
    let mut found: Vec<AgentFolder> = Vec::new();
    let mut i: usize = 0;
    let ghost all = listing(entries@);
    proof {
        assert(folders(found@) =~= agents_among(all.take(0), prefix@));
    }
    while i < entries.len()
        invariant
            i <= entries@.len(),
            all == listing(entries@),
            sorted(folders(found@)),
            folders(found@).to_multiset() == agents_among(
                all.take(i as int),
                prefix@,
            ).to_multiset(),
        decreases entries@.len() - i,
    {
        let entry = &entries[i];
        proof {
            assert(all.take(i + 1).drop_last() =~= all.take(i as int));
            assert(all.take(i + 1).last() == entry@);
        }
        match &entry.name {
            Some(name) => if entry.is_dir && begins_with(name.as_str(), prefix) && entry.has_soul {
                let ghost before = agents_among(all.take(i as int), prefix@);
                let folder = AgentFolder { name: name.clone(), path: entry.path.clone() };
                proof {
                    broadcast use vstd::seq_lib::group_to_multiset_ensures;
                    assert(before.push(folder@).to_multiset() =~= before.to_multiset().insert(folder@));
                }
                insert_sorted(&mut found, folder);
            },
            None => {},
        }
        i += 1;
    }
    assert(all.take(i as int) =~= all);
    found
}

/// The folders of the kernel agents in a directory, in the order of their names: the
/// directories `evo-kernel-agent-*` that hold a `soul.md`.
pub fn discover_kernel_agents(entries: &Vec<FolderEntry>) -> (r: Vec<AgentFolder>)
    ensures
        sorted(folders(r@)),
        folders(r@).to_multiset() == agents_among(listing(entries@), KERNEL_PREFIX@).to_multiset(),
{
    discover_agents_by_prefix(entries, KERNEL_PREFIX)
}

/// The folders of the user agents in a directory, in the order of their names: the
/// directories `evo-user-agent-*` that hold a `soul.md`.
pub fn discover_user_agents(entries: &Vec<FolderEntry>) -> (r: Vec<AgentFolder>)
    ensures
        sorted(folders(r@)),
        folders(r@).to_multiset() == agents_among(listing(entries@), USER_PREFIX@).to_multiset(),
{
    discover_agents_by_prefix(entries, USER_PREFIX)
}

/// Where each folder of the agents of a kind comes from.
proof fn lemma_agents_among(entries: Seq<EntryView>, prefix: Seq<char>, i: int) -> (k: int)
    requires
        0 <= i < agents_among(entries, prefix).len(),
    ensures
        0 <= k < entries.len(),
        is_agent(entries[k], prefix),
        agents_among(entries, prefix)[i] == (FolderView {
            name: entries[k].name->0,
            path: entries[k].path,
        }),
    decreases entries.len(),
{
    let before = agents_among(entries.drop_last(), prefix);
    if i < before.len() {
        lemma_agents_among(entries.drop_last(), prefix, i)
    } else {
        entries.len() - 1
    }
}

/// The folders of the agents of a kind with one more entry.
spec fn agents_with(
    found: Multiset<FolderView>,
    entry: EntryView,
    prefix: Seq<char>,
) -> Multiset<FolderView> {
    if is_agent(entry, prefix) {
        found.insert(FolderView { name: entry.name->0, path: entry.path })
    } else {
        found
    }
}

proof fn lemma_agents_fold(entries: Seq<EntryView>, prefix: Seq<char>)
    ensures
        agents_among(entries, prefix).to_multiset() == entries.fold_left(
            Multiset::empty(),
            |found: Multiset<FolderView>, entry: EntryView| agents_with(found, entry, prefix),
        ),
    decreases entries.len(),
{
    broadcast use vstd::seq_lib::group_to_multiset_ensures;

    if entries.len() == 0 {
        assert(agents_among(entries, prefix).to_multiset() =~= Multiset::empty());
    } else {
        lemma_agents_fold(entries.drop_last(), prefix);
        let before = agents_among(entries.drop_last(), prefix);
        let entry = entries.last();
        let folder = FolderView { name: entry.name->0, path: entry.path };
        assert(before.push(folder).to_multiset() =~= before.to_multiset().insert(folder));
    }
}

/// The order of folders by their names, and by their paths where these are the same.
spec fn folder_order(a: FolderView, b: FolderView) -> bool {
    if a.name == b.name {
        in_order(a.path, b.path)
    } else {
        in_order(a.name, b.name)
    }
}

proof fn lemma_folder_order()
    ensures
        total_ordering(|a: FolderView, b: FolderView| folder_order(a, b)),
{
    let leq = |a: FolderView, b: FolderView| folder_order(a, b);
    assert forall|a: FolderView| #[trigger] leq(a, a) by {
        lemma_in_order_total(a.path, a.path);
    }
    assert forall|a: FolderView, b: FolderView| #[trigger] leq(a, b) && #[trigger] leq(
        b,
        a,
    ) implies a == b by {
        if a.name == b.name {
            lemma_in_order_antisymmetric(a.path, b.path);
        } else {
            lemma_in_order_antisymmetric(a.name, b.name);
        }
    }
    assert forall|a: FolderView, b: FolderView, c: FolderView| #[trigger] leq(
        a,
        b,
    ) && #[trigger] leq(b, c) implies leq(a, c) by {
        if a.name == b.name && b.name == c.name {
            lemma_in_order_transitive(a.path, b.path, c.path);
        } else if a.name != b.name && b.name != c.name {
            lemma_in_order_transitive(a.name, b.name, c.name);
            if a.name == c.name {
                lemma_in_order_antisymmetric(a.name, b.name);
            }
        }
    }
    assert forall|a: FolderView, b: FolderView| #[trigger] leq(a, b) || #[trigger] leq(b, a) by {
        lemma_in_order_total(a.path, b.path);
        lemma_in_order_total(a.name, b.name);
    }
}

/// Folders in the order of their names are in the order of folders where no name
/// stands for two of them.
proof fn lemma_sorted_folders(items: Seq<FolderView>, entries: Seq<EntryView>, prefix: Seq<char>)
    requires
        sorted(items),
        items.to_multiset() == agents_among(entries, prefix).to_multiset(),
        forall|i: int, j: int|
            0 <= i < entries.len() && 0 <= j < entries.len() && (#[trigger] entries[i]).name
                == (#[trigger] entries[j]).name ==> entries[i].path == entries[j].path,
    ensures
        sorted_by(items, |a: FolderView, b: FolderView| folder_order(a, b)),
{
    broadcast use vstd::seq_lib::group_to_multiset_ensures;

    let among = agents_among(entries, prefix);
    let leq = |a: FolderView, b: FolderView| folder_order(a, b);
    assert forall|i: int, j: int| 0 <= i < j < items.len() implies #[trigger] leq(
        items[i],
        items[j],
    ) by {
        assert(in_order(items[i].name, items[j].name));
        if items[i].name == items[j].name {
            assert(items.to_multiset().count(items[i]) > 0);
            assert(items.to_multiset().count(items[j]) > 0);
            assert(among.contains(items[i]) && among.contains(items[j]));
            let a = choose|a: int| 0 <= a < among.len() && among[a] == items[i];
            let b = choose|b: int| 0 <= b < among.len() && among[b] == items[j];
            let k = lemma_agents_among(entries, prefix, a);
            let m = lemma_agents_among(entries, prefix, b);
            assert(entries[k].name == entries[m].name);
            lemma_in_order_total(items[i].path, items[i].path);
        }
    }
}

/// Which agents of a kind are found, and in which order, does not depend on the order
/// in which a directory lists its entries. A name stands for one path in a directory.
pub proof fn law_discovery_ignores_the_order_of_the_listing(
    first: Seq<EntryView>,
    second: Seq<EntryView>,
    prefix: Seq<char>,
    found_first: Seq<FolderView>,
    found_second: Seq<FolderView>,
)
    requires
        first.to_multiset() == second.to_multiset(),
        forall|i: int, j: int|
            0 <= i < first.len() && 0 <= j < first.len() && (#[trigger] first[i]).name
                == (#[trigger] first[j]).name ==> first[i].path == first[j].path,
        sorted(found_first),
        found_first.to_multiset() == agents_among(first, prefix).to_multiset(),
        sorted(found_second),
        found_second.to_multiset() == agents_among(second, prefix).to_multiset(),
    ensures
        found_first == found_second,
{
    broadcast use vstd::seq_lib::group_to_multiset_ensures;

    let with_entry = |found: Multiset<FolderView>, entry: EntryView| agents_with(found, entry, prefix);
    assert forall|x: EntryView, y: EntryView, found: Multiset<FolderView>| #[trigger]
        with_entry(with_entry(found, x), y) == with_entry(with_entry(found, y), x) by {
        assert(with_entry(with_entry(found, x), y) =~= with_entry(with_entry(found, y), x));
    }
    lemma_agents_fold(first, prefix);
    lemma_agents_fold(second, prefix);
    lemma_fold_left_permutation(first, second, with_entry, Multiset::empty());
    lemma_folder_order();
    lemma_sorted_folders(found_first, first, prefix);
    lemma_sorted_folders(found_second, first, prefix);
    lemma_sorted_unique(
        found_first,
        found_second,
        |a: FolderView, b: FolderView| folder_order(a, b),
    );
}

/// No folder is that of a kernel agent and of a user agent.
pub proof fn law_no_agent_is_of_both_kinds(entries: Seq<EntryView>, i: int, j: int)
    requires
        0 <= i < agents_among(entries, KERNEL_PREFIX@).len(),
        0 <= j < agents_among(entries, USER_PREFIX@).len(),
    ensures
        agents_among(entries, KERNEL_PREFIX@)[i].name != agents_among(entries, USER_PREFIX@)[j].name,
{
    reveal_strlit("evo-kernel-agent-");
    reveal_strlit("evo-user-agent-");
    let a = lemma_agents_among(entries, KERNEL_PREFIX@, i);
    let b = lemma_agents_among(entries, USER_PREFIX@, j);
    let kernel = entries[a].name->0;
    let user = entries[b].name->0;
    assert(kernel[4] == KERNEL_PREFIX@[4]);
    assert(user[4] == USER_PREFIX@[4]);
}

// Roles.

/// A name with underscores in place of its hyphens.
pub open spec fn underscored(name: Seq<char>) -> Seq<char> {
    replaced(name, '-', "_"@)
}

/// Whether a folder is named after a role. Roles are written with underscores and
/// folders with hyphens.
pub open spec fn names_role(folder: Seq<char>, role: Seq<char>) -> bool {
    has_part(underscored(folder), underscored(role))
}

/// Whether a folder is named after a role.
pub fn is_named_after(folder: &str, role: &str) -> (r: bool)
    ensures
        r == names_role(folder@, role@),
{
    let a = replace(folder, '-', "_");
    let b = replace(role, '-', "_");
    contains(a.as_str(), b.as_str())
}

/// The role of the agent in a folder.
pub open spec fn folder_role(folder_name: Seq<char>) -> Seq<char> {
    if KERNEL_PREFIX@.is_prefix_of(folder_name) {
        underscored(folder_name.skip(KERNEL_PREFIX@.len() as int))
    } else {
        folder_name
    }
}

/// The role of the agent in a folder: what follows `evo-kernel-agent-`, written with
/// underscores, and the folder's own name for any other agent.
pub fn role_of_folder(folder_name: &str) -> (r: String)
    ensures
        r@ == folder_role(folder_name@),
{
    if begins_with(folder_name, KERNEL_PREFIX) {
        let chars = characters(folder_name);
        let skip: usize = characters(KERNEL_PREFIX).len();
        let rest = piece(&chars, skip, chars.len());
        assert(rest@ =~= folder_name@.skip(KERNEL_PREFIX@.len() as int));
        replace(rest.as_str(), '-', "_")
    } else {
        folder_name.to_string()
    }
}

/// A character with an underscore in place of a hyphen.
spec fn underscored_char(c: char) -> char {
    if c == '-' {
        '_'
    } else {
        c
    }
}

proof fn lemma_underscored(name: Seq<char>)
    ensures
        underscored(name).len() == name.len(),
        forall|i: int|
            0 <= i < name.len() ==> #[trigger] underscored(name)[i] == underscored_char(name[i]),
    decreases name.len(),
{
    reveal_strlit("_");
    if name.len() > 0 {
        lemma_underscored(name.drop_last());
        assert(underscored(name) == underscored(name.drop_last()) + (if name.last() == '-' {
            "_"@
        } else {
            seq![name.last()]
        }));
        assert forall|i: int| 0 <= i < name.len() implies #[trigger] underscored(name)[i]
            == underscored_char(name[i]) by {
            if i < name.len() - 1 {
                assert(underscored(name)[i] == underscored(name.drop_last())[i]);
            }
        }
    }
}

/// Every folder is named after the role of its agent, so that the agent is found by
/// its role.
pub proof fn law_folders_are_named_after_roles(folder_name: Seq<char>)
    ensures
        names_role(folder_name, folder_role(folder_name)),
{
    let role = folder_role(folder_name);
    let whole = underscored(folder_name);
    let part = underscored(role);
    lemma_underscored(folder_name);
    lemma_underscored(role);
    if KERNEL_PREFIX@.is_prefix_of(folder_name) {
        let at = KERNEL_PREFIX@.len() as int;
        let rest = folder_name.skip(at);
        lemma_underscored(rest);
        assert(whole.subrange(at, at + part.len()) =~= part);
        assert(occurs_at(whole, part, at));
    } else {
        assert(whole.subrange(0, part.len() as int) =~= part);
        assert(occurs_at(whole, part, 0));
    }
}

/// The kernel agents of an installation are those that are expected to run: the role
/// of the agent in each folder is the expected one, and its binary has the name under
/// which it is installed.
pub proof fn law_installed_agents_are_expected(i: int)
    requires
        0 <= i < kernel_agent_table().len(),
    ensures
        kernel_agent_table().len() == expected_roles().len(),
        folder_role(kernel_agent_table()[i].0) == expected_roles()[i],
        binary_name(kernel_agent_table()[i].0) == kernel_agent_table()[i].1,
{
    reveal_strlit("evo-kernel-agent-");
    reveal_strlit("evo-agent-");
    reveal_strlit("evo-kernel-agent-learning");
    reveal_strlit("evo-kernel-agent-building");
    reveal_strlit("evo-kernel-agent-pre-load");
    reveal_strlit("evo-kernel-agent-evaluation");
    reveal_strlit("evo-kernel-agent-skill-manage");
    reveal_strlit("evo-kernel-agent-update");
    reveal_strlit("evo-agent-learning");
    reveal_strlit("evo-agent-building");
    reveal_strlit("evo-agent-pre-load");
    reveal_strlit("evo-agent-evaluation");
    reveal_strlit("evo-agent-skill-manage");
    reveal_strlit("evo-agent-update");
    reveal_strlit("learning");
    reveal_strlit("building");
    reveal_strlit("pre_load");
    reveal_strlit("evaluation");
    reveal_strlit("skill_manage");
    reveal_strlit("update");
    let name = kernel_agent_table()[i].0;
    assert(KERNEL_PREFIX@.is_prefix_of(name));
    lemma_underscored(name.skip(17));
    assert(folder_role(name) =~= expected_roles()[i]);
    assert(binary_name(name) =~= kernel_agent_table()[i].1);
}

// Starting processes.

/// The name of the binary of the agent in a folder.
pub open spec fn binary_name(folder_name: Seq<char>) -> Seq<char> {
    if KERNEL_PREFIX@.is_prefix_of(folder_name) {
        "evo-agent-"@ + folder_name.skip(KERNEL_PREFIX@.len() as int)
    } else {
        folder_name
    }
}

/// The name of the binary of the agent in a folder: `evo-agent-` in place of
/// `evo-kernel-agent-`, and the folder's own name for any other agent.
pub fn per_agent_binary_name(folder_name: &str) -> (r: String)
    ensures
        r@ == binary_name(folder_name@),
{
    if begins_with(folder_name, KERNEL_PREFIX) {
        let chars = characters(folder_name);
        let skip: usize = characters(KERNEL_PREFIX).len();
        let rest = piece(&chars, skip, chars.len());
        assert(rest@ =~= folder_name@.skip(KERNEL_PREFIX@.len() as int));
        concat2("evo-agent-", rest.as_str())
    } else {
        folder_name.to_string()
    }
}

/// How a process is started: the program, its arguments, the directory it runs in
/// where that is another one, and the address of the king.
pub struct SpawnCommand {
    pub program: String,
    pub args: Vec<String>,
    pub dir: Option<String>,
    pub king_address: String,
}

/// The path of the binary of the agent in a folder.
pub fn agent_binary_path(folder: &str, folder_name: &str) -> (r: String)
    ensures
        r@ == joined_path(folder@, binary_name(folder_name@)),
{
    let name = per_agent_binary_name(folder_name);
    join_path(folder, name.as_str())
}

/// How the agent in a folder is started: by its own binary where that exists, else
/// by the generic runner with the folder as argument.
pub fn spawn_runner(
    runner_binary: &str,
    folder: &str,
    folder_name: &str,
    king_address: &str,
    binary_exists: bool,
) -> (r: SpawnCommand)
    ensures
        r.king_address@ == king_address@,
        binary_exists ==> {
            &&& r.program@ == joined_path(folder@, binary_name(folder_name@))
            &&& texts(r.args@) == Seq::<Seq<char>>::empty()
            &&& opt_text(r.dir) == Some(folder@)
        },
        !binary_exists ==> {
            &&& r.program@ == runner_binary@
            &&& texts(r.args@) == seq![folder@]
            &&& r.dir is None
        },
{
    if binary_exists {
        let args: Vec<String> = Vec::new();
        assert(texts(args@) =~= Seq::<Seq<char>>::empty());
        SpawnCommand {
            program: agent_binary_path(folder, folder_name),
            args,
            dir: Some(folder.to_string()),
            king_address: king_address.to_string(),
        }
    } else {
        let args = vec![folder.to_string()];
        assert(texts(args@) =~= seq![folder@]);
        SpawnCommand {
            program: runner_binary.to_string(),
            args,
            dir: None,
            king_address: king_address.to_string(),
        }
    }
}

// The registry of processes.

/// A process that the king has started.
pub struct AgentProcess {
    pub pid: u32,
    pub agent_folder: String,
}

/// The processes that the king has started, each under a key of its own.
pub struct AgentRegistry {
    processes: KeyedList<AgentProcess>,
}

impl View for AgentRegistry {
    type V = Map<Seq<char>, AgentProcess>;

    closed spec fn view(&self) -> Map<Seq<char>, AgentProcess> {
        self.processes@
    }
}

impl AgentRegistry {
    /// Whether no two processes have the same key.
    pub closed spec fn wf(self) -> bool {
        self.processes.wf()
    }

    /// A registry without processes.
    pub fn new() -> (r: AgentRegistry)
        ensures
            r.wf(),
            r@ == Map::<Seq<char>, AgentProcess>::empty(),
    {
        AgentRegistry { processes: KeyedList::new() }
    }

    /// Registers a process that was started, in place of the one with its key.
    pub fn register(&mut self, key: &str, process: AgentProcess)
        requires
            old(self).wf(),
        ensures
            final(self).wf(),
            final(self)@ == old(self)@.insert(key@, process),
    {
        self.processes.insert(key.to_string(), process);
    }

    /// Takes the process with a key out of the registry.
    pub fn unregister(&mut self, key: &str) -> (r: Option<AgentProcess>)
        requires
            old(self).wf(),
        ensures
            final(self).wf(),
            final(self)@ == old(self)@.remove(key@),
            match r {
                Some(process) => old(self)@.dom().contains(key@) && old(self)@[key@] == process,
                None => !old(self)@.dom().contains(key@),
            },
    {
        self.processes.remove(key)
    }

    /// The process id of a process whose folder is named after a role. Where several
    /// are, it is that of one of them.
    pub fn pid_by_folder_hint(&self, role: &str) -> (r: Option<u32>)
        requires
            self.wf(),
        ensures
            match r {
                Some(pid) => exists|key: Seq<char>| #[trigger]
                    self@.dom().contains(key) && self@[key].pid == pid && names_role(
                        self@[key].agent_folder@,
                        role@,
                    ),
                None => forall|key: Seq<char>| #[trigger]
                    self@.dom().contains(key) ==> !names_role(self@[key].agent_folder@, role@),
            },
    {
        let ghost keys = self.processes.keys();
        let mut i: usize = 0;
        while i < self.processes.len()
            invariant
                self.wf(),
                keys == self.processes.keys(),
                i <= keys.len(),
                forall|k: int|
                    0 <= k < i ==> !names_role(self@[#[trigger] keys[k]].agent_folder@, role@),
            decreases keys.len() - i,
        {
            let process = self.processes.value_at(i);
            if is_named_after(process.agent_folder.as_str(), role) {
                assert(self@.dom().contains(keys[i as int]));
                return Some(process.pid);
            }
            i += 1;
        }
        proof {
            self.processes.lemma_keys();
            assert forall|key: Seq<char>| #[trigger] self@.dom().contains(key) implies !names_role(
                self@[key].agent_folder@,
                role@,
            ) by {
                let k = choose|k: int| 0 <= k < keys.len() && keys[k] == key;
                assert(!names_role(self@[keys[k]].agent_folder@, role@));
            }
        }
        None
    }

    /// All processes: their keys, process ids and folders, each once.
    pub fn all_agents(&self) -> (r: Vec<(String, u32, String)>)
        requires
            self.wf(),
        ensures
            forall|i: int|
                0 <= i < r@.len() ==> self@.dom().contains((#[trigger] r@[i]).0@) && self@[r@[i].0@].pid
                    == r@[i].1 && self@[r@[i].0@].agent_folder@ == r@[i].2@,
            forall|i: int, j: int|
                0 <= i < j < r@.len() ==> (#[trigger] r@[i]).0@ != (#[trigger] r@[j]).0@,
            forall|key: Seq<char>| #[trigger]
                self@.dom().contains(key) ==> exists|i: int|
                    0 <= i < r@.len() && (#[trigger] r@[i]).0@ == key,
    {
        let ghost keys = self.processes.keys();
        let mut out: Vec<(String, u32, String)> = Vec::new();
        let mut i: usize = 0;
        proof {
            self.processes.lemma_keys();
        }
        while i < self.processes.len()
            invariant
                self.wf(),
                keys == self.processes.keys(),
                i <= keys.len(),
                out@.len() == i,
                forall|k: int|
                    0 <= k < i ==> (#[trigger] out@[k]).0@ == keys[k] && self@.dom().contains(keys[k])
                        && self@[keys[k]].pid == out@[k].1 && self@[keys[k]].agent_folder@
                        == out@[k].2@,
            decreases keys.len() - i,
        {
            let process = self.processes.value_at(i);
            out.push(
                (self.processes.key_at(i).to_string(), process.pid, process.agent_folder.clone()),
            );
            i += 1;
        }
        proof {
            assert forall|key: Seq<char>| #[trigger] self@.dom().contains(key) implies exists|i: int|
                0 <= i < out@.len() && (#[trigger] out@[i]).0@ == key by {
                let k = choose|k: int| 0 <= k < keys.len() && keys[k] == key;
                assert(out@[k].0@ == key);
            }
        }
        out
    }
}

// Starting processes again.

/// What is done next about a process that exited.
pub enum Respawn {
    /// Wait, then try to start it.
    Try { attempt: u32, delay_secs: u64 },
    /// It runs again.
    Recovered,
    /// It is given up, with this message.
    GiveUp { message: String },
}

/// What a [`Respawn`] holds.
pub enum RespawnView {
    Try { attempt: u32, delay_secs: u64 },
    Recovered,
    GiveUp { message: Seq<char> },
}

impl View for Respawn {
    type V = RespawnView;

    open spec fn view(&self) -> RespawnView {
        match self {
            Respawn::Try { attempt, delay_secs } => RespawnView::Try {
                attempt: *attempt,
                delay_secs: *delay_secs,
            },
            Respawn::Recovered => RespawnView::Recovered,
            Respawn::GiveUp { message } => RespawnView::GiveUp { message: message@ },
        }
    }
}

/// Seconds to wait before the attempt with a number, the first being number one.
pub open spec fn respawn_delay(attempt: int) -> int
    decreases attempt,
{
    if attempt <= 1 {
        RESPAWN_BASE_DELAY_SECS as int
    } else {
        2 * respawn_delay(attempt - 1)
    }
}

/// The attempt with a number.
pub open spec fn attempt_number(attempt: int) -> RespawnView {
    RespawnView::Try { attempt: attempt as u32, delay_secs: respawn_delay(attempt) as u64 }
}

/// What follows on an attempt.
pub open spec fn after_attempt_view(attempt: int, started: bool) -> RespawnView {
    if started {
        RespawnView::Recovered
    } else if attempt < MAX_RESPAWN_ATTEMPTS {
        attempt_number(attempt + 1)
    } else {
        RespawnView::GiveUp {
            message: "all "@ + decimal(MAX_RESPAWN_ATTEMPTS as nat) + " respawn attempts failed"@,
        }
    }
}

/// Seconds to wait before the attempt with a number.
fn delay_before(attempt: u32) -> (r: u64)
    requires
        attempt <= MAX_RESPAWN_ATTEMPTS,
    ensures
        r == respawn_delay(attempt as int),
    decreases attempt,
{
    proof {
        reveal_with_fuel(respawn_delay, 4);
    }
    if attempt <= 1 {
        RESPAWN_BASE_DELAY_SECS
    } else {
        2 * delay_before(attempt - 1)
    }
}

/// What is done first about a process that exited.
pub fn first_attempt() -> (r: Respawn)
    ensures
        r@ == attempt_number(1),
{
    Respawn::Try { attempt: 1, delay_secs: RESPAWN_BASE_DELAY_SECS }
}

/// What follows on an attempt to start a process again.
pub fn after_attempt(attempt: u32, started: bool) -> (r: Respawn)
    ensures
        r@ == after_attempt_view(attempt as int, started),
{
    if started {
        Respawn::Recovered
    } else if attempt < MAX_RESPAWN_ATTEMPTS {
        Respawn::Try { attempt: attempt + 1, delay_secs: delay_before(attempt + 1) }
    } else {
        let count = decimal_text(MAX_RESPAWN_ATTEMPTS as u64);
        Respawn::GiveUp { message: concat3("all ", count.as_str(), " respawn attempts failed") }
    }
}

/// What is left of a process that exited after the outcomes of the attempts, the
/// one with the given number first.
pub open spec fn respawned(state: RespawnView, outcomes: Seq<bool>) -> RespawnView
    decreases outcomes.len(),
{
    match state {
        RespawnView::Try { attempt, .. } => if outcomes.len() == 0 {
            state
        } else {
            respawned(after_attempt_view(attempt as int, outcomes[0]), outcomes.drop_first())
        },
        _ => state,
    }
}

/// Of three attempts, waiting five, ten and twenty seconds, the first that starts
/// the process ends the matter; it is given up exactly when all three fail.
pub proof fn law_three_attempts(a: bool, b: bool, c: bool)
    ensures
        attempt_number(1) == (RespawnView::Try { attempt: 1, delay_secs: 5 }),
        !a ==> respawned(attempt_number(1), seq![a]) == (RespawnView::Try {
            attempt: 2,
            delay_secs: 10,
        }),
        !a && !b ==> respawned(attempt_number(1), seq![a, b]) == (RespawnView::Try {
            attempt: 3,
            delay_secs: 20,
        }),
        respawned(attempt_number(1), seq![a, b, c]) is GiveUp <==> !a && !b && !c,
        respawned(attempt_number(1), seq![a, b, c]) is Recovered <==> a || b || c,
{
    reveal_with_fuel(respawned, 5);
    reveal_with_fuel(respawn_delay, 4);
    assert(seq![a].drop_first() =~= Seq::<bool>::empty());
    assert(seq![a, b].drop_first() =~= seq![b]);
    assert(seq![b].drop_first() =~= Seq::<bool>::empty());
    assert(seq![a, b, c].drop_first() =~= seq![b, c]);
    assert(seq![b, c].drop_first() =~= seq![c]);
    assert(seq![c].drop_first() =~= Seq::<bool>::empty());
}

// Heartbeats.

/// What is known of the heartbeat of a role.
#[derive(Clone, Copy, PartialEq, Eq, Structural)]
pub enum Heartbeat {
    /// No agent of the role is on record.
    Unregistered,
    /// The time of the last heartbeat is not readable.
    Unreadable,
    /// The last heartbeat is recent enough.
    Healthy,
    /// The agent has been silent for this many seconds.
    Silent { elapsed_secs: i64 },
}

/// What a list of agents holds.
pub open spec fn agent_views(agents: Seq<AgentRow>) -> Seq<AgentView> {
    agents.map_values(|agent: AgentRow| agent@)
}

/// Position of the first agent whose role has the given one in it, or the number
/// of agents.
pub open spec fn first_of_role(agents: Seq<AgentView>, role: Seq<char>) -> nat
    decreases agents.len(),
{
    if agents.len() == 0 || has_part(agents[0].role, role) {
        0
    } else {
        1 + first_of_role(agents.drop_first(), role)
    }
}

/// What the time since a heartbeat says of an agent.
pub open spec fn heartbeat_of(elapsed: Option<i64>) -> Heartbeat {
    match elapsed {
        None => Heartbeat::Unreadable,
        Some(secs) => if secs <= HEARTBEAT_SILENCE_THRESHOLD_SECS {
            Heartbeat::Healthy
        } else {
            Heartbeat::Silent { elapsed_secs: secs }
        },
    }
}

/// What the time since a heartbeat says of an agent.
pub fn judge_heartbeat(elapsed: Option<i64>) -> (r: Heartbeat)
    ensures
        r == heartbeat_of(elapsed),
{
    match elapsed {
        None => Heartbeat::Unreadable,
        Some(secs) => if secs <= HEARTBEAT_SILENCE_THRESHOLD_SECS {
            Heartbeat::Healthy
        } else {
            Heartbeat::Silent { elapsed_secs: secs }
        },
    }
}

/// What the records of the agents say of the heartbeat of a role at a time.
pub open spec fn role_heartbeat(agents: Seq<AgentView>, role: Seq<char>, now: Instant) -> Heartbeat {
    let at = first_of_role(agents, role);
    if at >= agents.len() {
        Heartbeat::Unregistered
    } else {
        heartbeat_of(seconds_between(agents[at as int].last_heartbeat, now.secs, now.nanos))
    }
}

/// What the records of the agents say of the heartbeat of a role at a time.
pub fn check_heartbeat(agents: &Vec<AgentRow>, role: &str, now: Instant) -> (r: Heartbeat)
    ensures
        r == role_heartbeat(agent_views(agents@), role@, now),
{
    let ghost all = agent_views(agents@);
    let mut i: usize = 0;
    assert(all.skip(0) =~= all);
    while i < agents.len()
        invariant
            i <= agents@.len(),
            all == agent_views(agents@),
            i + first_of_role(all.skip(i as int), role@) == first_of_role(all, role@),
        decreases agents@.len() - i,
    {
        let ghost rest = all.skip(i as int);
        assert(rest[0] == agents@[i as int]@);
        if contains(agents[i].role.as_str(), role) {
            return judge_heartbeat(seconds_since(agents[i].last_heartbeat.as_str(), now));
        }
        assert(rest.drop_first() =~= all.skip(i + 1));
        i += 1;
    }
    Heartbeat::Unregistered
}

/// What is done about a role that has been silent.
pub enum Revival {
    /// Its process is still registered: wait for the next check.
    Wait,
    /// There is no folder of such an agent.
    NoFolder,
    /// Start the agent in a folder, and register it under the folder's name.
    Start { folder: AgentFolder },
}

/// Position of the first folder that is named after a role, or the number of
/// folders.
pub open spec fn first_folder(items: Seq<FolderView>, role: Seq<char>) -> nat
    decreases items.len(),
{
    if items.len() == 0 || names_role(items[0].name, role) {
        0
    } else {
        1 + first_folder(items.drop_first(), role)
    }
}

/// What is done about a role that has been silent, given whether a process of it
/// is registered and the folders of the kernel agents.
pub fn revive(registered: bool, items: &Vec<AgentFolder>, role: &str) -> (r: Revival)
    ensures
        registered <==> r is Wait,
        !registered ==> {
            let at = first_folder(folders(items@), role@);
            if at < items@.len() {
                r is Start && r->folder@ == folders(items@)[at as int]
            } else {
                r is NoFolder
            }
        },
{
    if registered {
        return Revival::Wait;
    }
    let ghost all = folders(items@);
    let mut i: usize = 0;
    assert(all.skip(0) =~= all);
    while i < items.len()
        invariant
            i <= items@.len(),
            all == folders(items@),
            i + first_folder(all.skip(i as int), role@) == first_folder(all, role@),
            !registered,
        decreases items@.len() - i,
    {
        let ghost rest = all.skip(i as int);
        assert(rest[0] == items@[i as int]@);
        if is_named_after(items[i].name.as_str(), role) {
            return Revival::Start {
                folder: AgentFolder { name: items[i].name.clone(), path: items[i].path.clone() },
            };
        }
        assert(rest.drop_first() =~= all.skip(i + 1));
        i += 1;
    }
    Revival::NoFolder
}

/// The message on an agent that the heartbeat check could not start.
pub fn revival_error(error: &str) -> (r: String)
    ensures
        r@ == "heartbeat watcher respawn failed: "@ + error@,
{
    concat2("heartbeat watcher respawn failed: ", error)
}

} // verus!
