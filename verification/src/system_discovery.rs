//! What is found on this machine: command line tools, the system itself and the
//! components of the installation.

use crate::doctor::{binaries, kernel_agent_table, kernel_agents};
use crate::json::{JsonTree, text, value_tree};
use crate::paths::{join_path, joined_path};
use crate::text::{
    begins_with, characters, concat2, concat3, contains, in_order, is_digit, is_white,
    leading_white, leading_word, lemma_in_order_antisymmetric, lemma_in_order_total,
    lemma_in_order_transitive, lemma_until_joined, lines, opt_str, opt_text, ordered, parse_number,
    parsed, piece, same, split_lines, split_words, text_or, texts, trim, trim_leading, trim_trailing,
    trimmed, trimmed_end, trimmed_start, unled, until, untrailed, without_return, words,
};
use crate::text_laws::{law_a_word_is_one_word, law_words_are_cut_at_white_space};
use serde_json::Value;
use vstd::prelude::*;

verus! {

/// Seconds that a probe may take.
pub const PROBE_TIMEOUT_SECS: u64 = 5;

/// Name of the file that the discovery is saved in.
pub const SYSTEM_INFO_FILENAME: &'static str = "system_info.json";

/// Whether a tool is there.
#[derive(Clone, Copy, Debug, PartialEq, Eq, Structural)]
pub enum ToolStatus {
    Available,
    NotFound,
    Suggested,
}

impl ToolStatus {
    /// The name of the status in JSON.
    pub open spec fn label(self) -> Seq<char> {
        match self {
            ToolStatus::Available => "available"@,
            ToolStatus::NotFound => "not_found"@,
            ToolStatus::Suggested => "suggested"@,
        }
    }

    /// The name of the status in JSON.
    pub fn name(self) -> (r: &'static str)
        ensures
            r@ == self.label(),
    {
        match self {
            ToolStatus::Available => "available",
            ToolStatus::NotFound => "not_found",
            ToolStatus::Suggested => "suggested",
        }
    }

    /// The status as JSON.
    pub fn to_json(self) -> (r: Value)
        ensures
            value_tree(r) == JsonTree::Text(self.label()),
    {
        text(self.name())
    }
}

/// A tool that was looked for.
#[derive(Clone, Debug)]
pub struct DiscoveredTool {
    pub name: String,
    pub version: Option<String>,
    pub path: Option<String>,
    pub status: ToolStatus,
    pub suggestion_reason: Option<String>,
    pub category: String,
}

/// What a [`DiscoveredTool`] holds.
pub struct ToolView {
    pub name: Seq<char>,
    pub version: Option<Seq<char>>,
    pub path: Option<Seq<char>>,
    pub status: ToolStatus,
    pub suggestion_reason: Option<Seq<char>>,
    pub category: Seq<char>,
}

impl View for DiscoveredTool {
    type V = ToolView;

    open spec fn view(&self) -> ToolView {
        ToolView {
            name: self.name@,
            version: opt_text(self.version),
            path: opt_text(self.path),
            status: self.status,
            suggestion_reason: opt_text(self.suggestion_reason),
            category: self.category@,
        }
    }
}

/// The system that the king runs on.
#[derive(Clone, Debug)]
pub struct SystemInfo {
    pub os: String,
    pub os_version: String,
    pub arch: String,
    pub hostname: String,
    pub cpu_count: usize,
    pub memory_bytes: Option<u64>,
    pub home_dir: String,
    pub evo_home: String,
}

/// A component of the installation.
#[derive(Clone, Debug)]
pub struct EvoComponent {
    pub name: String,
    pub binary_path: Option<String>,
    pub version: Option<String>,
    pub found: bool,
}

/// What an [`EvoComponent`] holds.
pub struct ComponentView {
    pub name: Seq<char>,
    pub binary_path: Option<Seq<char>>,
    pub version: Option<Seq<char>>,
    pub found: bool,
}

impl View for EvoComponent {
    type V = ComponentView;

    open spec fn view(&self) -> ComponentView {
        ComponentView {
            name: self.name@,
            binary_path: opt_text(self.binary_path),
            version: opt_text(self.version),
            found: self.found,
        }
    }
}

/// Outcome of an item of the checklist.
#[derive(Clone, Copy, Debug, PartialEq, Eq, Structural)]
pub enum ChecklistStatus {
    Pass,
    Fail,
    Suggested,
}

impl ChecklistStatus {
    /// The name of the status in JSON.
    pub open spec fn label(self) -> Seq<char> {
        match self {
            ChecklistStatus::Pass => "pass"@,
            ChecklistStatus::Fail => "fail"@,
            ChecklistStatus::Suggested => "suggested"@,
        }
    }

    /// The name of the status in JSON.
    pub fn name(self) -> (r: &'static str)
        ensures
            r@ == self.label(),
    {
        match self {
            ChecklistStatus::Pass => "pass",
            ChecklistStatus::Fail => "fail",
            ChecklistStatus::Suggested => "suggested",
        }
    }

    /// The status as JSON.
    pub fn to_json(self) -> (r: Value)
        ensures
            value_tree(r) == JsonTree::Text(self.label()),
    {
        text(self.name())
    }
}

/// An item of the checklist.
#[derive(Clone, Debug)]
pub struct ChecklistItem {
    pub name: String,
    pub status: ChecklistStatus,
    pub message: String,
}

/// What a [`ChecklistItem`] holds.
pub struct ItemView {
    pub name: Seq<char>,
    pub status: ChecklistStatus,
    pub message: Seq<char>,
}

impl View for ChecklistItem {
    type V = ItemView;

    open spec fn view(&self) -> ItemView {
        ItemView { name: self.name@, status: self.status, message: self.message@ }
    }
}

/// All that was found.
#[derive(Clone, Debug)]
pub struct SystemDiscovery {
    pub discovered_at: String,
    pub king_version: String,
    pub system: SystemInfo,
    pub tools: Vec<DiscoveredTool>,
    pub evo_components: Vec<EvoComponent>,
    pub checklist: Vec<ChecklistItem>,
}

/// What each of a list of tools holds.
pub open spec fn tool_views(items: Seq<DiscoveredTool>) -> Seq<ToolView> {
    items.map_values(|item: DiscoveredTool| item@)
}

/// What each of a list of components holds.
pub open spec fn component_views(items: Seq<EvoComponent>) -> Seq<ComponentView> {
    items.map_values(|item: EvoComponent| item@)
}

/// What each of a list of items holds.
pub open spec fn item_views(items: Seq<ChecklistItem>) -> Seq<ItemView> {
    items.map_values(|item: ChecklistItem| item@)
}

// Versions.

/// A word without one `v` at its start and without the commas at its end.
pub open spec fn bare_word(word: Seq<char>) -> Seq<char> {
    untrailed(
        if word.len() > 0 && word[0] == 'v' {
            word.drop_first()
        } else {
            word
        },
        ',',
    )
}

/// Whether a word looks like a version: it begins with a digit and has a full stop
/// in it.
pub open spec fn is_version(word: Seq<char>) -> bool {
    let bare = bare_word(word);
    bare.len() > 0 && is_digit(bare[0]) && bare.contains('.')
}

/// Position of the first word that looks like a version, or the number of words.
pub open spec fn first_version(items: Seq<Seq<char>>) -> nat
    decreases items.len(),
{
    if items.len() == 0 || is_version(items[0]) {
        0
    } else {
        1 + first_version(items.drop_first())
    }
}

/// The first line of a text without white characters at its ends.
pub open spec fn first_line(raw: Seq<char>) -> Seq<char> {
    if lines(raw).len() == 0 {
        trimmed(raw)
    } else {
        trimmed(lines(raw)[0])
    }
}

/// The version that the output of a tool names: the first word of its first line
/// that looks like one, or else the whole line.
pub open spec fn version_of(raw: Seq<char>) -> Seq<char> {
    let all = words(first_line(raw));
    let at = first_version(all);
    if at < all.len() {
        bare_word(all[at as int])
    } else {
        first_line(raw)
    }
}

/// Whether a text has no white characters.
pub open spec fn solid(s: Seq<char>) -> bool {
    forall|i: int| 0 <= i < s.len() ==> !is_white(#[trigger] s[i])
}

proof fn lemma_solid_word(s: Seq<char>)
    requires
        solid(s),
    ensures
        leading_word(s) == s.len(),
        s.len() > 0 ==> words(s) == seq![s],
        trimmed(s) == s,
    decreases s.len(),
{
    if s.len() > 0 {
        assert(s.drop_first().len() == s.len() - 1);
        assert forall|i: int| 0 <= i < s.drop_first().len() implies !is_white(
            #[trigger] s.drop_first()[i],
        ) by {
            assert(s.drop_first()[i] == s[i + 1]);
        }
        lemma_solid_word(s.drop_first());
        assert(!is_white(s[0]) && !is_white(s[s.len() - 1]));
        assert(s.take(s.len() as int) =~= s);
        assert(words(s.skip(s.len() as int)) =~= Seq::<Seq<char>>::empty());
        assert(seq![s] + Seq::<Seq<char>>::empty() =~= seq![s]);
    }
    assert(s.skip(0) =~= s);
}

proof fn lemma_leading_word(s: Seq<char>)
    ensures
        leading_word(s) <= s.len(),
        solid(s.take(leading_word(s) as int)),
        s.len() > 0 && !is_white(s[0]) ==> leading_word(s) > 0,
    decreases s.len(),
{
    if s.len() > 0 && !is_white(s[0]) {
        lemma_leading_word(s.drop_first());
        let n = leading_word(s.drop_first()) as int;
        assert forall|i: int| 0 <= i < n + 1 implies !is_white(#[trigger] s.take(n + 1)[i]) by {
            if i > 0 {
                assert(s.drop_first().take(n)[i - 1] == s[i]);
            }
        }
    }
}

proof fn lemma_words_are_solid(s: Seq<char>, k: int)
    requires
        0 <= k < words(s).len(),
    ensures
        words(s)[k].len() > 0,
        solid(words(s)[k]),
    decreases s.len(),
{
    if is_white(s[0]) {
        lemma_words_are_solid(s.drop_first(), k);
    } else {
        lemma_leading_word(s);
        let n = leading_word(s) as int;
        if k > 0 {
            assert(words(s)[k] == words(s.skip(n))[k - 1]);
            lemma_words_are_solid(s.skip(n), k - 1);
        }
    }
}

proof fn lemma_untrailed(s: Seq<char>, mark: char)
    ensures
        untrailed(s, mark).len() <= s.len(),
        untrailed(s, mark) == s.take(untrailed(s, mark).len() as int),
        untrailed(untrailed(s, mark), mark) == untrailed(s, mark),
    decreases s.len(),
{
    if s.len() > 0 && s.last() == mark {
        lemma_untrailed(s.drop_last(), mark);
        assert(s.drop_last().take(untrailed(s, mark).len() as int) =~= s.take(
            untrailed(s, mark).len() as int,
        ));
    } else {
        assert(s.take(s.len() as int) =~= s);
    }
}

proof fn lemma_leading_white(s: Seq<char>)
    ensures
        leading_white(s) <= s.len(),
        leading_white(s) < s.len() ==> !is_white(s[leading_white(s) as int]),
    decreases s.len(),
{
    if s.len() > 0 && is_white(s[0]) {
        lemma_leading_white(s.drop_first());
    }
}

proof fn lemma_trimmed_end(s: Seq<char>)
    ensures
        trimmed_end(s).len() <= s.len(),
        trimmed_end(s) == s.take(trimmed_end(s).len() as int),
        trimmed_end(s).len() > 0 ==> !is_white(trimmed_end(s).last()),
        s.len() > 0 && !is_white(s[0]) ==> trimmed_end(s).len() > 0,
    decreases s.len(),
{
    if s.len() > 0 && is_white(s.last()) {
        lemma_trimmed_end(s.drop_last());
        assert(s.drop_last().take(trimmed_end(s).len() as int) =~= s.take(
            trimmed_end(s).len() as int,
        ));
        if !is_white(s[0]) {
            assert(s.len() > 1);
            assert(s.drop_last()[0] == s[0]);
        }
    } else {
        assert(s.take(s.len() as int) =~= s);
    }
}

/// A text without white characters at its ends is not trimmed further, and trimming
/// adds no line break.
proof fn lemma_trimmed(s: Seq<char>)
    ensures
        trimmed(trimmed(s)) == trimmed(s),
        (forall|i: int| 0 <= i < s.len() ==> #[trigger] s[i] != '\n') ==> (forall|i: int|
            0 <= i < trimmed(s).len() ==> #[trigger] trimmed(s)[i] != '\n'),
{
    lemma_leading_white(s);
    let start = trimmed_start(s);
    lemma_trimmed_end(start);
    let r = trimmed(s);
    if start.len() > 0 {
        assert(start[0] == s[leading_white(s) as int]);
        assert(r[0] == start[0]);
        assert(leading_white(r) == 0);
    }
    assert(r.skip(0) =~= r);
    lemma_trimmed_end(r);
    assert(trimmed_end(r) == r);
    if forall|i: int| 0 <= i < s.len() ==> #[trigger] s[i] != '\n' {
        assert forall|i: int| 0 <= i < r.len() implies #[trigger] r[i] != '\n' by {
            assert(r[i] == start[i]);
            assert(start[i] == s[i + leading_white(s)]);
        }
    }
}

proof fn lemma_until(s: Seq<char>, stop: char)
    ensures
        until(s, stop) <= s.len(),
        forall|i: int| 0 <= i < until(s, stop) ==> #[trigger] s[i] != stop,
        (forall|i: int| 0 <= i < s.len() ==> #[trigger] s[i] != stop) ==> until(s, stop) == s.len(),
    decreases s.len(),
{
    if s.len() > 0 && s[0] != stop {
        lemma_until(s.drop_first(), stop);
        let n = until(s.drop_first(), stop);
        assert forall|i: int| 0 <= i < until(s, stop) implies #[trigger] s[i] != stop by {
            if i > 0 {
                assert(s.drop_first()[i - 1] == s[i]);
            }
        }
        if forall|i: int| 0 <= i < s.len() ==> #[trigger] s[i] != stop {
            assert forall|i: int| 0 <= i < s.drop_first().len() implies #[trigger] s.drop_first()[i]
                != stop by {
                assert(s.drop_first()[i] == s[i + 1]);
            }
        }
    }
}

/// The first line of a line is the line.
proof fn lemma_first_line(s: Seq<char>)
    requires
        forall|i: int| 0 <= i < s.len() ==> #[trigger] s[i] != '\n',
        trimmed(s) == s,
    ensures
        first_line(s) == s,
{
    lemma_until(s, '\n');
    if s.len() > 0 {
        assert(lines(s) == seq![s]);
    }
}

/// White space at the end of a text counts for nothing once the text is trimmed.
proof fn lemma_trimmed_push(s: Seq<char>, c: char)
    requires
        is_white(c),
    ensures
        trimmed(s.push(c)) == trimmed(s),
    decreases s.len(),
{
    let longer = s.push(c);
    if s.len() == 0 {
        assert(longer.drop_first() =~= Seq::<char>::empty());
        assert(leading_white(longer.drop_first()) == 0);
        assert(trimmed_start(longer) =~= Seq::<char>::empty());
        assert(trimmed_start(s) =~= Seq::<char>::empty());
    } else if is_white(s[0]) {
        lemma_trimmed_push(s.drop_first(), c);
        lemma_leading_white(s.drop_first());
        lemma_leading_white(longer.drop_first());
        assert(longer.drop_first() =~= s.drop_first().push(c));
        assert(trimmed_start(longer) =~= trimmed_start(longer.drop_first()));
        assert(trimmed_start(s) =~= trimmed_start(s.drop_first()));
    } else {
        assert(trimmed_start(longer) =~= longer);
        assert(trimmed_start(s) =~= s);
        assert(longer.drop_last() =~= s);
    }
}

/// Only the first line of the output of a tool counts for its version, whatever
/// follows it.
pub proof fn law_only_first_line_counts(line: Seq<char>, rest: Seq<char>)
    requires
        !line.contains('\n'),
    ensures
        version_of(line + seq!['\n'] + rest) == version_of(line),
{
    let raw = line + seq!['\n'] + rest;
    lemma_until_joined(line, '\n', rest);
    assert(raw.take(line.len() as int) =~= line);
    assert(lines(raw)[0] == without_return(line));
    if line.len() > 0 {
        assert forall|i: int| 0 <= i < line.len() implies #[trigger] line[i] != '\n' by {
            assert(line.contains(line[i]));
        }
        lemma_until(line, '\n');
        assert(lines(line)[0] == line);
        if line.last() == '\r' {
            lemma_trimmed_push(line.drop_last(), '\r');
            assert(line.drop_last().push('\r') =~= line);
        }
    }
    assert(first_line(raw) == first_line(line));
}

/// The version that a tool tells after its name is taken without a leading `v` and without
/// the commas after it.
pub proof fn law_the_version_after_the_name_is_told(name: Seq<char>, version: Seq<char>)
    requires
        solid(name),
        name.len() > 0,
        name[0] != 'v',
        !is_digit(name[0]),
        solid(version),
        version.len() > 0,
        is_digit(version[0]),
        version.contains('.'),
        version.last() != ',',
    ensures
        version_of(name + seq![' '] + version) == version,
        version_of(name + seq![' ', 'v'] + version) == version,
        version_of(name + seq![' '] + version + seq![',']) == version,
{
    assert(!is_version(name)) by {
        lemma_untrailed(name, ',');
        let bare = bare_word(name);
        if bare.len() > 0 {
            assert(bare[0] == name[0]);
        }
    }
    assert(untrailed(version, ',') == version);
    assert(bare_word(version) == version);
    lemma_version_word(name, version);
    let led = seq!['v'] + version;
    assert(led.drop_first() =~= version);
    assert(solid(led)) by {
        assert forall|i: int| 0 <= i < led.len() implies !is_white(#[trigger] led[i]) by {
            if i > 0 {
                assert(led[i] == version[i - 1]);
            }
        }
    }
    lemma_version_word(name, led);
    assert(name + seq![' ', 'v'] + version =~= name + seq![' '] + led);
    let trailed = version.push(',');
    assert(trailed.drop_last() =~= version);
    assert(solid(trailed)) by {
        assert forall|i: int| 0 <= i < trailed.len() implies !is_white(#[trigger] trailed[i]) by {
            if i < version.len() {
                assert(trailed[i] == version[i]);
            }
        }
    }
    assert(trailed[0] == version[0]);
    lemma_version_word(name, trailed);
    assert(name + seq![' '] + version + seq![','] =~= name + seq![' '] + trailed);
}

proof fn lemma_version_word(name: Seq<char>, word: Seq<char>)
    requires
        solid(name),
        name.len() > 0,
        !is_version(name),
        solid(word),
        word.len() > 0,
        is_version(word),
    ensures
        version_of(name + seq![' '] + word) == bare_word(word),
{
    let raw = name + seq![' '] + word;
    assert(raw =~= name.push(' ') + word);
    assert forall|i: int| 0 <= i < raw.len() implies #[trigger] raw[i] != '\n' by {
        if i < name.len() {
            assert(raw[i] == name[i]);
            assert(!is_white(name[i]));
        } else if i > name.len() {
            assert(raw[i] == word[i - name.len() - 1]);
            assert(!is_white(word[i - name.len() - 1]));
        }
    }
    assert(raw[0] == name[0]);
    assert(!is_white(name[0]));
    assert(leading_white(raw) == 0);
    assert(trimmed_start(raw) =~= raw);
    assert(raw.last() == word.last());
    assert(!is_white(word[word.len() - 1]));
    assert(trimmed(raw) == raw);
    lemma_first_line(raw);
    law_words_are_cut_at_white_space(name, ' ', word);
    law_a_word_is_one_word(name);
    law_a_word_is_one_word(word);
    let all = words(raw);
    assert(all =~= seq![name, word]);
    assert(all.drop_first() =~= seq![word]);
    assert(first_version(all.drop_first()) == 0);
    assert(first_version(all) == 1);
}

/// A version is the version of itself: what is read of the output of a tool stays the
/// same when it is read once more.
pub proof fn law_version_reads_back(raw: Seq<char>)
    ensures
        version_of(version_of(raw)) == version_of(raw),
{
    let line = first_line(raw);
    let all = words(line);
    let at = first_version(all);
    let r = version_of(raw);
    if at < all.len() {
        lemma_first_version(all);
        let word = all[at as int];
        lemma_words_are_solid(line, at as int);
        let inner = if word[0] == 'v' {
            word.drop_first()
        } else {
            word
        };
        assert(solid(inner)) by {
            assert forall|i: int| 0 <= i < inner.len() implies !is_white(#[trigger] inner[i]) by {
                if word[0] == 'v' {
                    assert(inner[i] == word[i + 1]);
                }
            }
        }
        lemma_untrailed(inner, ',');
        assert(solid(r)) by {
            assert forall|i: int| 0 <= i < r.len() implies !is_white(#[trigger] r[i]) by {
                assert(r[i] == inner[i]);
            }
        }
        lemma_solid_word(r);
        assert forall|i: int| 0 <= i < r.len() implies #[trigger] r[i] != '\n' by {
            assert(!is_white(r[i]));
        }
        lemma_first_line(r);
        assert(words(first_line(r)) == seq![r]);
        assert(seq![r][0] == r);
        assert(bare_word(r) == r);
        assert(first_version(seq![r]) == 0);
    } else {
        if lines(raw).len() > 0 {
            lemma_until(raw, '\n');
            let n = until(raw, '\n') as int;
            let first = lines(raw)[0];
            assert forall|i: int| 0 <= i < first.len() implies #[trigger] first[i] != '\n' by {
                assert(first[i] == raw[i]);
            }
            lemma_trimmed(first);
        } else {
            lemma_trimmed(raw);
        }
        lemma_first_line(r);
    }
}

proof fn lemma_first_version(items: Seq<Seq<char>>)
    ensures
        first_version(items) <= items.len(),
        first_version(items) < items.len() ==> is_version(items[first_version(items) as int]),
    decreases items.len(),
{
    if items.len() > 0 && !is_version(items[0]) {
        lemma_first_version(items.drop_first());
    }
}

/// A word without one `v` at its start and without the commas at its end.
fn strip_word(word: &str) -> (r: String)
    ensures
        r@ == bare_word(word@),
{
    let chars = characters(word);
    if chars.len() > 0 && chars[0] == 'v' {
        let rest = piece(&chars, 1, chars.len());
        assert(rest@ =~= word@.drop_first());
        trim_trailing(rest.as_str(), ',')
    } else {
        trim_trailing(word, ',')
    }
}

/// Whether a word without its ornaments looks like a version.
fn looks_like_version(bare: &str) -> (r: bool)
    ensures
        r == (bare@.len() > 0 && is_digit(bare@[0]) && bare@.contains('.')),
{
    let chars = characters(bare);
    if chars.len() == 0 || chars[0] < '0' || '9' < chars[0] {
        return false;
    }
    let mut i: usize = 0;
    while i < chars.len()
        invariant
            i <= chars@.len(),
            chars@ == bare@,
            chars@.len() > 0,
            is_digit(chars@[0]),
            forall|k: int| 0 <= k < i ==> chars@[k] != '.',
        decreases chars@.len() - i,
    {
        if chars[i] == '.' {
            assert(bare@[i as int] == '.');
            return true;
        }
        i += 1;
    }
    assert(!bare@.contains('.'));
    false
}

/// The version that the output of a tool names.
///
/// Handles `rustc 1.82.0 (hash)`, `v20.11.0`, `git version 2.43.0`, `10.2.4`,
/// `Docker version 24.0.7, build afdd53b` and the like.
pub fn parse_version_string(raw: &str) -> (r: String)
    ensures
        r@ == version_of(raw@),
{
    let all_lines = split_lines(raw);
    proof {
        assert(texts(all_lines@).len() == all_lines@.len());
    }
    let line = if all_lines.len() == 0 {
        trim(raw)
    } else {
        assert(texts(all_lines@)[0] == all_lines@[0]@);
        trim(all_lines[0].as_str())
    };
    let items = split_words(line.as_str());
    let ghost all = texts(items@);
    let mut i: usize = 0;
    assert(all.skip(0) =~= all);
    while i < items.len()
        invariant
            i <= items@.len(),
            line@ == first_line(raw@),
            all == texts(items@),
            all == words(line@),
            i + first_version(all.skip(i as int)) == first_version(all),
        decreases items@.len() - i,
    {
        let ghost rest = all.skip(i as int);
        assert(rest[0] == items@[i as int]@);
        let bare = strip_word(items[i].as_str());
        if looks_like_version(bare.as_str()) {
            return bare;
        }
        assert(rest.drop_first() =~= all.skip(i + 1));
        i += 1;
    }
    line
}

// Tools.

/// A tool to look for.
pub struct ToolProbe {
    pub name: &'static str,
    pub command: &'static str,
    pub version_args: Vec<&'static str>,
    pub category: &'static str,
    pub suggested: bool,
    pub suggestion_reason: &'static str,
}

/// The output of a tool that ran and succeeded.
pub struct ToolOutput {
    pub stdout: String,
    pub stderr: String,
}

/// The text that names the version: the standard output, or the error output where
/// the first is blank.
pub open spec fn version_source(stdout: Seq<char>, stderr: Seq<char>) -> Seq<char> {
    if trimmed(stdout).len() == 0 {
        stderr
    } else {
        stdout
    }
}

/// What is known of a tool that answered.
pub open spec fn available_tool(
    name: Seq<char>,
    category: Seq<char>,
    source: Seq<char>,
    path: Option<Seq<char>>,
) -> ToolView {
    ToolView {
        name,
        version: Some(version_of(source)),
        path,
        status: ToolStatus::Available,
        suggestion_reason: None,
        category,
    }
}

/// What is known of a tool that did not answer.
pub open spec fn absent_tool(
    name: Seq<char>,
    category: Seq<char>,
    suggested: bool,
    reason: Seq<char>,
) -> ToolView {
    ToolView {
        name,
        version: None,
        path: None,
        status: if suggested {
            ToolStatus::Suggested
        } else {
            ToolStatus::NotFound
        },
        suggestion_reason: if suggested {
            Some(reason)
        } else {
            None
        },
        category,
    }
}

/// What is known of a tool after it was run, with the path of its binary. A tool
/// that did not run, failed or took too long gave no output.
pub fn probe_tool(probe: &ToolProbe, output: Option<&ToolOutput>, path: Option<&str>) -> (r: DiscoveredTool)
    ensures
        r@ == (match output {
            Some(out) => available_tool(
                probe.name@,
                probe.category@,
                version_source(out.stdout@, out.stderr@),
                opt_str(path),
            ),
            None => absent_tool(
                probe.name@,
                probe.category@,
                probe.suggested,
                probe.suggestion_reason@,
            ),
        }),
{
    match output {
        Some(out) => {
            let blank = trim(out.stdout.as_str());
            let raw = if blank.as_str().is_empty() {
                out.stderr.as_str()
            } else {
                out.stdout.as_str()
            };
            DiscoveredTool {
                name: probe.name.to_string(),
                version: Some(parse_version_string(raw)),
                path: crate::text::owned(path),
                status: ToolStatus::Available,
                suggestion_reason: None,
                category: probe.category.to_string(),
            }
        },
        None => DiscoveredTool {
            name: probe.name.to_string(),
            version: None,
            path: None,
            status: if probe.suggested {
                ToolStatus::Suggested
            } else {
                ToolStatus::NotFound
            },
            suggestion_reason: if probe.suggested {
                Some(probe.suggestion_reason.to_string())
            } else {
                None
            },
            category: probe.category.to_string(),
        },
    }
}

/// What a [`ToolProbe`] holds.
pub struct ToolProbeView {
    pub name: Seq<char>,
    pub command: Seq<char>,
    pub version_args: Seq<Seq<char>>,
    pub category: Seq<char>,
    pub suggested: bool,
    pub suggestion_reason: Seq<char>,
}

/// The characters of each of a list of borrowed texts.
pub open spec fn str_texts(items: Seq<&str>) -> Seq<Seq<char>> {
    items.map_values(|item: &str| item@)
}

impl View for ToolProbe {
    type V = ToolProbeView;

    open spec fn view(&self) -> ToolProbeView {
        ToolProbeView {
            name: self.name@,
            command: self.command@,
            version_args: str_texts(self.version_args@),
            category: self.category@,
            suggested: self.suggested,
            suggestion_reason: self.suggestion_reason@,
        }
    }
}

/// A tool whose version is asked for by `--version`.
pub open spec fn plain_probe(
    name: Seq<char>,
    command: Seq<char>,
    category: Seq<char>,
    suggested: bool,
    suggestion_reason: Seq<char>,
) -> ToolProbeView {
    ToolProbeView {
        name,
        command,
        version_args: seq!["--version"@],
        category,
        suggested,
        suggestion_reason,
    }
}

/// A tool whose version is asked for by `--version`.
fn plain(
    name: &'static str,
    command: &'static str,
    category: &'static str,
    suggested: bool,
    suggestion_reason: &'static str,
) -> (r: ToolProbe)
    ensures
        r@ == plain_probe(name@, command@, category@, suggested, suggestion_reason@),
{
    let version_args: Vec<&'static str> = vec!["--version"];
    assert(str_texts(version_args@) =~= seq!["--version"@]);
    ToolProbe { name, command, version_args, category, suggested, suggestion_reason }
}

/// The tools to look for.
pub open spec fn tool_table() -> Seq<ToolProbeView> {
    seq![
        plain_probe("rustc"@, "rustc"@, "rust_toolchain"@, true, "Required for building evo agents"@),
        plain_probe("cargo"@, "cargo"@, "rust_toolchain"@, true, "Required for building evo agents"@),
        plain_probe("rustup"@, "rustup"@, "rust_toolchain"@, true, "Recommended for Rust toolchain management"@),
        ToolProbeView {
            name: "cargo-clippy"@,
            command: "cargo"@,
            version_args: seq!["clippy"@, "--version"@],
            category: "rust_toolchain"@,
            suggested: false,
            suggestion_reason: ""@,
        },
        plain_probe("cargo-fmt"@, "rustfmt"@, "rust_toolchain"@, false, ""@),
        plain_probe("node"@, "node"@, "node_js"@, true, "Required for evo-dashboard"@),
        plain_probe("npm"@, "npm"@, "node_js"@, true, "Required for evo-dashboard"@),
        plain_probe("npx"@, "npx"@, "node_js"@, false, ""@),
        plain_probe("bun"@, "bun"@, "node_js"@, false, ""@),
        plain_probe("git"@, "git"@, "system"@, true, "Required for repo cloning and updates"@),
        plain_probe("rg"@, "rg"@, "system"@, true, "Required for fast code search in agents"@),
        plain_probe("curl"@, "curl"@, "system"@, false, ""@),
        plain_probe("docker"@, "docker"@, "system"@, false, ""@),
        plain_probe("python3"@, "python3"@, "system"@, false, ""@),
    ]
}

/// What each of a list of probes holds.
pub open spec fn probe_views(items: Seq<ToolProbe>) -> Seq<ToolProbeView> {
    items.map_values(|item: ToolProbe| item@)
}

/// The tools to look for.
pub fn tool_probes() -> (r: Vec<ToolProbe>)
    ensures
        probe_views(r@) == tool_table(),
{
    let clippy_args: Vec<&'static str> = vec!["clippy", "--version"];
    assert(str_texts(clippy_args@) =~= seq!["clippy"@, "--version"@]);
    let r = vec![
        plain("rustc", "rustc", "rust_toolchain", true, "Required for building evo agents"),
        plain("cargo", "cargo", "rust_toolchain", true, "Required for building evo agents"),
        plain("rustup", "rustup", "rust_toolchain", true, "Recommended for Rust toolchain management"),
        ToolProbe {
            name: "cargo-clippy",
            command: "cargo",
            version_args: clippy_args,
            category: "rust_toolchain",
            suggested: false,
            suggestion_reason: "",
        },
        plain("cargo-fmt", "rustfmt", "rust_toolchain", false, ""),
        plain("node", "node", "node_js", true, "Required for evo-dashboard"),
        plain("npm", "npm", "node_js", true, "Required for evo-dashboard"),
        plain("npx", "npx", "node_js", false, ""),
        plain("bun", "bun", "node_js", false, ""),
        plain("git", "git", "system", true, "Required for repo cloning and updates"),
        plain("rg", "rg", "system", true, "Required for fast code search in agents"),
        plain("curl", "curl", "system", false, ""),
        plain("docker", "docker", "system", false, ""),
        plain("python3", "python3", "system", false, ""),
    ];
    assert(probe_views(r@) =~= tool_table());
    r
}

/// Whether a tool stands before another one, by category and then by name, or has
/// the same category and name.
pub open spec fn tools_in_order(a: ToolView, b: ToolView) -> bool {
    if a.category == b.category {
        in_order(a.name, b.name)
    } else {
        in_order(a.category, b.category)
    }
}

/// Whether tools are in order.
pub open spec fn tools_sorted(items: Seq<ToolView>) -> bool {
    forall|i: int, j: int|
        0 <= i <= j < items.len() ==> tools_in_order(#[trigger] items[i], #[trigger] items[j])
}

proof fn lemma_tools_total(a: ToolView, b: ToolView)
    ensures
        tools_in_order(a, b) || tools_in_order(b, a),
{
    lemma_in_order_total(a.name, b.name);
    lemma_in_order_total(a.category, b.category);
}

proof fn lemma_tools_transitive(a: ToolView, b: ToolView, c: ToolView)
    requires
        tools_in_order(a, b),
        tools_in_order(b, c),
    ensures
        tools_in_order(a, c),
{
    if a.category == b.category && b.category == c.category {
        lemma_in_order_transitive(a.name, b.name, c.name);
    } else if a.category != b.category && b.category != c.category {
        lemma_in_order_transitive(a.category, b.category, c.category);
        if a.category == c.category {
            lemma_in_order_antisymmetric(a.category, b.category);
        }
    }
}

/// Whether a tool stands before another one, or has the same category and name.
fn tool_ordered(a: &DiscoveredTool, b: &DiscoveredTool) -> (r: bool)
    ensures
        r == tools_in_order(a@, b@),
{
    if same(a.category.as_str(), b.category.as_str()) {
        ordered(a.name.as_str(), b.name.as_str())
    } else {
        ordered(a.category.as_str(), b.category.as_str())
    }
}

/// Inserts a tool into tools that are in order, so that they stay in order.
fn insert_tool(items: &mut Vec<DiscoveredTool>, item: DiscoveredTool)
    requires
        tools_sorted(tool_views(old(items)@)),
    ensures
        tools_sorted(tool_views(final(items)@)),
        tool_views(final(items)@).to_multiset() == tool_views(old(items)@).to_multiset().insert(
            item@,
        ),
{
    let ghost before = tool_views(items@);
    let mut at: usize = 0;
    while at < items.len() && tool_ordered(&items[at], &item)
        invariant
            at <= items@.len(),
            before == tool_views(items@),
            forall|k: int| 0 <= k < at ==> tools_in_order(#[trigger] before[k], item@),
        decreases items@.len() - at,
    {
        assert(before[at as int] == items@[at as int]@);
        at += 1;
    }
    proof {
        if at < items@.len() {
            assert(before[at as int] == items@[at as int]@);
            lemma_tools_total(before[at as int], item@);
        }
    }
    let ghost added = item@;
    items.insert(at, item);
    proof {
        let after = tool_views(items@);
        assert(after =~= before.insert(at as int, added));
        before.insert_ensures(at as int, added);
        broadcast use vstd::seq_lib::group_to_multiset_ensures;
        assert(after.to_multiset() =~= before.to_multiset().insert(added));
        assert forall|i: int, j: int| 0 <= i <= j < after.len() implies tools_in_order(
            #[trigger] after[i],
            #[trigger] after[j],
        ) by {
            if i < at && j == at {
                assert(tools_in_order(before[i], added));
            } else if i == at && j > at {
                assert(after[j] == before[j - 1]);
                assert(tools_in_order(before[at as int], before[j - 1]));
                lemma_tools_transitive(added, before[at as int], before[j - 1]);
            } else if i == at && j == at {
                lemma_tools_total(added, added);
            } else {
                let a = if i < at {
                    i
                } else {
                    i - 1
                };
                let b = if j < at {
                    j
                } else {
                    j - 1
                };
                assert(after[i] == before[a] && after[j] == before[b]);
                assert(tools_in_order(before[a], before[b]));
            }
        }
    }
}

/// The tools by category and then by name.
pub fn sort_tools(tools: Vec<DiscoveredTool>) -> (r: Vec<DiscoveredTool>)
    ensures
        tools_sorted(tool_views(r@)),
        tool_views(r@).to_multiset() == tool_views(tools@).to_multiset(),
{
    let mut rest = tools;
    let mut out: Vec<DiscoveredTool> = Vec::new();
    let ghost all = tool_views(tools@).to_multiset();
    proof {
        broadcast use vstd::seq_lib::group_to_multiset_ensures;
        assert(tool_views(out@) =~= Seq::empty());
        assert(all =~= tool_views(rest@).to_multiset().add(tool_views(out@).to_multiset()));
    }
    while rest.len() > 0
        invariant
            tools_sorted(tool_views(out@)),
            all =~= tool_views(rest@).to_multiset().add(tool_views(out@).to_multiset()),
        decreases rest@.len(),
    {
        let ghost before = tool_views(rest@);
        match rest.pop() {
            Some(tool) => {
                proof {
                    broadcast use vstd::seq_lib::group_to_multiset_ensures;
                    assert(before =~= tool_views(rest@).push(tool@));
                    assert(before.to_multiset() =~= tool_views(rest@).to_multiset().insert(tool@));
                }
                insert_tool(&mut out, tool);
            },
            None => {},
        }
    }
    proof {
        broadcast use vstd::seq_lib::group_to_multiset_ensures;
        assert(tool_views(rest@) =~= Seq::empty());
        assert(tool_views(out@).to_multiset() =~= all);
    }
    out
}

// The system.

/// What a command wrote, without white characters at its ends, where it succeeded.
pub open spec fn answer(stdout: Option<Seq<char>>) -> Option<Seq<char>> {
    match stdout {
        Some(s) => Some(trimmed(s)),
        None => None,
    }
}

/// The path that `which` wrote where it succeeded.
pub fn which_path(stdout: Option<&str>) -> (r: Option<String>)
    ensures
        opt_text(r) == answer(opt_str(stdout)),
{
    match stdout {
        Some(s) => Some(trim(s)),
        None => None,
    }
}

/// The name of the host that `hostname` wrote where it succeeded.
pub fn get_hostname(stdout: Option<&str>) -> (r: String)
    ensures
        r@ == text_or(answer(opt_str(stdout)), "unknown"@),
{
    match stdout {
        Some(s) => trim(s),
        None => "unknown".to_string(),
    }
}

/// The version of the system that `sw_vers` wrote on macOS where it succeeded; empty
/// where it did not.
pub fn macos_version(stdout: Option<&str>) -> (r: String)
    ensures
        r@ == text_or(answer(opt_str(stdout)), ""@),
{
    match stdout {
        Some(s) => trim(s),
        None => "".to_string(),
    }
}

/// The bytes of memory that `sysctl` wrote on macOS, where it succeeded and wrote a
/// number.
pub open spec fn macos_bytes(stdout: Option<Seq<char>>) -> Option<nat> {
    match answer(stdout) {
        Some(s) => parsed(s, u64::MAX as nat),
        None => None,
    }
}

/// The bytes of memory that `sysctl` wrote on macOS, where it succeeded and wrote a
/// number.
pub fn macos_memory(stdout: Option<&str>) -> (r: Option<u64>)
    ensures
        match r {
            Some(bytes) => macos_bytes(opt_str(stdout)) == Some(bytes as nat),
            None => macos_bytes(opt_str(stdout)) is None,
        },
{
    match stdout {
        Some(s) => {
            let number = trim(s);
            parse_number(number.as_str(), u64::MAX)
        },
        None => None,
    }
}

/// Position of the first text that begins with another one, or the number of
/// texts.
pub open spec fn first_beginning(items: Seq<Seq<char>>, start: Seq<char>) -> nat
    decreases items.len(),
{
    if items.len() == 0 || start.is_prefix_of(items[0]) {
        0
    } else {
        1 + first_beginning(items.drop_first(), start)
    }
}

/// Position of the first text that begins with another one, or the number of
/// texts.
fn find_beginning(items: &Vec<String>, start: &str) -> (r: usize)
    ensures
        r == first_beginning(texts(items@), start@),
        r <= items@.len(),
{
    let ghost all = texts(items@);
    let mut i: usize = 0;
    assert(all.skip(0) =~= all);
    while i < items.len()
        invariant
            i <= items@.len(),
            all == texts(items@),
            i + first_beginning(all.skip(i as int), start@) == first_beginning(all, start@),
        decreases items@.len() - i,
    {
        let ghost rest = all.skip(i as int);
        assert(rest[0] == items@[i as int]@);
        if begins_with(items[i].as_str(), start) {
            return i;
        }
        assert(rest.drop_first() =~= all.skip(i + 1));
        i += 1;
    }
    i
}

/// A text without all the repetitions of another one at its start.
pub open spec fn without_start(s: Seq<char>, start: Seq<char>) -> Seq<char>
    decreases s.len(),
{
    if start.len() > 0 && start.is_prefix_of(s) {
        without_start(s.skip(start.len() as int), start)
    } else {
        s
    }
}

/// A text without all the repetitions of another one at its start.
fn strip_start(s: &str, start: &str) -> (r: String)
    ensures
        r@ == without_start(s@, start@),
    decreases s@.len(),
{
    if !start.is_empty() && begins_with(s, start) {
        let chars = characters(s);
        let skip: usize = characters(start).len();
        let rest = piece(&chars, skip, chars.len());
        assert(rest@ =~= s@.skip(start@.len() as int));
        strip_start(rest.as_str(), start)
    } else {
        s.to_string()
    }
}

/// The name of the system in the text of `/etc/os-release`, without its quotes;
/// empty where there is none.
pub open spec fn pretty_name(release: Seq<char>) -> Seq<char> {
    let all = lines(release);
    let at = first_beginning(all, "PRETTY_NAME="@);
    if at < all.len() {
        untrailed(unled(without_start(all[at as int], "PRETTY_NAME="@), '"'), '"')
    } else {
        ""@
    }
}

/// The name of the system in the text of `/etc/os-release`, without its quotes;
/// empty where there is none.
pub fn os_version(release: &str) -> (r: String)
    ensures
        r@ == pretty_name(release@),
{
    let all = split_lines(release);
    assert(texts(all@).len() == all@.len());
    let at = find_beginning(&all, "PRETTY_NAME=");
    if at < all.len() {
        assert(texts(all@)[at as int] == all@[at as int]@);
        let name = strip_start(all[at].as_str(), "PRETTY_NAME=");
        let left = trim_leading(name.as_str(), '"');
        trim_trailing(left.as_str(), '"')
    } else {
        "".to_string()
    }
}

/// The kilobytes of memory in the text of `/proc/meminfo`.
pub open spec fn memory_kb(meminfo: Seq<char>) -> Option<nat> {
    let all = lines(meminfo);
    let at = first_beginning(all, "MemTotal:"@);
    if at < all.len() && words(all[at as int]).len() > 1 {
        parsed(words(all[at as int])[1], u64::MAX as nat)
    } else {
        None
    }
}

/// The kilobytes of memory in the text of `/proc/meminfo`.
pub fn total_memory_kb(meminfo: &str) -> (r: Option<u64>)
    ensures
        match r {
            Some(kb) => memory_kb(meminfo@) == Some(kb as nat),
            None => memory_kb(meminfo@) is None,
        },
{
    let all = split_lines(meminfo);
    assert(texts(all@).len() == all@.len());
    let at = find_beginning(&all, "MemTotal:");
    if at < all.len() {
        assert(texts(all@)[at as int] == all@[at as int]@);
        let parts = split_words(all[at].as_str());
        assert(texts(parts@).len() == parts@.len());
        if parts.len() > 1 {
            assert(texts(parts@)[1] == parts@[1]@);
            parse_number(parts[1].as_str(), u64::MAX)
        } else {
            None
        }
    } else {
        None
    }
}

/// The bytes of memory in the text of `/proc/meminfo`.
pub fn get_total_memory(meminfo: &str) -> (r: Option<u64>)
    requires
        memory_kb(meminfo@) is Some ==> memory_kb(meminfo@)->0 * 1024 <= u64::MAX,
    ensures
        match r {
            Some(bytes) => memory_kb(meminfo@) is Some && bytes == memory_kb(meminfo@)->0 * 1024,
            None => memory_kb(meminfo@) is None,
        },
{
    match total_memory_kb(meminfo) {
        Some(kb) => Some(kb * 1024),
        None => None,
    }
}

/// The home of the installation: the given one, or `.evo-agents` in the home
/// directory.
pub fn evo_home_or_default(evo_home: Option<&str>, home_dir: &str) -> (r: String)
    ensures
        r@ == text_or(opt_str(evo_home), home_dir@ + "/.evo-agents"@),
{
    match evo_home {
        Some(s) => s.to_string(),
        None => concat2(home_dir, "/.evo-agents"),
    }
}

// Components.

/// The names and paths of the components below the home of the installation.
pub open spec fn component_paths(evo_home: Seq<char>) -> Seq<(Seq<char>, Seq<char>)> {
    seq![
        ("evo-king"@, evo_home + "/bin/"@ + "evo-king"@),
        ("evo-gateway"@, evo_home + "/bin/"@ + "evo-gateway"@),
        ("evo-runner"@, evo_home + "/bin/"@ + "evo-runner"@),
    ] + kernel_agent_table().map_values(
        |agent: (Seq<char>, Seq<char>)| (agent.0, evo_home + "/"@ + agent.0 + "/"@ + agent.1),
    )
}

/// A component to look for.
pub struct ComponentPath {
    pub name: String,
    pub path: String,
}

/// What each of a list of components to look for holds.
pub open spec fn path_views(items: Seq<ComponentPath>) -> Seq<(Seq<char>, Seq<char>)> {
    items.map_values(|item: ComponentPath| (item.name@, item.path@))
}

/// The components to look for: the services, then the kernel agents.
pub fn discover_evo_components(evo_home: &str) -> (r: Vec<ComponentPath>)
    ensures
        path_views(r@) == component_paths(evo_home@),
{
    let mut out: Vec<ComponentPath> = vec![
        ComponentPath { name: "evo-king".to_string(), path: concat3(evo_home, "/bin/", "evo-king") },
        ComponentPath {
            name: "evo-gateway".to_string(),
            path: concat3(evo_home, "/bin/", "evo-gateway"),
        },
        ComponentPath {
            name: "evo-runner".to_string(),
            path: concat3(evo_home, "/bin/", "evo-runner"),
        },
    ];
    let ghost services = component_paths(evo_home@).take(3);
    assert(path_views(out@) =~= services);
    let agents = kernel_agents();
    let mut i: usize = 0;
    while i < agents.len()
        invariant
            i <= agents@.len(),
            binaries(agents@) == kernel_agent_table(),
            path_views(out@) == component_paths(evo_home@).take(3 + i),
        decreases agents@.len() - i,
    {
        let ghost before = path_views(out@);
        let agent = &agents[i];
        let path = crate::text::concat5(
            evo_home,
            "/",
            agent.folder.as_str(),
            "/",
            agent.binary.as_str(),
        );
        let item = ComponentPath { name: agent.folder.clone(), path };
        proof {
            assert(binaries(agents@)[i as int] == (agent.folder@, agent.binary@));
            assert(component_paths(evo_home@).take(3 + i + 1) =~= before.push((item.name@, item.path@)));
        }
        out.push(item);
        assert(path_views(out@) =~= before.push((item.name@, item.path@)));
        i += 1;
    }
    assert(component_paths(evo_home@).take(3 + i) =~= component_paths(evo_home@));
    out
}

/// What is known of a component.
pub open spec fn component_view(
    name: Seq<char>,
    path: Seq<char>,
    found: bool,
    output: Option<Seq<char>>,
) -> ComponentView {
    ComponentView {
        name,
        binary_path: if found {
            Some(path)
        } else {
            None
        },
        version: match output {
            Some(raw) => if found {
                Some(version_of(raw))
            } else {
                None
            },
            None => None,
        },
        found,
    }
}

/// What is known of a component, given whether its binary is there and what that
/// wrote when asked for its version.
pub fn probe_component(item: &ComponentPath, found: bool, output: Option<&str>) -> (r: EvoComponent)
    ensures
        r@ == component_view(item.name@, item.path@, found, opt_str(output)),
{
    let version = match output {
        Some(raw) => if found {
            Some(parse_version_string(raw))
        } else {
            None
        },
        None => None,
    };
    EvoComponent {
        name: item.name.clone(),
        binary_path: if found {
            Some(item.path.clone())
        } else {
            None
        },
        version,
        found,
    }
}

// The checklist.

/// The item on the home of the installation.
pub open spec fn home_item(evo_home: Seq<char>, is_dir: bool) -> ItemView {
    ItemView {
        name: "evo_home_exists"@,
        status: if is_dir {
            ChecklistStatus::Pass
        } else {
            ChecklistStatus::Fail
        },
        message: evo_home,
    }
}

/// The item on a tool.
pub open spec fn tool_item(tool: ToolView) -> ItemView {
    ItemView {
        name: "tool:"@ + tool.name,
        status: match tool.status {
            ToolStatus::Available => ChecklistStatus::Pass,
            ToolStatus::NotFound => ChecklistStatus::Fail,
            ToolStatus::Suggested => ChecklistStatus::Suggested,
        },
        message: text_or(tool.version, "not found"@),
    }
}

/// The item on a component.
pub open spec fn component_item(component: ComponentView) -> ItemView {
    ItemView {
        name: "evo:"@ + component.name,
        status: if component.found {
            ChecklistStatus::Pass
        } else {
            ChecklistStatus::Fail
        },
        message: text_or(
            component.version,
            if component.found {
                "found (version unknown)"@
            } else {
                "missing"@
            },
        ),
    }
}

/// The checklist: the home of the installation, then the tools, then the
/// components.
pub open spec fn checklist_of(
    evo_home: Seq<char>,
    is_dir: bool,
    tools: Seq<ToolView>,
    components: Seq<ComponentView>,
) -> Seq<ItemView> {
    seq![home_item(evo_home, is_dir)] + tools.map_values(|tool: ToolView| tool_item(tool))
        + components.map_values(|component: ComponentView| component_item(component))
}

/// The item on a tool.
fn check_tool(tool: &DiscoveredTool) -> (r: ChecklistItem)
    ensures
        r@ == tool_item(tool@),
{
    ChecklistItem {
        name: concat2("tool:", tool.name.as_str()),
        status: match tool.status {
            ToolStatus::Available => ChecklistStatus::Pass,
            ToolStatus::NotFound => ChecklistStatus::Fail,
            ToolStatus::Suggested => ChecklistStatus::Suggested,
        },
        message: match &tool.version {
            Some(version) => version.clone(),
            None => "not found".to_string(),
        },
    }
}

/// The item on a component.
fn check_component(component: &EvoComponent) -> (r: ChecklistItem)
    ensures
        r@ == component_item(component@),
{
    ChecklistItem {
        name: concat2("evo:", component.name.as_str()),
        status: if component.found {
            ChecklistStatus::Pass
        } else {
            ChecklistStatus::Fail
        },
        message: match &component.version {
            Some(version) => version.clone(),
            None => if component.found {
                "found (version unknown)".to_string()
            } else {
                "missing".to_string()
            },
        },
    }
}

/// The checklist: the home of the installation, then the tools, then the
/// components. `home_is_dir` says whether the home is a directory.
pub fn build_checklist(
    system: &SystemInfo,
    home_is_dir: bool,
    tools: &Vec<DiscoveredTool>,
    evo_components: &Vec<EvoComponent>,
) -> (r: Vec<ChecklistItem>)
    ensures
        item_views(r@) == checklist_of(
            system.evo_home@,
            home_is_dir,
            tool_views(tools@),
            component_views(evo_components@),
        ),
{
    let mut items: Vec<ChecklistItem> = vec![
        ChecklistItem {
            name: "evo_home_exists".to_string(),
            status: if home_is_dir {
                ChecklistStatus::Pass
            } else {
                ChecklistStatus::Fail
            },
            message: system.evo_home.clone(),
        },
    ];
    let ghost whole = checklist_of(
        system.evo_home@,
        home_is_dir,
        tool_views(tools@),
        component_views(evo_components@),
    );
    assert(item_views(items@) =~= whole.take(1));
    let mut i: usize = 0;
    while i < tools.len()
        invariant
            i <= tools@.len(),
            whole == checklist_of(
                system.evo_home@,
                home_is_dir,
                tool_views(tools@),
                component_views(evo_components@),
            ),
            item_views(items@) == whole.take(1 + i),
        decreases tools@.len() - i,
    {
        let ghost before = item_views(items@);
        let item = check_tool(&tools[i]);
        proof {
            assert(whole[1 + i] == item@);
            assert(whole.take(1 + i + 1) =~= before.push(item@));
        }
        items.push(item);
        assert(item_views(items@) =~= before.push(item@));
        i += 1;
    }
    let mut j: usize = 0;
    while j < evo_components.len()
        invariant
            j <= evo_components@.len(),
            whole == checklist_of(
                system.evo_home@,
                home_is_dir,
                tool_views(tools@),
                component_views(evo_components@),
            ),
            item_views(items@) == whole.take(1 + tools@.len() + j),
        decreases evo_components@.len() - j,
    {
        let ghost before = item_views(items@);
        let item = check_component(&evo_components[j]);
        proof {
            assert(whole[1 + tools@.len() + j] == item@);
            assert(whole.take(1 + tools@.len() + j + 1) =~= before.push(item@));
        }
        items.push(item);
        assert(item_views(items@) =~= before.push(item@));
        j += 1;
    }
    assert(whole.take(1 + tools@.len() + j) =~= whole);
    items
}

/// Number of items with a status.
pub open spec fn status_count(items: Seq<ItemView>, status: ChecklistStatus) -> nat
    decreases items.len(),
{
    if items.len() == 0 {
        0
    } else {
        status_count(items.drop_last(), status) + (if items.last().status == status {
            1nat
        } else {
            0nat
        })
    }
}

/// How many items passed, failed and were suggested.
pub fn count_statuses(items: &Vec<ChecklistItem>) -> (r: (u64, u64, u64))
    ensures
        r.0 == status_count(item_views(items@), ChecklistStatus::Pass),
        r.1 == status_count(item_views(items@), ChecklistStatus::Fail),
        r.2 == status_count(item_views(items@), ChecklistStatus::Suggested),
{
    let mut pass: u64 = 0;
    let mut fail: u64 = 0;
    let mut suggested: u64 = 0;
    let mut i: usize = 0;
    let ghost all = item_views(items@);
    while i < items.len()
        invariant
            i <= items@.len(),
            all == item_views(items@),
            pass == status_count(all.take(i as int), ChecklistStatus::Pass),
            fail == status_count(all.take(i as int), ChecklistStatus::Fail),
            suggested == status_count(all.take(i as int), ChecklistStatus::Suggested),
            pass + fail + suggested == i,
        decreases items@.len() - i,
    {
        proof {
            assert(all.take(i + 1).drop_last() =~= all.take(i as int));
            assert(all.take(i + 1).last() == items@[i as int]@);
        }
        match items[i].status {
            ChecklistStatus::Pass => {
                pass += 1;
            },
            ChecklistStatus::Fail => {
                fail += 1;
            },
            ChecklistStatus::Suggested => {
                suggested += 1;
            },
        }
        i += 1;
    }
    assert(all.take(i as int) =~= all);
    (pass, fail, suggested)
}

/// The checklist has one item for the home and one for each tool and component, and
/// each is counted once.
pub proof fn law_checklist_is_complete(
    evo_home: Seq<char>,
    is_dir: bool,
    tools: Seq<ToolView>,
    components: Seq<ComponentView>,
)
    ensures
        ({
            let items = checklist_of(evo_home, is_dir, tools, components);
            &&& items.len() == 1 + tools.len() + components.len()
            &&& status_count(items, ChecklistStatus::Pass) + status_count(
                items,
                ChecklistStatus::Fail,
            ) + status_count(items, ChecklistStatus::Suggested) == items.len()
        }),
{
    lemma_status_counts(checklist_of(evo_home, is_dir, tools, components));
}

proof fn lemma_status_counts(items: Seq<ItemView>)
    ensures
        status_count(items, ChecklistStatus::Pass) + status_count(items, ChecklistStatus::Fail)
            + status_count(items, ChecklistStatus::Suggested) == items.len(),
    decreases items.len(),
{
    if items.len() > 0 {
        lemma_status_counts(items.drop_last());
    }
}

/// Puts together all that was found.
pub fn run_discovery(
    king_version: &str,
    system: SystemInfo,
    home_is_dir: bool,
    found: Vec<DiscoveredTool>,
    evo_components: Vec<EvoComponent>,
) -> (r: SystemDiscovery)
    ensures
        crate::stamp::is_time(r.discovered_at@),
        r.king_version@ == king_version@,
        r.system == system,
        tools_sorted(tool_views(r.tools@)),
        tool_views(r.tools@).to_multiset() == tool_views(found@).to_multiset(),
        r.evo_components == evo_components,
        item_views(r.checklist@) == checklist_of(
            system.evo_home@,
            home_is_dir,
            tool_views(r.tools@),
            component_views(evo_components@),
        ),
{
    let tools = sort_tools(found);
    let checklist = build_checklist(&system, home_is_dir, &tools, &evo_components);
    SystemDiscovery {
        discovered_at: crate::stamp::now_text(),
        king_version: king_version.to_string(),
        system,
        tools,
        evo_components,
        checklist,
    }
}

/// The path of the file that a discovery is saved in.
pub fn save_path(evo_home: &str) -> (r: String)
    ensures
        r@ == joined_path(joined_path(evo_home@, "data"@), SYSTEM_INFO_FILENAME@),
{
    let dir = join_path(evo_home, "data");
    join_path(dir.as_str(), SYSTEM_INFO_FILENAME)
}

} // verus!
