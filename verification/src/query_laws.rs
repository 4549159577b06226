//! What the queries and updates that are put together from parts ask for: which rows
//! they keep, and which columns they set.

use crate::history::{EventFilterView, list_socket_events_statement};
use crate::memory_db::{
    list_memories_statement, search_memories_statement, update_memory_statement, with_words,
};
use crate::sql::{SqlCell, StatementView};
use crate::task_db::{list_pipeline_runs_statement, list_tasks_statement, update_task_statement};
use crate::text::{decimal, in_order, words};
use vstd::prelude::*;

verus! {

// Conditions.

/// A condition on a row. A parameter is given by its number, counted from one.
pub enum Condition {
    /// A column is the same as a parameter.
    Equals { column: Seq<char>, param: nat },
    /// A parameter stands in a column.
    Like { column: Seq<char>, param: nat },
    /// A column does not come before a parameter.
    AtLeast { column: Seq<char>, param: nat },
    /// A column does not come after a parameter.
    AtMost { column: Seq<char>, param: nat },
    /// A parameter stands in one of two columns.
    InEither { one: Seq<char>, other: Seq<char>, param: nat },
}

/// What SQL takes for the pattern of a parameter that stands in a column.
pub open spec fn like_text(column: Seq<char>, param: nat) -> Seq<char> {
    column + " LIKE '%' || ?"@ + decimal(param) + " || '%'"@
}

/// A condition as SQL.
pub open spec fn condition_text(condition: Condition) -> Seq<char> {
    match condition {
        Condition::Equals { column, param } => column + " = ?"@ + decimal(param),
        Condition::Like { column, param } => like_text(column, param),
        Condition::AtLeast { column, param } => column + " >= ?"@ + decimal(param),
        Condition::AtMost { column, param } => column + " <= ?"@ + decimal(param),
        Condition::InEither { one, other, param } => "("@ + like_text(one, param) + " OR "@
            + like_text(other, param) + ")"@,
    }
}

/// The values of a row by the names of its columns.
pub type Values = spec_fn(Seq<char>) -> Seq<char>;

/// Which texts a pattern matches: the text first, then what is to stand in it.
pub type Matching = spec_fn(Seq<char>, Seq<char>) -> bool;

/// The number of the parameter that a condition reads.
pub open spec fn param_of(condition: Condition) -> nat {
    match condition {
        Condition::Equals { param, .. } => param,
        Condition::Like { param, .. } => param,
        Condition::AtLeast { param, .. } => param,
        Condition::AtMost { param, .. } => param,
        Condition::InEither { param, .. } => param,
    }
}

/// Whether a row meets a condition with a parameter.
pub open spec fn meets(
    condition: Condition,
    given: Seq<char>,
    row: Values,
    matching: Matching,
) -> bool {
    match condition {
        Condition::Equals { column, .. } => row(column) == given,
        Condition::Like { column, .. } => matching(row(column), given),
        Condition::AtLeast { column, .. } => in_order(given, row(column)),
        Condition::AtMost { column, .. } => in_order(row(column), given),
        Condition::InEither { one, other, .. } => matching(row(one), given) || matching(
            row(other),
            given,
        ),
    }
}

/// A list of conditions, all of which a row must meet, with the parameters.
pub struct Narrowed {
    pub conditions: Seq<Condition>,
    pub given: Seq<Seq<char>>,
}

impl Narrowed {
    /// Every row is kept.
    pub open spec fn all() -> Narrowed {
        Narrowed { conditions: Seq::empty(), given: Seq::empty() }
    }

    /// The number of the next parameter.
    pub open spec fn next(self) -> nat {
        self.given.len() + 1
    }

    /// One more condition, with its parameter.
    pub open spec fn and(self, condition: Condition, given: Seq<char>) -> Narrowed {
        Narrowed {
            conditions: self.conditions.push(condition),
            given: self.given.push(given),
        }
    }

    /// A column is to be the same as a text, where one is given.
    pub open spec fn equal(self, column: Seq<char>, item: Option<Seq<char>>) -> Narrowed {
        match item {
            Some(s) => self.and(Condition::Equals { column, param: self.next() }, s),
            None => self,
        }
    }

    /// A text is to stand in a column, where one is given.
    pub open spec fn like(self, column: Seq<char>, item: Option<Seq<char>>) -> Narrowed {
        match item {
            Some(s) => self.and(Condition::Like { column, param: self.next() }, s),
            None => self,
        }
    }

    /// A column is not to come before a text, where one is given.
    pub open spec fn at_least(self, column: Seq<char>, item: Option<Seq<char>>) -> Narrowed {
        match item {
            Some(s) => self.and(Condition::AtLeast { column, param: self.next() }, s),
            None => self,
        }
    }

    /// A column is not to come after a text, where one is given.
    pub open spec fn at_most(self, column: Seq<char>, item: Option<Seq<char>>) -> Narrowed {
        match item {
            Some(s) => self.and(Condition::AtMost { column, param: self.next() }, s),
            None => self,
        }
    }

    /// Each of a list of texts is to stand in one of two columns.
    pub open spec fn words(self, one: Seq<char>, other: Seq<char>,
        items: Seq<Seq<char>>) -> Narrowed
        decreases items.len(),
    {
        if items.len() == 0 {
            self
        } else {
            let before = self.words(one, other, items.drop_last());
            before.and(Condition::InEither { one, other, param: before.next() }, items.last())
        }
    }

    /// Whether each condition reads the parameter that came with it.
    pub open spec fn paired(self) -> bool {
        &&& self.conditions.len() == self.given.len()
        &&& forall|i: int|
            0 <= i < self.conditions.len() ==> param_of(#[trigger] self.conditions[i]) == i + 1
    }

    /// Whether a row is kept: it meets each condition with the parameter of the number
    /// that the condition reads.
    pub open spec fn keeps(self, row: Values, matching: Matching) -> bool {
        forall|i: int|
            0 <= i < self.conditions.len() ==> meets(
                #[trigger] self.conditions[i],
                self.given[param_of(self.conditions[i]) - 1],
                row,
                matching,
            )
    }

    /// The conditions as SQL, each after an `AND`.
    pub open spec fn sql(self) -> Seq<char> {
        and_text(self.conditions)
    }

    /// The parameters.
    pub open spec fn params(self) -> Seq<SqlCell> {
        self.given.map_values(|s: Seq<char>| SqlCell::Text(s))
    }
}

/// Conditions as SQL, each after an `AND`.
pub open spec fn and_text(conditions: Seq<Condition>) -> Seq<char>
    decreases conditions.len(),
{
    if conditions.len() == 0 {
        Seq::empty()
    } else {
        and_text(conditions.drop_last()) + " AND "@ + condition_text(conditions.last())
    }
}

proof fn lemma_and(
    q: Narrowed,
    condition: Condition,
    given: Seq<char>,
    row: Values,
    matching: Matching,
)
    requires
        q.paired(),
        param_of(condition) == q.next(),
    ensures
        q.and(condition, given).paired(),
        q.and(condition, given).keeps(row, matching) <==> q.keeps(row, matching) && meets(
            condition,
            given,
            row,
            matching,
        ),
        q.and(condition, given).sql() == q.sql() + " AND "@ + condition_text(condition),
        q.and(condition, given).params() == q.params().push(SqlCell::Text(given)),
{
    let more = q.and(condition, given);
    let n = q.conditions.len() as int;
    assert(more.conditions.drop_last() =~= q.conditions);
    assert(more.params() =~= q.params().push(SqlCell::Text(given)));
    assert(more.conditions[n] == condition);
    assert forall|i: int| 0 <= i < more.conditions.len() implies param_of(
        #[trigger] more.conditions[i],
    ) == i + 1 by {
        if i < n {
            assert(more.conditions[i] == q.conditions[i]);
        }
    }
    if more.keeps(row, matching) {
        assert forall|i: int| 0 <= i < n implies meets(
            #[trigger] q.conditions[i],
            q.given[param_of(q.conditions[i]) - 1],
            row,
            matching,
        ) by {
            assert(more.conditions[i] == q.conditions[i]);
        }
    }
    if q.keeps(row, matching) && meets(condition, given, row, matching) {
        assert forall|i: int| 0 <= i < more.conditions.len() implies meets(
            #[trigger] more.conditions[i],
            more.given[param_of(more.conditions[i]) - 1],
            row,
            matching,
        ) by {
            if i < n {
                assert(more.conditions[i] == q.conditions[i]);
            }
        }
    }
}

/// Whether a statement is a beginning with a list of conditions after it.
pub open spec fn asks(s: StatementView, head: Seq<char>, q: Narrowed) -> bool {
    s.sql == head + q.sql() && s.params == q.params()
}

proof fn lemma_equal(
    s: StatementView,
    head: Seq<char>,
    q: Narrowed,
    before: Seq<char>,
    after: Seq<char>,
    column: Seq<char>,
    item: Option<Seq<char>>,
    row: Values,
    matching: Matching,
)
    requires
        asks(s, head, q),
        q.paired(),
        before == " AND "@ + column + " = ?"@,
        after == ""@,
    ensures
        asks(s.filter(before, after, item), head, q.equal(column, item)),
        q.equal(column, item).paired(),
        q.equal(column, item).keeps(row, matching)
            <==> q.keeps(row, matching) && (item matches Some(
            given,
        ) ==> meets(Condition::Equals { column, param: q.next() }, given, row, matching)),
{
    reveal_strlit("");
    match item {
        Some(given) => {
            let condition = Condition::Equals { column, param: q.next() };
            lemma_and(q, condition, given, row, matching);
            assert(s.params.len() + 1 == q.next());
            assert(s.filter(before, after, item).sql =~= head + q.and(condition, given).sql());
        },
        None => {},
    }
}

proof fn lemma_like(
    s: StatementView,
    head: Seq<char>,
    q: Narrowed,
    before: Seq<char>,
    after: Seq<char>,
    column: Seq<char>,
    item: Option<Seq<char>>,
    row: Values,
    matching: Matching,
)
    requires
        asks(s, head, q),
        q.paired(),
        before == " AND "@ + column + " LIKE '%' || ?"@,
        after == " || '%'"@,
    ensures
        asks(s.filter(before, after, item), head, q.like(column, item)),
        q.like(column, item).paired(),
        q.like(column, item).keeps(row, matching) <==> q.keeps(row, matching) && (item matches Some(
            given,
        ) ==> meets(Condition::Like { column, param: q.next() }, given, row, matching)),
{
    reveal_strlit("");
    match item {
        Some(given) => {
            let condition = Condition::Like { column, param: q.next() };
            lemma_and(q, condition, given, row, matching);
            assert(s.params.len() + 1 == q.next());
            assert(s.filter(before, after, item).sql =~= head + q.and(condition, given).sql());
        },
        None => {},
    }
}

proof fn lemma_at_least(
    s: StatementView,
    head: Seq<char>,
    q: Narrowed,
    before: Seq<char>,
    after: Seq<char>,
    column: Seq<char>,
    item: Option<Seq<char>>,
    row: Values,
    matching: Matching,
)
    requires
        asks(s, head, q),
        q.paired(),
        before == " AND "@ + column + " >= ?"@,
        after == ""@,
    ensures
        asks(s.filter(before, after, item), head, q.at_least(column, item)),
        q.at_least(column, item).paired(),
        q.at_least(column, item).keeps(row, matching)
            <==> q.keeps(row, matching) && (item matches Some(
            given,
        ) ==> meets(Condition::AtLeast { column, param: q.next() }, given, row, matching)),
{
    reveal_strlit("");
    match item {
        Some(given) => {
            let condition = Condition::AtLeast { column, param: q.next() };
            lemma_and(q, condition, given, row, matching);
            assert(s.params.len() + 1 == q.next());
            assert(s.filter(before, after, item).sql =~= head + q.and(condition, given).sql());
        },
        None => {},
    }
}

proof fn lemma_at_most(
    s: StatementView,
    head: Seq<char>,
    q: Narrowed,
    before: Seq<char>,
    after: Seq<char>,
    column: Seq<char>,
    item: Option<Seq<char>>,
    row: Values,
    matching: Matching,
)
    requires
        asks(s, head, q),
        q.paired(),
        before == " AND "@ + column + " <= ?"@,
        after == ""@,
    ensures
        asks(s.filter(before, after, item), head, q.at_most(column, item)),
        q.at_most(column, item).paired(),
        q.at_most(column, item).keeps(row, matching)
            <==> q.keeps(row, matching) && (item matches Some(
            given,
        ) ==> meets(Condition::AtMost { column, param: q.next() }, given, row, matching)),
{
    reveal_strlit("");
    match item {
        Some(given) => {
            let condition = Condition::AtMost { column, param: q.next() };
            lemma_and(q, condition, given, row, matching);
            assert(s.params.len() + 1 == q.next());
            assert(s.filter(before, after, item).sql =~= head + q.and(condition, given).sql());
        },
        None => {},
    }
}

/// Whether each of a list of texts stands in one of two columns.
pub open spec fn each_in_either(
    one: Seq<char>,
    other: Seq<char>,
    items: Seq<Seq<char>>,
    row: Values,
    matching: Matching,
) -> bool {
    forall|i: int|
        0 <= i < items.len() ==> matching(row(one), #[trigger] items[i]) || matching(
            row(other),
            items[i],
        )
}

proof fn lemma_words(
    s: StatementView,
    head: Seq<char>,
    q: Narrowed,
    items: Seq<Seq<char>>,
    row: Values,
    matching: Matching,
)
    requires
        asks(s, head, q),
        q.paired(),
    ensures
        asks(with_words(s, items), head, q.words("mt.content"@, "m.key"@, items)),
        q.words("mt.content"@, "m.key"@, items).paired(),
        q.words("mt.content"@, "m.key"@, items).keeps(row, matching) <==> q.keeps(row, matching)
            && each_in_either("mt.content"@, "m.key"@, items, row, matching),
    decreases items.len(),
{
    if items.len() > 0 {
        let rest = items.drop_last();
        let word = items.last();
        lemma_words(s, head, q, rest, row, matching);
        let before = q.words("mt.content"@, "m.key"@, rest);
        let condition = Condition::InEither {
            one: "mt.content"@,
            other: "m.key"@,
            param: before.next(),
        };
        lemma_and(before, condition, word, row, matching);
        let asked = with_words(s, rest);
        assert(asked.params.len() + 1 == before.next());
        reveal_strlit(" AND (mt.content LIKE '%' || ?");
        reveal_strlit(" || '%' OR m.key LIKE '%' || ?");
        reveal_strlit(" || '%')");
        reveal_strlit(" AND ");
        reveal_strlit("(");
        reveal_strlit("mt.content");
        reveal_strlit(" LIKE '%' || ?");
        reveal_strlit(" || '%'");
        reveal_strlit(" OR ");
        reveal_strlit("m.key");
        reveal_strlit(")");
        assert(" AND (mt.content LIKE '%' || ?"@ =~= " AND "@ + "("@ + "mt.content"@
            + " LIKE '%' || ?"@);
        assert(" || '%' OR m.key LIKE '%' || ?"@ =~= " || '%'"@ + " OR "@ + "m.key"@
            + " LIKE '%' || ?"@);
        assert(" || '%')"@ =~= " || '%'"@ + ")"@);
        assert(with_words(s, items).sql =~= head + before.and(condition, word).sql());
        assert(each_in_either("mt.content"@, "m.key"@, items, row, matching) <==> each_in_either(
            "mt.content"@,
            "m.key"@,
            rest,
            row,
            matching,
        ) && meets(condition, word, row, matching)) by {
            assert(items[items.len() - 1] == word);
            if each_in_either("mt.content"@, "m.key"@, items, row, matching) {
                assert forall|i: int| 0 <= i < rest.len() implies matching(
                    row("mt.content"@),
                    #[trigger] rest[i],
                ) || matching(row("m.key"@), rest[i]) by {
                    assert(rest[i] == items[i]);
                }
            }
            if each_in_either("mt.content"@, "m.key"@, rest, row, matching) && meets(
                condition,
                word,
                row,
                matching,
            ) {
                assert forall|i: int| 0 <= i < items.len() implies matching(
                    row("mt.content"@),
                    #[trigger] items[i],
                ) || matching(row("m.key"@), items[i]) by {
                    if i < rest.len() {
                        assert(rest[i] == items[i]);
                    }
                }
            }
        }
    }
}

/// A list of memories keeps the memories with the scope, the category, the agent, the
/// run and the skill that are given, and with the tag where one is given; the most
/// relevant come first, and of those the ones that were changed last.
#[verifier::rlimit(80)]
#[verifier::spinoff_prover]
pub proof fn law_memories_are_listed_by_what_is_given(
    limit: u32,
    scope: Option<Seq<char>>,
    category: Option<Seq<char>>,
    agent_id: Option<Seq<char>>,
    run_id: Option<Seq<char>>,
    skill_id: Option<Seq<char>>,
    tag: Option<Seq<char>>,
    row: Values,
    matching: Matching,
)
    ensures
        ({
            let s = list_memories_statement(limit, scope, category, agent_id, run_id, skill_id,
                tag);
            let q = Narrowed::all().equal("scope"@, scope).equal("category"@,
                category).equal("agent_id"@, agent_id).equal("run_id"@,
                    run_id).equal("skill_id"@, skill_id).like("tags"@, tag);
            &&& s.sql
                == "SELECT id, scope, category, key, metadata, tags, agent_id, run_id, skill_id, relevance_score, access_count, created_at, updated_at\n         FROM memories WHERE 1=1"@ + q.sql() + " ORDER BY relevance_score DESC, updated_at DESC LIMIT ?"@ + decimal(q.given.len() + 1)
            &&& s.params == q.params().push(SqlCell::Integer(limit as i64))
            &&& q.paired()
            &&& q.keeps(row, matching) <==> (scope matches Some(s)
                ==> row("scope"@) == s) && (category matches Some(s)
                    ==> row("category"@) == s) && (agent_id matches Some(s)
                        ==> row("agent_id"@) == s) && (run_id matches Some(s)
                            ==> row("run_id"@) == s) && (skill_id matches Some(s)
                                ==> row("skill_id"@) == s) && (tag matches Some(s)
                                    ==> matching(row("tags"@), s))
        }),
{
    reveal_strlit("");
    let head = crate::memory_db::LIST_MEMORIES@;
    let q0 = Narrowed::all();
    let s0 = StatementView::of(head);
    assert(q0.params() =~= Seq::<SqlCell>::empty());
    assert(head + q0.sql() =~= head);
    assert(" AND scope = ?"@ == " AND "@ + "scope"@ + " = ?"@) by {
        reveal_strlit(" AND scope = ?");
        reveal_strlit(" AND ");
        reveal_strlit("scope");
        reveal_strlit(" = ?");
        assert(" AND scope = ?"@ =~= " AND "@ + "scope"@ + " = ?"@);
    }
    lemma_equal(
        s0,
        head,
        q0,
        " AND scope = ?"@,
        ""@,
        "scope"@,
        scope,
        row,
        matching,
    );
    let s1 = s0.filter(" AND scope = ?"@, ""@, scope);
    let q1 = q0.equal("scope"@, scope);
    assert(" AND category = ?"@ == " AND "@ + "category"@ + " = ?"@) by {
        reveal_strlit(" AND category = ?");
        reveal_strlit(" AND ");
        reveal_strlit("category");
        reveal_strlit(" = ?");
        assert(" AND category = ?"@ =~= " AND "@ + "category"@ + " = ?"@);
    }
    lemma_equal(
        s1,
        head,
        q1,
        " AND category = ?"@,
        ""@,
        "category"@,
        category,
        row,
        matching,
    );
    let s2 = s1.filter(" AND category = ?"@, ""@, category);
    let q2 = q1.equal("category"@, category);
    assert(" AND agent_id = ?"@ == " AND "@ + "agent_id"@ + " = ?"@) by {
        reveal_strlit(" AND agent_id = ?");
        reveal_strlit(" AND ");
        reveal_strlit("agent_id");
        reveal_strlit(" = ?");
        assert(" AND agent_id = ?"@ =~= " AND "@ + "agent_id"@ + " = ?"@);
    }
    lemma_equal(
        s2,
        head,
        q2,
        " AND agent_id = ?"@,
        ""@,
        "agent_id"@,
        agent_id,
        row,
        matching,
    );
    let s3 = s2.filter(" AND agent_id = ?"@, ""@, agent_id);
    let q3 = q2.equal("agent_id"@, agent_id);
    assert(" AND run_id = ?"@ == " AND "@ + "run_id"@ + " = ?"@) by {
        reveal_strlit(" AND run_id = ?");
        reveal_strlit(" AND ");
        reveal_strlit("run_id");
        reveal_strlit(" = ?");
        assert(" AND run_id = ?"@ =~= " AND "@ + "run_id"@ + " = ?"@);
    }
    lemma_equal(
        s3,
        head,
        q3,
        " AND run_id = ?"@,
        ""@,
        "run_id"@,
        run_id,
        row,
        matching,
    );
    let s4 = s3.filter(" AND run_id = ?"@, ""@, run_id);
    let q4 = q3.equal("run_id"@, run_id);
    assert(" AND skill_id = ?"@ == " AND "@ + "skill_id"@ + " = ?"@) by {
        reveal_strlit(" AND skill_id = ?");
        reveal_strlit(" AND ");
        reveal_strlit("skill_id");
        reveal_strlit(" = ?");
        assert(" AND skill_id = ?"@ =~= " AND "@ + "skill_id"@ + " = ?"@);
    }
    lemma_equal(
        s4,
        head,
        q4,
        " AND skill_id = ?"@,
        ""@,
        "skill_id"@,
        skill_id,
        row,
        matching,
    );
    let s5 = s4.filter(" AND skill_id = ?"@, ""@, skill_id);
    let q5 = q4.equal("skill_id"@, skill_id);
    assert(" AND tags LIKE '%' || ?"@ == " AND "@ + "tags"@ + " LIKE '%' || ?"@) by {
        reveal_strlit(" AND tags LIKE '%' || ?");
        reveal_strlit(" AND ");
        reveal_strlit("tags");
        reveal_strlit(" LIKE '%' || ?");
        assert(" AND tags LIKE '%' || ?"@ =~= " AND "@ + "tags"@ + " LIKE '%' || ?"@);
    }
    lemma_like(
        s5,
        head,
        q5,
        " AND tags LIKE '%' || ?"@,
        " || '%'"@,
        "tags"@,
        tag,
        row,
        matching,
    );
    let s6 = s5.filter(" AND tags LIKE '%' || ?"@, " || '%'"@, tag);
    let q6 = q5.like("tags"@, tag);
    assert(s6.params.len() == q6.given.len());
    assert((list_memories_statement(limit, scope, category, agent_id, run_id, skill_id,
        tag)).sql =~= "SELECT id, scope, category, key, metadata, tags, agent_id, run_id, skill_id, relevance_score, access_count, created_at, updated_at\n         FROM memories WHERE 1=1"@ + q6.sql() + " ORDER BY relevance_score DESC, updated_at DESC LIMIT ?"@ + decimal(q6.given.len() + 1));
}

/// A search for words keeps a memory by one of its tiers where each word stands in the
/// content of the tier or in the key of the memory, and where the tier, the scope, the
/// category and the agent are those that are given.
pub proof fn law_searches_find_each_word(
    query: Seq<char>,
    limit: u32,
    scope: Option<Seq<char>>,
    category: Option<Seq<char>>,
    agent_id: Option<Seq<char>>,
    tier: Option<Seq<char>>,
    row: Values,
    matching: Matching,
)
    requires
        words(query).len() > 0,
    ensures
        ({
            let s = search_memories_statement(query, limit, scope, category, agent_id, tier);
            let q = Narrowed::all().equal("mt.tier"@, tier).words("mt.content"@, "m.key"@,
                words(query)).equal("m.scope"@, scope).equal("m.category"@,
                    category).equal("m.agent_id"@, agent_id);
            &&& s.sql
                == "SELECT DISTINCT m.id, m.scope, m.category, m.key, m.metadata, m.tags, m.agent_id, m.run_id, m.skill_id, m.relevance_score, m.access_count, m.created_at, m.updated_at\n         FROM memories m\n         INNER JOIN memory_tiers mt ON m.id = mt.memory_id\n         WHERE 1=1"@ + q.sql() + " ORDER BY m.relevance_score DESC, m.access_count DESC, m.updated_at DESC LIMIT ?"@ + decimal(q.given.len() + 1)
            &&& s.params == q.params().push(SqlCell::Integer(limit as i64))
            &&& q.paired()
            &&& q.keeps(row, matching) <==> (tier matches Some(s)
                ==> row("mt.tier"@) == s)
                    && each_in_either("mt.content"@, "m.key"@, words(query), row, matching)
                        && (scope matches Some(s)
                            ==> row("m.scope"@) == s) && (category matches Some(s)
                                ==> row("m.category"@) == s) && (agent_id matches Some(s)
                                    ==> row("m.agent_id"@) == s)
        }),
{
    reveal_strlit("");
    let head = crate::memory_db::SEARCH_MEMORIES@;
    let q0 = Narrowed::all();
    let s0 = StatementView::of(head);
    assert(q0.params() =~= Seq::<SqlCell>::empty());
    assert(head + q0.sql() =~= head);
    assert(" AND mt.tier = ?"@ == " AND "@ + "mt.tier"@ + " = ?"@) by {
        reveal_strlit(" AND mt.tier = ?");
        reveal_strlit(" AND ");
        reveal_strlit("mt.tier");
        reveal_strlit(" = ?");
        assert(" AND mt.tier = ?"@ =~= " AND "@ + "mt.tier"@ + " = ?"@);
    }
    lemma_equal(
        s0,
        head,
        q0,
        " AND mt.tier = ?"@,
        ""@,
        "mt.tier"@,
        tier,
        row,
        matching,
    );
    let s1 = s0.filter(" AND mt.tier = ?"@, ""@, tier);
    let q1 = q0.equal("mt.tier"@, tier);
    lemma_words(s1, head, q1, words(query), row, matching);
    let s2 = with_words(s1, words(query));
    let q2 = q1.words("mt.content"@, "m.key"@, words(query));
    assert(" AND m.scope = ?"@ == " AND "@ + "m.scope"@ + " = ?"@) by {
        reveal_strlit(" AND m.scope = ?");
        reveal_strlit(" AND ");
        reveal_strlit("m.scope");
        reveal_strlit(" = ?");
        assert(" AND m.scope = ?"@ =~= " AND "@ + "m.scope"@ + " = ?"@);
    }
    lemma_equal(
        s2,
        head,
        q2,
        " AND m.scope = ?"@,
        ""@,
        "m.scope"@,
        scope,
        row,
        matching,
    );
    let s3 = s2.filter(" AND m.scope = ?"@, ""@, scope);
    let q3 = q2.equal("m.scope"@, scope);
    assert(" AND m.category = ?"@ == " AND "@ + "m.category"@ + " = ?"@) by {
        reveal_strlit(" AND m.category = ?");
        reveal_strlit(" AND ");
        reveal_strlit("m.category");
        reveal_strlit(" = ?");
        assert(" AND m.category = ?"@ =~= " AND "@ + "m.category"@ + " = ?"@);
    }
    lemma_equal(
        s3,
        head,
        q3,
        " AND m.category = ?"@,
        ""@,
        "m.category"@,
        category,
        row,
        matching,
    );
    let s4 = s3.filter(" AND m.category = ?"@, ""@, category);
    let q4 = q3.equal("m.category"@, category);
    assert(" AND m.agent_id = ?"@ == " AND "@ + "m.agent_id"@ + " = ?"@) by {
        reveal_strlit(" AND m.agent_id = ?");
        reveal_strlit(" AND ");
        reveal_strlit("m.agent_id");
        reveal_strlit(" = ?");
        assert(" AND m.agent_id = ?"@ =~= " AND "@ + "m.agent_id"@ + " = ?"@);
    }
    lemma_equal(
        s4,
        head,
        q4,
        " AND m.agent_id = ?"@,
        ""@,
        "m.agent_id"@,
        agent_id,
        row,
        matching,
    );
    let s5 = s4.filter(" AND m.agent_id = ?"@, ""@, agent_id);
    let q5 = q4.equal("m.agent_id"@, agent_id);
    assert(s5.params.len() == q5.given.len());
    assert((search_memories_statement(query, limit, scope, category, agent_id,
        tier)).sql =~= "SELECT DISTINCT m.id, m.scope, m.category, m.key, m.metadata, m.tags, m.agent_id, m.run_id, m.skill_id, m.relevance_score, m.access_count, m.created_at, m.updated_at\n         FROM memories m\n         INNER JOIN memory_tiers mt ON m.id = mt.memory_id\n         WHERE 1=1"@ + q5.sql() + " ORDER BY m.relevance_score DESC, m.access_count DESC, m.updated_at DESC LIMIT ?"@ + decimal(q5.given.len() + 1));
}

/// A search without words lists the memories with the scope, the category and the agent
/// that are given, whatever the tier.
pub proof fn law_searches_without_words_list(
    query: Seq<char>,
    limit: u32,
    scope: Option<Seq<char>>,
    category: Option<Seq<char>>,
    agent_id: Option<Seq<char>>,
    tier: Option<Seq<char>>,
)
    requires
        words(query).len() == 0,
    ensures
        search_memories_statement(query, limit, scope, category, agent_id, tier)
            == list_memories_statement(limit, scope, category, agent_id, None, None, None),
{
}

/// A memory with a tier that holds all words of a query is found by the query, and so is
/// one with all words in its key, where nothing else is asked for.
pub proof fn law_a_memory_is_found_by_its_words(
    query: Seq<char>,
    limit: u32,
    row: Values,
    matching: Matching,
)
    requires
        words(query).len() > 0,
        (forall|i: int|
            0 <= i < words(query).len() ==> matching(
                row("mt.content"@),
                #[trigger] words(query)[i],
            )) || (forall|i: int|
            0 <= i < words(query).len() ==> matching(row("m.key"@), #[trigger] words(query)[i])),
    ensures
        ({
            let q = Narrowed::all().equal("mt.tier"@, None).words(
                "mt.content"@,
                "m.key"@,
                words(query),
            ).equal("m.scope"@, None).equal("m.category"@, None).equal("m.agent_id"@, None);
            q.keeps(row, matching) && search_memories_statement(
                query,
                limit,
                None,
                None,
                None,
                None,
            ).params == q.params().push(SqlCell::Integer(limit as i64))
        }),
{
    law_searches_find_each_word(query, limit, None, None, None, None, row, matching);
}

/// A list of tasks keeps those with the status, the agent and the parent that are given;
/// the newest come first.
pub proof fn law_tasks_are_listed_by_what_is_given(
    limit: u32,
    status: Option<Seq<char>>,
    agent: Option<Seq<char>>,
    parent: Option<Seq<char>>,
    row: Values,
    matching: Matching,
)
    ensures
        ({
            let s = list_tasks_statement(limit, status, agent, parent);
            let q = Narrowed::all().equal("status"@, status).equal("agent_id"@,
                agent).equal("parent_id"@, parent);
            &&& s.sql
                == "SELECT "@
                    + "id, task_type, status, agent_id, payload, run_id, current_stage, summary, parent_id, created_at, updated_at"@ + " FROM tasks WHERE 1=1"@ + q.sql() + " ORDER BY created_at DESC LIMIT ?"@ + decimal(q.given.len() + 1)
            &&& s.params == q.params().push(SqlCell::Integer(limit as i64))
            &&& q.paired()
            &&& q.keeps(row, matching) <==> (status matches Some(s)
                ==> row("status"@) == s) && (agent matches Some(s)
                    ==> row("agent_id"@) == s) && (parent matches Some(s)
                        ==> row("parent_id"@) == s)
        }),
{
    reveal_strlit("");
    let head = "SELECT "@ + crate::task_db::TASK_COLS@ + " FROM tasks WHERE 1=1"@;
    let q0 = Narrowed::all();
    let s0 = StatementView::of(head);
    assert(q0.params() =~= Seq::<SqlCell>::empty());
    assert(head + q0.sql() =~= head);
    assert(" AND status = ?"@ == " AND "@ + "status"@ + " = ?"@) by {
        reveal_strlit(" AND status = ?");
        reveal_strlit(" AND ");
        reveal_strlit("status");
        reveal_strlit(" = ?");
        assert(" AND status = ?"@ =~= " AND "@ + "status"@ + " = ?"@);
    }
    lemma_equal(
        s0,
        head,
        q0,
        " AND status = ?"@,
        ""@,
        "status"@,
        status,
        row,
        matching,
    );
    let s1 = s0.filter(" AND status = ?"@, ""@, status);
    let q1 = q0.equal("status"@, status);
    assert(" AND agent_id = ?"@ == " AND "@ + "agent_id"@ + " = ?"@) by {
        reveal_strlit(" AND agent_id = ?");
        reveal_strlit(" AND ");
        reveal_strlit("agent_id");
        reveal_strlit(" = ?");
        assert(" AND agent_id = ?"@ =~= " AND "@ + "agent_id"@ + " = ?"@);
    }
    lemma_equal(
        s1,
        head,
        q1,
        " AND agent_id = ?"@,
        ""@,
        "agent_id"@,
        agent,
        row,
        matching,
    );
    let s2 = s1.filter(" AND agent_id = ?"@, ""@, agent);
    let q2 = q1.equal("agent_id"@, agent);
    assert(" AND parent_id = ?"@ == " AND "@ + "parent_id"@ + " = ?"@) by {
        reveal_strlit(" AND parent_id = ?");
        reveal_strlit(" AND ");
        reveal_strlit("parent_id");
        reveal_strlit(" = ?");
        assert(" AND parent_id = ?"@ =~= " AND "@ + "parent_id"@ + " = ?"@);
    }
    lemma_equal(
        s2,
        head,
        q2,
        " AND parent_id = ?"@,
        ""@,
        "parent_id"@,
        parent,
        row,
        matching,
    );
    let s3 = s2.filter(" AND parent_id = ?"@, ""@, parent);
    let q3 = q2.equal("parent_id"@, parent);
    assert(s3.params.len() == q3.given.len());
    assert((list_tasks_statement(limit, status, agent, parent)).sql =~= "SELECT "@
        + "id, task_type, status, agent_id, payload, run_id, current_stage, summary, parent_id, created_at, updated_at"@ + " FROM tasks WHERE 1=1"@ + q3.sql() + " ORDER BY created_at DESC LIMIT ?"@ + decimal(q3.given.len() + 1));
}

/// A list of the stages of all runs keeps those with the status that is given; the
/// newest come first.
pub proof fn law_stages_are_listed_by_status(
    limit: u32,
    status: Option<Seq<char>>,
    row: Values,
    matching: Matching,
)
    ensures
        ({
            let s = list_pipeline_runs_statement(limit, status);
            let q = Narrowed::all().equal("status"@, status);
            &&& s.sql
                == "SELECT "@
                    + "id, run_id, stage, artifact_id, status, agent_id, result, error, created_at, updated_at, input_metadata"@ + " FROM pipeline_runs WHERE 1=1"@ + q.sql() + " ORDER BY created_at DESC LIMIT ?"@ + decimal(q.given.len() + 1)
            &&& s.params == q.params().push(SqlCell::Integer(limit as i64))
            &&& q.paired()
            &&& q.keeps(row, matching) <==> (status matches Some(s) ==> row("status"@) == s)
        }),
{
    reveal_strlit("");
    let head = "SELECT "@ + crate::task_db::PIPELINE_COLS@ + " FROM pipeline_runs WHERE 1=1"@;
    let q0 = Narrowed::all();
    let s0 = StatementView::of(head);
    assert(q0.params() =~= Seq::<SqlCell>::empty());
    assert(head + q0.sql() =~= head);
    assert(" AND status = ?"@ == " AND "@ + "status"@ + " = ?"@) by {
        reveal_strlit(" AND status = ?");
        reveal_strlit(" AND ");
        reveal_strlit("status");
        reveal_strlit(" = ?");
        assert(" AND status = ?"@ =~= " AND "@ + "status"@ + " = ?"@);
    }
    lemma_equal(
        s0,
        head,
        q0,
        " AND status = ?"@,
        ""@,
        "status"@,
        status,
        row,
        matching,
    );
    let s1 = s0.filter(" AND status = ?"@, ""@, status);
    let q1 = q0.equal("status"@, status);
    assert(s1.params.len() == q1.given.len());
    assert((list_pipeline_runs_statement(limit, status)).sql =~= "SELECT "@
        + "id, run_id, stage, artifact_id, status, agent_id, result, error, created_at, updated_at, input_metadata"@ + " FROM pipeline_runs WHERE 1=1"@ + q1.sql() + " ORDER BY created_at DESC LIMIT ?"@ + decimal(q1.given.len() + 1));
}

/// A list of events keeps those of the agent, with the name, of the direction and in the
/// time that are given; the newest come first.
pub proof fn law_events_are_listed_by_what_is_given(
    asked: EventFilterView,
    limit: u32,
    offset: u32,
    row: Values,
    matching: Matching,
)
    ensures
        ({
            let s = list_socket_events_statement(asked, limit, offset);
            let q = Narrowed::all().equal("agent_id"@, asked.agent_id).equal("event_name"@,
                asked.event_name).equal("direction"@, asked.direction).at_least("created_at"@,
                    asked.since).at_most("created_at"@, asked.until);
            &&& s.sql
                == "SELECT id, event_name, direction, agent_id, socket_id, room, payload, created_at\n         FROM socket_events WHERE 1=1"@ + q.sql() + " ORDER BY created_at DESC LIMIT ?"@ + decimal(q.given.len() + 1) + " OFFSET ?"@ + decimal(q.given.len() + 2)
            &&& s.params
                == q.params().push(SqlCell::Integer(limit as i64)).push(SqlCell::Integer(offset as i64))
            &&& q.paired()
            &&& q.keeps(row, matching) <==> (asked.agent_id matches Some(s)
                ==> row("agent_id"@) == s) && (asked.event_name matches Some(s)
                    ==> row("event_name"@) == s) && (asked.direction matches Some(s)
                        ==> row("direction"@) == s) && (asked.since matches Some(s)
                            ==> in_order(s, row("created_at"@))) && (asked.until matches Some(s)
                                ==> in_order(row("created_at"@), s))
        }),
{
    reveal_strlit("");
    let head = crate::history::LIST_SOCKET_EVENTS@;
    let q0 = Narrowed::all();
    let s0 = StatementView::of(head);
    assert(q0.params() =~= Seq::<SqlCell>::empty());
    assert(head + q0.sql() =~= head);
    assert(" AND agent_id = ?"@ == " AND "@ + "agent_id"@ + " = ?"@) by {
        reveal_strlit(" AND agent_id = ?");
        reveal_strlit(" AND ");
        reveal_strlit("agent_id");
        reveal_strlit(" = ?");
        assert(" AND agent_id = ?"@ =~= " AND "@ + "agent_id"@ + " = ?"@);
    }
    lemma_equal(
        s0,
        head,
        q0,
        " AND agent_id = ?"@,
        ""@,
        "agent_id"@,
        asked.agent_id,
        row,
        matching,
    );
    let s1 = s0.filter(" AND agent_id = ?"@, ""@, asked.agent_id);
    let q1 = q0.equal("agent_id"@, asked.agent_id);
    assert(" AND event_name = ?"@ == " AND "@ + "event_name"@ + " = ?"@) by {
        reveal_strlit(" AND event_name = ?");
        reveal_strlit(" AND ");
        reveal_strlit("event_name");
        reveal_strlit(" = ?");
        assert(" AND event_name = ?"@ =~= " AND "@ + "event_name"@ + " = ?"@);
    }
    lemma_equal(
        s1,
        head,
        q1,
        " AND event_name = ?"@,
        ""@,
        "event_name"@,
        asked.event_name,
        row,
        matching,
    );
    let s2 = s1.filter(" AND event_name = ?"@, ""@, asked.event_name);
    let q2 = q1.equal("event_name"@, asked.event_name);
    assert(" AND direction = ?"@ == " AND "@ + "direction"@ + " = ?"@) by {
        reveal_strlit(" AND direction = ?");
        reveal_strlit(" AND ");
        reveal_strlit("direction");
        reveal_strlit(" = ?");
        assert(" AND direction = ?"@ =~= " AND "@ + "direction"@ + " = ?"@);
    }
    lemma_equal(
        s2,
        head,
        q2,
        " AND direction = ?"@,
        ""@,
        "direction"@,
        asked.direction,
        row,
        matching,
    );
    let s3 = s2.filter(" AND direction = ?"@, ""@, asked.direction);
    let q3 = q2.equal("direction"@, asked.direction);
    assert(" AND created_at >= ?"@ == " AND "@ + "created_at"@ + " >= ?"@) by {
        reveal_strlit(" AND created_at >= ?");
        reveal_strlit(" AND ");
        reveal_strlit("created_at");
        reveal_strlit(" >= ?");
        assert(" AND created_at >= ?"@ =~= " AND "@ + "created_at"@ + " >= ?"@);
    }
    lemma_at_least(
        s3,
        head,
        q3,
        " AND created_at >= ?"@,
        ""@,
        "created_at"@,
        asked.since,
        row,
        matching,
    );
    let s4 = s3.filter(" AND created_at >= ?"@, ""@, asked.since);
    let q4 = q3.at_least("created_at"@, asked.since);
    assert(" AND created_at <= ?"@ == " AND "@ + "created_at"@ + " <= ?"@) by {
        reveal_strlit(" AND created_at <= ?");
        reveal_strlit(" AND ");
        reveal_strlit("created_at");
        reveal_strlit(" <= ?");
        assert(" AND created_at <= ?"@ =~= " AND "@ + "created_at"@ + " <= ?"@);
    }
    lemma_at_most(
        s4,
        head,
        q4,
        " AND created_at <= ?"@,
        ""@,
        "created_at"@,
        asked.until,
        row,
        matching,
    );
    let s5 = s4.filter(" AND created_at <= ?"@, ""@, asked.until);
    let q5 = q4.at_most("created_at"@, asked.until);
    assert(s5.params.len() == q5.given.len());
    assert((list_socket_events_statement(asked, limit,
        offset)).sql =~= "SELECT id, event_name, direction, agent_id, socket_id, room, payload, created_at\n         FROM socket_events WHERE 1=1"@ + q5.sql() + " ORDER BY created_at DESC LIMIT ?"@ + decimal(q5.given.len() + 1) + " OFFSET ?"@ + decimal(q5.given.len() + 2));
}

// Changes.

/// A list of columns that are set, each to a parameter.
pub struct Changes {
    pub columns: Seq<Seq<char>>,
    pub params: Seq<SqlCell>,
}

impl Changes {
    /// A column is set first.
    pub open spec fn of(column: Seq<char>, cell: SqlCell) -> Changes {
        Changes { columns: seq![column], params: seq![cell] }
    }

    /// A column is set too, where something is given for it.
    pub open spec fn set(self, column: Seq<char>, item: Option<SqlCell>) -> Changes {
        match item {
            Some(cell) => Changes {
                columns: self.columns.push(column),
                params: self.params.push(cell),
            },
            None => self,
        }
    }

    /// The changes as SQL.
    pub open spec fn sql(self) -> Seq<char> {
        assignments(self.columns)
    }
}

/// Columns, each set to the parameter with its number, as SQL.
pub open spec fn assignments(columns: Seq<Seq<char>>) -> Seq<char>
    decreases columns.len(),
{
    if columns.len() == 0 {
        Seq::empty()
    } else if columns.len() == 1 {
        columns[0] + " = ?"@ + decimal(1)
    } else {
        assignments(columns.drop_last()) + ", "@ + columns.last() + " = ?"@ + decimal(columns.len())
    }
}

/// What a column is set to, where it is.
pub open spec fn value_set(changes: Changes, column: Seq<char>) -> Option<SqlCell>
    decreases changes.columns.len(),
{
    if changes.columns.len() == 0 {
        None
    } else if changes.columns.last() == column {
        Some(changes.params.last())
    } else {
        value_set(
            Changes { columns: changes.columns.drop_last(), params: changes.params.drop_last() },
            column,
        )
    }
}

/// A text cell, where there is a text.
pub open spec fn text_cell(item: Option<Seq<char>>) -> Option<SqlCell> {
    match item {
        Some(s) => Some(SqlCell::Text(s)),
        None => None,
    }
}

/// A cell with a real number, where there is one.
pub open spec fn real_cell(item: Option<Seq<char>>) -> Option<SqlCell> {
    match item {
        Some(s) => Some(SqlCell::Real(s)),
        None => None,
    }
}

proof fn lemma_set(
    s: StatementView,
    head: Seq<char>,
    changes: Changes,
    before: Seq<char>,
    column: Seq<char>,
    cell: SqlCell,
)
    requires
        s.sql == head + changes.sql(),
        s.params == changes.params,
        changes.columns.len() == changes.params.len() > 0,
        before == ", "@ + column + " = ?"@,
    ensures
        s.bind(before, ""@, cell).sql == head + changes.set(column, Some(cell)).sql(),
        s.bind(before, ""@, cell).params == changes.set(column, Some(cell)).params,
{
    reveal_strlit("");
    let more = changes.set(column, Some(cell));
    assert(more.columns.drop_last() =~= changes.columns);
    assert(s.bind(before, ""@, cell).sql =~= head + more.sql());
}

proof fn lemma_value_set(
    changes: Changes,
    column: Seq<char>,
    item: Option<SqlCell>,
    other: Seq<char>,
)
    requires
        changes.columns.len() == changes.params.len(),
    ensures
        value_set(changes.set(column, item), other) == (if column == other && item is Some {
            item
        } else {
            value_set(changes, other)
        }),
{
    let more = changes.set(column, item);
    if item is Some {
        assert(more.columns.drop_last() =~= changes.columns);
        assert(more.params.drop_last() =~= changes.params);
    }
}

/// The names of the columns that are changed are distinct.
proof fn lemma_columns()
    ensures
        "updated_at"@ != "status"@,
        "updated_at"@ != "agent_id"@,
        "updated_at"@ != "payload"@,
        "updated_at"@ != "current_stage"@,
        "updated_at"@ != "summary"@,
        "updated_at"@ != "metadata"@,
        "updated_at"@ != "tags"@,
        "updated_at"@ != "relevance_score"@,
        "status"@ != "agent_id"@,
        "status"@ != "payload"@,
        "status"@ != "current_stage"@,
        "status"@ != "summary"@,
        "status"@ != "metadata"@,
        "status"@ != "tags"@,
        "status"@ != "relevance_score"@,
        "agent_id"@ != "payload"@,
        "agent_id"@ != "current_stage"@,
        "agent_id"@ != "summary"@,
        "agent_id"@ != "metadata"@,
        "agent_id"@ != "tags"@,
        "agent_id"@ != "relevance_score"@,
        "payload"@ != "current_stage"@,
        "payload"@ != "summary"@,
        "payload"@ != "metadata"@,
        "payload"@ != "tags"@,
        "payload"@ != "relevance_score"@,
        "current_stage"@ != "summary"@,
        "current_stage"@ != "metadata"@,
        "current_stage"@ != "tags"@,
        "current_stage"@ != "relevance_score"@,
        "summary"@ != "metadata"@,
        "summary"@ != "tags"@,
        "summary"@ != "relevance_score"@,
        "metadata"@ != "tags"@,
        "metadata"@ != "relevance_score"@,
        "tags"@ != "relevance_score"@,
{
    reveal_strlit("updated_at");
    reveal_strlit("status");
    reveal_strlit("agent_id");
    reveal_strlit("payload");
    reveal_strlit("current_stage");
    reveal_strlit("summary");
    reveal_strlit("metadata");
    reveal_strlit("tags");
    reveal_strlit("relevance_score");
    assert("updated_at"@.len() != "status"@.len());
    assert("updated_at"@.len() != "agent_id"@.len());
    assert("updated_at"@.len() != "payload"@.len());
    assert("updated_at"@.len() != "current_stage"@.len());
    assert("updated_at"@.len() != "summary"@.len());
    assert("updated_at"@.len() != "metadata"@.len());
    assert("updated_at"@.len() != "tags"@.len());
    assert("updated_at"@.len() != "relevance_score"@.len());
    assert("status"@.len() != "agent_id"@.len());
    assert("status"@.len() != "payload"@.len());
    assert("status"@.len() != "current_stage"@.len());
    assert("status"@.len() != "summary"@.len());
    assert("status"@.len() != "metadata"@.len());
    assert("status"@.len() != "tags"@.len());
    assert("status"@.len() != "relevance_score"@.len());
    assert("agent_id"@.len() != "payload"@.len());
    assert("agent_id"@.len() != "current_stage"@.len());
    assert("agent_id"@.len() != "summary"@.len());
    assert("agent_id"@[0] == 'a' && "metadata"@[0] == 'm');
    assert("agent_id"@.len() != "tags"@.len());
    assert("agent_id"@.len() != "relevance_score"@.len());
    assert("payload"@.len() != "current_stage"@.len());
    assert("payload"@[0] == 'p' && "summary"@[0] == 's');
    assert("payload"@.len() != "metadata"@.len());
    assert("payload"@.len() != "tags"@.len());
    assert("payload"@.len() != "relevance_score"@.len());
    assert("current_stage"@.len() != "summary"@.len());
    assert("current_stage"@.len() != "metadata"@.len());
    assert("current_stage"@.len() != "tags"@.len());
    assert("current_stage"@.len() != "relevance_score"@.len());
    assert("summary"@.len() != "metadata"@.len());
    assert("summary"@.len() != "tags"@.len());
    assert("summary"@.len() != "relevance_score"@.len());
    assert("metadata"@.len() != "tags"@.len());
    assert("metadata"@.len() != "relevance_score"@.len());
    assert("tags"@.len() != "relevance_score"@.len());
}

/// An update of a task sets the columns for which something is given to what is given,
/// leaves the others as they are, and sets the time of the change; it concerns the task
/// with the id.
pub proof fn law_only_given_columns_of_a_task_are_set(
    now: Seq<char>,
    task_id: Seq<char>,
    status: Option<Seq<char>>,
    agent_id: Option<Seq<char>>,
    payload: Option<Seq<char>>,
    current_stage: Option<Seq<char>>,
    summary: Option<Seq<char>>,
)
    ensures
        ({
            let s = update_task_statement(now, task_id, status, agent_id, payload,
                current_stage, summary);
            let c = Changes::of("updated_at"@, SqlCell::Text(now)).set("status"@,
                text_cell(status)).set("agent_id"@, text_cell(agent_id)).set("payload"@,
                    text_cell(payload)).set("current_stage"@,
                        text_cell(current_stage)).set("summary"@, text_cell(summary));
            &&& s.sql
                == "UPDATE tasks SET "@ + c.sql() + " WHERE id = ?"@ + decimal(c.columns.len() + 1)
            &&& s.params == c.params.push(SqlCell::Text(task_id))
            &&& c.columns.len() == c.params.len()
            &&& value_set(c, "updated_at"@) == Some(SqlCell::Text(now))
            &&& value_set(c, "status"@) == text_cell(status)
            &&& value_set(c, "agent_id"@) == text_cell(agent_id)
            &&& value_set(c, "payload"@) == text_cell(payload)
            &&& value_set(c, "current_stage"@) == text_cell(current_stage)
            &&& value_set(c, "summary"@) == text_cell(summary)
        }),
{
    lemma_columns();
    reveal_strlit("");
    reveal_strlit(" = ?");
    reveal_strlit(" WHERE id = ?");
    reveal_strlit(", ");
    reveal_strlit(", agent_id = ?");
    reveal_strlit(", current_stage = ?");
    reveal_strlit(", payload = ?");
    reveal_strlit(", status = ?");
    reveal_strlit(", summary = ?");
    reveal_strlit("UPDATE tasks SET ");
    reveal_strlit("UPDATE tasks SET updated_at = ?1");
    reveal_strlit("agent_id");
    reveal_strlit("current_stage");
    reveal_strlit("payload");
    reveal_strlit("status");
    reveal_strlit("summary");
    reveal_strlit("updated_at");
    let head = "UPDATE tasks SET "@;
    let s0 = StatementView::of("UPDATE tasks SET updated_at = ?1"@).text(now);
    let c0 = Changes::of("updated_at"@, SqlCell::Text(now));
    assert(decimal(1) =~= seq!['1']);
    assert(s0.sql =~= head + c0.sql());
    assert(s0.params =~= c0.params);
    assert(value_set(c0, "updated_at"@) == Some(SqlCell::Text(now)));
    assert(value_set(Changes { columns: c0.columns.drop_last(), params: c0.params.drop_last() },
        "status"@) is None);
    assert(value_set(Changes { columns: c0.columns.drop_last(), params: c0.params.drop_last() },
        "agent_id"@) is None);
    assert(value_set(Changes { columns: c0.columns.drop_last(), params: c0.params.drop_last() },
        "payload"@) is None);
    assert(value_set(Changes { columns: c0.columns.drop_last(), params: c0.params.drop_last() },
        "current_stage"@) is None);
    assert(value_set(Changes { columns: c0.columns.drop_last(), params: c0.params.drop_last() },
        "summary"@) is None);
    assert(", status = ?"@ =~= ", "@ + "status"@ + " = ?"@);
    let c1 = c0.set("status"@, text_cell(status));
    let s1 = match status {
        Some(item) => s0.bind(", status = ?"@, ""@, SqlCell::Text(item)),
        None => s0,
    };
    match status {
        Some(item) => lemma_set(s0, head, c0, ", status = ?"@, "status"@, SqlCell::Text(item)),
        None => {},
    }
    lemma_value_set(c0, "status"@, text_cell(status), "updated_at"@);
    lemma_value_set(c0, "status"@, text_cell(status), "status"@);
    lemma_value_set(c0, "status"@, text_cell(status), "agent_id"@);
    lemma_value_set(c0, "status"@, text_cell(status), "payload"@);
    lemma_value_set(c0, "status"@, text_cell(status), "current_stage"@);
    lemma_value_set(c0, "status"@, text_cell(status), "summary"@);
    assert(", agent_id = ?"@ =~= ", "@ + "agent_id"@ + " = ?"@);
    let c2 = c1.set("agent_id"@, text_cell(agent_id));
    let s2 = match agent_id {
        Some(item) => s1.bind(", agent_id = ?"@, ""@, SqlCell::Text(item)),
        None => s1,
    };
    match agent_id {
        Some(item) => lemma_set(s1, head, c1, ", agent_id = ?"@, "agent_id"@, SqlCell::Text(item)),
        None => {},
    }
    lemma_value_set(c1, "agent_id"@, text_cell(agent_id), "updated_at"@);
    lemma_value_set(c1, "agent_id"@, text_cell(agent_id), "status"@);
    lemma_value_set(c1, "agent_id"@, text_cell(agent_id), "agent_id"@);
    lemma_value_set(c1, "agent_id"@, text_cell(agent_id), "payload"@);
    lemma_value_set(c1, "agent_id"@, text_cell(agent_id), "current_stage"@);
    lemma_value_set(c1, "agent_id"@, text_cell(agent_id), "summary"@);
    assert(", payload = ?"@ =~= ", "@ + "payload"@ + " = ?"@);
    let c3 = c2.set("payload"@, text_cell(payload));
    let s3 = match payload {
        Some(item) => s2.bind(", payload = ?"@, ""@, SqlCell::Text(item)),
        None => s2,
    };
    match payload {
        Some(item) => lemma_set(s2, head, c2, ", payload = ?"@, "payload"@, SqlCell::Text(item)),
        None => {},
    }
    lemma_value_set(c2, "payload"@, text_cell(payload), "updated_at"@);
    lemma_value_set(c2, "payload"@, text_cell(payload), "status"@);
    lemma_value_set(c2, "payload"@, text_cell(payload), "agent_id"@);
    lemma_value_set(c2, "payload"@, text_cell(payload), "payload"@);
    lemma_value_set(c2, "payload"@, text_cell(payload), "current_stage"@);
    lemma_value_set(c2, "payload"@, text_cell(payload), "summary"@);
    assert(", current_stage = ?"@ =~= ", "@ + "current_stage"@ + " = ?"@);
    let c4 = c3.set("current_stage"@, text_cell(current_stage));
    let s4 = match current_stage {
        Some(item) => s3.bind(", current_stage = ?"@, ""@, SqlCell::Text(item)),
        None => s3,
    };
    match current_stage {
        Some(item) => lemma_set(s3, head, c3, ", current_stage = ?"@, "current_stage"@,
            SqlCell::Text(item)),
        None => {},
    }
    lemma_value_set(c3, "current_stage"@, text_cell(current_stage), "updated_at"@);
    lemma_value_set(c3, "current_stage"@, text_cell(current_stage), "status"@);
    lemma_value_set(c3, "current_stage"@, text_cell(current_stage), "agent_id"@);
    lemma_value_set(c3, "current_stage"@, text_cell(current_stage), "payload"@);
    lemma_value_set(c3, "current_stage"@, text_cell(current_stage), "current_stage"@);
    lemma_value_set(c3, "current_stage"@, text_cell(current_stage), "summary"@);
    assert(", summary = ?"@ =~= ", "@ + "summary"@ + " = ?"@);
    let c5 = c4.set("summary"@, text_cell(summary));
    let s5 = match summary {
        Some(item) => s4.bind(", summary = ?"@, ""@, SqlCell::Text(item)),
        None => s4,
    };
    match summary {
        Some(item) => lemma_set(s4, head, c4, ", summary = ?"@, "summary"@, SqlCell::Text(item)),
        None => {},
    }
    lemma_value_set(c4, "summary"@, text_cell(summary), "updated_at"@);
    lemma_value_set(c4, "summary"@, text_cell(summary), "status"@);
    lemma_value_set(c4, "summary"@, text_cell(summary), "agent_id"@);
    lemma_value_set(c4, "summary"@, text_cell(summary), "payload"@);
    lemma_value_set(c4, "summary"@, text_cell(summary), "current_stage"@);
    lemma_value_set(c4, "summary"@, text_cell(summary), "summary"@);
    assert((update_task_statement(now, task_id, status, agent_id, payload, current_stage,
        summary)).sql =~= head + c5.sql() + " WHERE id = ?"@ + decimal(c5.columns.len() + 1));
}

/// An update of a memory sets the columns for which something is given to what is given,
/// leaves the others as they are, and sets the time of the change; it concerns the
/// memory with the id.
pub proof fn law_only_given_columns_of_a_memory_are_set(
    now: Seq<char>,
    memory_id: Seq<char>,
    metadata: Option<Seq<char>>,
    tags: Option<Seq<char>>,
    relevance_score: Option<Seq<char>>,
)
    ensures
        ({
            let s = update_memory_statement(now, memory_id, metadata, tags, relevance_score);
            let c = Changes::of("updated_at"@, SqlCell::Text(now)).set("metadata"@,
                text_cell(metadata)).set("tags"@, text_cell(tags)).set("relevance_score"@,
                    real_cell(relevance_score));
            &&& s.sql
                == "UPDATE memories SET "@ + c.sql() + " WHERE id = ?"@ + decimal(c.columns.len()
                    + 1)
            &&& s.params == c.params.push(SqlCell::Text(memory_id))
            &&& c.columns.len() == c.params.len()
            &&& value_set(c, "updated_at"@) == Some(SqlCell::Text(now))
            &&& value_set(c, "metadata"@) == text_cell(metadata)
            &&& value_set(c, "tags"@) == text_cell(tags)
            &&& value_set(c, "relevance_score"@) == real_cell(relevance_score)
        }),
{
    lemma_columns();
    reveal_strlit("");
    reveal_strlit(" = ?");
    reveal_strlit(" WHERE id = ?");
    reveal_strlit(", ");
    reveal_strlit(", metadata = ?");
    reveal_strlit(", relevance_score = ?");
    reveal_strlit(", tags = ?");
    reveal_strlit("UPDATE memories SET ");
    reveal_strlit("UPDATE memories SET updated_at = ?1");
    reveal_strlit("metadata");
    reveal_strlit("relevance_score");
    reveal_strlit("tags");
    reveal_strlit("updated_at");
    let head = "UPDATE memories SET "@;
    let s0 = StatementView::of("UPDATE memories SET updated_at = ?1"@).text(now);
    let c0 = Changes::of("updated_at"@, SqlCell::Text(now));
    assert(decimal(1) =~= seq!['1']);
    assert(s0.sql =~= head + c0.sql());
    assert(s0.params =~= c0.params);
    assert(value_set(c0, "updated_at"@) == Some(SqlCell::Text(now)));
    assert(value_set(Changes { columns: c0.columns.drop_last(), params: c0.params.drop_last() },
        "metadata"@) is None);
    assert(value_set(Changes { columns: c0.columns.drop_last(), params: c0.params.drop_last() },
        "tags"@) is None);
    assert(value_set(Changes { columns: c0.columns.drop_last(), params: c0.params.drop_last() },
        "relevance_score"@) is None);
    assert(", metadata = ?"@ =~= ", "@ + "metadata"@ + " = ?"@);
    let c1 = c0.set("metadata"@, text_cell(metadata));
    let s1 = match metadata {
        Some(item) => s0.bind(", metadata = ?"@, ""@, SqlCell::Text(item)),
        None => s0,
    };
    match metadata {
        Some(item) => lemma_set(s0, head, c0, ", metadata = ?"@, "metadata"@, SqlCell::Text(item)),
        None => {},
    }
    lemma_value_set(c0, "metadata"@, text_cell(metadata), "updated_at"@);
    lemma_value_set(c0, "metadata"@, text_cell(metadata), "metadata"@);
    lemma_value_set(c0, "metadata"@, text_cell(metadata), "tags"@);
    lemma_value_set(c0, "metadata"@, text_cell(metadata), "relevance_score"@);
    assert(", tags = ?"@ =~= ", "@ + "tags"@ + " = ?"@);
    let c2 = c1.set("tags"@, text_cell(tags));
    let s2 = match tags {
        Some(item) => s1.bind(", tags = ?"@, ""@, SqlCell::Text(item)),
        None => s1,
    };
    match tags {
        Some(item) => lemma_set(s1, head, c1, ", tags = ?"@, "tags"@, SqlCell::Text(item)),
        None => {},
    }
    lemma_value_set(c1, "tags"@, text_cell(tags), "updated_at"@);
    lemma_value_set(c1, "tags"@, text_cell(tags), "metadata"@);
    lemma_value_set(c1, "tags"@, text_cell(tags), "tags"@);
    lemma_value_set(c1, "tags"@, text_cell(tags), "relevance_score"@);
    assert(", relevance_score = ?"@ =~= ", "@ + "relevance_score"@ + " = ?"@);
    let c3 = c2.set("relevance_score"@, real_cell(relevance_score));
    let s3 = match relevance_score {
        Some(item) => s2.bind(", relevance_score = ?"@, ""@, SqlCell::Real(item)),
        None => s2,
    };
    match relevance_score {
        Some(item) => lemma_set(s2, head, c2, ", relevance_score = ?"@, "relevance_score"@,
            SqlCell::Real(item)),
        None => {},
    }
    lemma_value_set(c2, "relevance_score"@, real_cell(relevance_score), "updated_at"@);
    lemma_value_set(c2, "relevance_score"@, real_cell(relevance_score), "metadata"@);
    lemma_value_set(c2, "relevance_score"@, real_cell(relevance_score), "tags"@);
    lemma_value_set(c2, "relevance_score"@, real_cell(relevance_score), "relevance_score"@);
    assert((update_memory_statement(now, memory_id, metadata, tags,
        relevance_score)).sql =~= head + c3.sql() + " WHERE id = ?"@ + decimal(c3.columns.len()
            + 1));
}

} // verus!
