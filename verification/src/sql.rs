//! SQL statements with their parameters, and the cells of the rows they return.

use crate::text::{concat2, concat3, decimal, decimal_text, has_part, occurs_at, opt_str};
use vstd::prelude::*;

verus! {

/// A value that a statement is given or that a row holds. A real number is kept
/// as its decimal text.
#[derive(Clone, Debug)]
pub enum SqlValue {
    Null,
    Integer(i64),
    Real(String),
    Text(String),
}

/// What an [`SqlValue`] holds.
pub enum SqlCell {
    Null,
    Integer(i64),
    Real(Seq<char>),
    Text(Seq<char>),
}

impl View for SqlValue {
    type V = SqlCell;

    open spec fn view(&self) -> SqlCell {
        match self {
            SqlValue::Null => SqlCell::Null,
            SqlValue::Integer(n) => SqlCell::Integer(*n),
            SqlValue::Real(s) => SqlCell::Real(s@),
            SqlValue::Text(s) => SqlCell::Text(s@),
        }
    }
}

/// What each of a list of values holds.
pub open spec fn cells(values: Seq<SqlValue>) -> Seq<SqlCell> {
    values.map_values(|value: SqlValue| value@)
}

/// An SQL statement: its text, in which `?1`, `?2`, ... stand for the parameters.
#[derive(Clone, Debug)]
pub struct Statement {
    pub sql: String,
    pub params: Vec<SqlValue>,
}

/// What a [`Statement`] holds.
#[verifier::ext_equal]
pub struct StatementView {
    pub sql: Seq<char>,
    pub params: Seq<SqlCell>,
}

impl View for Statement {
    type V = StatementView;

    open spec fn view(&self) -> StatementView {
        StatementView { sql: self.sql@, params: cells(self.params@) }
    }
}

impl StatementView {
    /// A statement without parameters.
    pub open spec fn of(sql: Seq<char>) -> StatementView {
        StatementView { sql, params: Seq::empty() }
    }

    /// The statement with one more parameter.
    pub open spec fn param(self, cell: SqlCell) -> StatementView {
        StatementView { sql: self.sql, params: self.params.push(cell) }
    }

    /// The statement with a text as one more parameter.
    pub open spec fn text(self, s: Seq<char>) -> StatementView {
        self.param(SqlCell::Text(s))
    }

    /// The statement with an integer as one more parameter.
    pub open spec fn integer(self, n: i64) -> StatementView {
        self.param(SqlCell::Integer(n))
    }

    /// The statement with a real number as one more parameter.
    pub open spec fn decimal(self, s: Seq<char>) -> StatementView {
        self.param(SqlCell::Real(s))
    }

    /// The statement with more text at its end.
    pub open spec fn add(self, more: Seq<char>) -> StatementView {
        StatementView { sql: self.sql + more, params: self.params }
    }

    /// The statement with a part at its end that reads one more parameter: the
    /// part is `before`, the parameter's number and `after`.
    pub open spec fn bind(self, before: Seq<char>, after: Seq<char>, cell: SqlCell) -> StatementView {
        self.param(cell).add(before + decimal(self.params.len() + 1) + after)
    }

    /// The statement with a condition on a column where a text is given for it.
    pub open spec fn filter(self, before: Seq<char>, after: Seq<char>, item: Option<Seq<char>>) -> StatementView {
        match item {
            Some(s) => self.bind(before, after, SqlCell::Text(s)),
            None => self,
        }
    }
}

impl Statement {
    /// A statement without parameters.
    pub fn of(sql: &str) -> (r: Statement)
        ensures
            r@ == StatementView::of(sql@),
    {
        let r = Statement { sql: sql.to_string(), params: Vec::new() };
        assert(cells(r.params@) =~= Seq::empty());
        r
    }

    /// The statement with one more parameter.
    pub fn param(self, value: SqlValue) -> (r: Statement)
        ensures
            r@ == self@.param(value@),
    {
        let mut params = self.params;
        let ghost before = cells(params@);
        params.push(value);
        assert(cells(params@) =~= before.push(value@));
        Statement { sql: self.sql, params }
    }

    /// The statement with a text as one more parameter.
    pub fn text(self, s: &str) -> (r: Statement)
        ensures
            r@ == self@.text(s@),
    {
        self.param(SqlValue::Text(s.to_string()))
    }

    /// The statement with an integer as one more parameter.
    pub fn integer(self, n: i64) -> (r: Statement)
        ensures
            r@ == self@.integer(n),
    {
        self.param(SqlValue::Integer(n))
    }

    /// The statement with a real number as one more parameter.
    pub fn decimal(self, s: &str) -> (r: Statement)
        ensures
            r@ == self@.decimal(s@),
    {
        self.param(SqlValue::Real(s.to_string()))
    }

    /// The statement with more text at its end.
    pub fn add(self, more: &str) -> (r: Statement)
        ensures
            r@ == self@.add(more@),
    {
        Statement { sql: concat2(self.sql.as_str(), more), params: self.params }
    }

    /// The statement with a part at its end that reads one more parameter.
    pub fn bind(self, before: &str, after: &str, value: SqlValue) -> (r: Statement)
        ensures
            r@ == self@.bind(before@, after@, value@),
    {
        let next = self.param(value);
        assert(next@.params.len() == next.params@.len());
        let number = decimal_text(next.params.len() as u64);
        let part = concat3(before, number.as_str(), after);
        next.add(part.as_str())
    }

    /// The statement with a condition on a column where a text is given for it.
    pub fn filter(self, before: &str, after: &str, item: Option<&str>) -> (r: Statement)
        ensures
            r@ == self@.filter(before@, after@, opt_str(item)),
    {
        match item {
            Some(s) => self.bind(before, after, SqlValue::Text(s.to_string())),
            None => self,
        }
    }
}

/// The mark that stands for a parameter in the text of a statement.
pub open spec fn mark(n: nat) -> Seq<char> {
    seq!['?'] + decimal(n)
}

/// Whether the mark of each parameter stands in the text of the statement.
pub open spec fn binds_all(s: StatementView) -> bool {
    forall|n: nat| 1 <= n <= s.params.len() ==> has_part(s.sql, #[trigger] mark(n))
}

/// A text stands in a longer one where it stands in its beginning.
pub proof fn lemma_has_part_longer(whole: Seq<char>, more: Seq<char>, part: Seq<char>)
    requires
        has_part(whole, part),
    ensures
        has_part(whole + more, part),
{
    let at = choose|at: int| occurs_at(whole, part, at);
    assert((whole + more).subrange(at, at + part.len()) =~= whole.subrange(at, at + part.len()));
    assert(occurs_at(whole + more, part, at));
}

/// A part that reads one more parameter keeps the mark of each parameter in the
/// text.
pub proof fn lemma_bind_binds(s: StatementView, before: Seq<char>, after: Seq<char>, cell: SqlCell)
    requires
        binds_all(s),
        before.len() > 0,
        before.last() == '?',
    ensures
        binds_all(s.bind(before, after, cell)),
{
    let next = s.bind(before, after, cell);
    let count = s.params.len() + 1;
    let more = before + decimal(count) + after;
    assert forall|n: nat| 1 <= n <= next.params.len() implies has_part(next.sql, #[trigger] mark(n)) by {
        if n < count {
            lemma_has_part_longer(s.sql, more, mark(n));
        } else {
            let at = s.sql.len() + before.len() - 1;
            assert(next.sql.subrange(at, at + mark(n).len()) =~= mark(n));
            assert(occurs_at(next.sql, mark(n), at));
        }
    }
}

/// A condition on a column keeps the mark of each parameter in the text.
pub proof fn lemma_filter_binds(
    s: StatementView,
    before: Seq<char>,
    after: Seq<char>,
    item: Option<Seq<char>>,
)
    requires
        binds_all(s),
        before.len() > 0,
        before.last() == '?',
    ensures
        binds_all(s.filter(before, after, item)),
{
    match item {
        Some(text) => lemma_bind_binds(s, before, after, SqlCell::Text(text)),
        None => {},
    }
}

/// Whether a cell of a text column holds what such a column can: a text, or
/// nothing.
pub open spec fn reads_text(cell: SqlCell) -> bool {
    cell is Text || cell is Null
}

/// Whether a cell of an integer column holds what such a column can: an integer,
/// or nothing.
pub open spec fn reads_integer(cell: SqlCell) -> bool {
    cell is Integer || cell is Null
}

/// Whether a cell of a column of real numbers holds what such a column can: a real
/// number, or nothing.
pub open spec fn reads_decimal(cell: SqlCell) -> bool {
    cell is Real || cell is Null
}

/// The text of a cell.
pub open spec fn cell_text(cell: SqlCell) -> Option<Seq<char>> {
    match cell {
        SqlCell::Text(s) => Some(s),
        _ => None,
    }
}

/// The integer of a cell.
pub open spec fn cell_integer(cell: SqlCell) -> Option<i64> {
    match cell {
        SqlCell::Integer(n) => Some(n),
        _ => None,
    }
}

/// The decimal text of the real number of a cell.
pub open spec fn cell_decimal(cell: SqlCell) -> Option<Seq<char>> {
    match cell {
        SqlCell::Real(s) => Some(s),
        _ => None,
    }
}

/// What a column can hold.
#[derive(Clone, Copy, PartialEq, Eq, Structural)]
pub enum Column {
    Text,
    Integer,
    Decimal,
}

/// Whether a cell holds what a column can.
pub open spec fn fits(cell: SqlCell, column: Column) -> bool {
    match column {
        Column::Text => reads_text(cell),
        Column::Integer => reads_integer(cell),
        Column::Decimal => reads_decimal(cell),
    }
}

/// Whether the cells of a row hold what its columns can.
pub open spec fn row_fits(row: Seq<SqlCell>, columns: Seq<Column>) -> bool {
    &&& row.len() == columns.len()
    &&& forall|i: int| 0 <= i < row.len() ==> fits(#[trigger] row[i], columns[i])
}

/// Whether the cells of a row hold what its columns can.
pub fn check_row(row: &Vec<SqlValue>, columns: &Vec<Column>) -> (r: bool)
    ensures
        r == row_fits(cells(row@), columns@),
{
    if row.len() != columns.len() {
        return false;
    }
    let mut i: usize = 0;
    while i < row.len()
        invariant
            i <= row@.len(),
            row@.len() == columns@.len(),
            forall|k: int| 0 <= k < i ==> fits(#[trigger] cells(row@)[k], columns@[k]),
        decreases row@.len() - i,
    {
        let ok = match (&row[i], columns[i]) {
            (SqlValue::Null, _) => true,
            (SqlValue::Text(_), Column::Text) => true,
            (SqlValue::Integer(_), Column::Integer) => true,
            (SqlValue::Real(_), Column::Decimal) => true,
            _ => false,
        };
        if !ok {
            assert(!fits(cells(row@)[i as int], columns@[i as int]));
            return false;
        }
        i += 1;
    }
    true
}

/// The text of a cell.
pub fn read_text(value: &SqlValue) -> (r: Option<String>)
    ensures
        crate::text::opt_text(r) == cell_text(value@),
{
    match value {
        SqlValue::Text(s) => Some(s.clone()),
        _ => None,
    }
}

/// The text of a cell, or another one where it holds none.
pub fn read_text_or(value: &SqlValue, other: &str) -> (r: String)
    ensures
        r@ == crate::text::text_or(cell_text(value@), other@),
{
    match value {
        SqlValue::Text(s) => s.clone(),
        _ => other.to_string(),
    }
}

/// The integer of a cell, or another one where it holds none.
pub open spec fn integer_or(cell: SqlCell, other: i64) -> i64 {
    match cell {
        SqlCell::Integer(n) => n,
        _ => other,
    }
}

/// The integer of a cell, or another one where it holds none.
pub fn read_integer_or(value: &SqlValue, other: i64) -> (r: i64)
    ensures
        r == integer_or(value@, other),
{
    match value {
        SqlValue::Integer(n) => *n,
        _ => other,
    }
}

/// The decimal text of the real number of a cell, or another one where it holds
/// none.
pub fn read_decimal_or(value: &SqlValue, other: &str) -> (r: String)
    ensures
        r@ == crate::text::text_or(cell_decimal(value@), other@),
{
    match value {
        SqlValue::Real(s) => s.clone(),
        _ => other.to_string(),
    }
}

/// The number of rows that a count query gave, cut to 32 bits; none where there
/// was no row or no number in it.
pub open spec fn count_of(row: Option<Seq<SqlCell>>, column: int) -> u32 {
    match row {
        Some(row) => integer_or(row[column], 0) as u32,
        None => 0,
    }
}

} // verus!
