//! Text functions over sequences of characters.

use vstd::prelude::*;
use vstd::utf8::encode_utf8;

verus! {

/// `String::push` appends one character at the end of the string.
pub assume_specification[ std::string::String::push ](target: &mut std::string::String, c: char)
    ensures
        final(target)@ == old(target)@.push(c),
;

/// The characters of each string of a list.
pub open spec fn texts(items: Seq<String>) -> Seq<Seq<char>> {
    items.map_values(|item: String| item@)
}

/// The characters of a string that may be absent.
pub open spec fn opt_text(item: Option<String>) -> Option<Seq<char>> {
    match item {
        Some(text) => Some(text@),
        None => None,
    }
}

/// The characters of a borrowed string that may be absent.
pub open spec fn opt_str(item: Option<&str>) -> Option<Seq<char>> {
    match item {
        Some(text) => Some(text@),
        None => None,
    }
}

/// The text, or another one where it is absent.
pub open spec fn text_or(item: Option<Seq<char>>, other: Seq<char>) -> Seq<char> {
    match item {
        Some(text) => text,
        None => other,
    }
}

/// The first characters of a text, at most `count`.
pub open spec fn first_chars(s: Seq<char>, count: nat) -> Seq<char> {
    if s.len() <= count {
        s
    } else {
        s.take(count as int)
    }
}

/// Number of bytes of a text in UTF-8.
pub open spec fn byte_len(s: Seq<char>) -> nat {
    encode_utf8(s).len()
}

/// The longest start of a text that has at most `max` bytes.
pub open spec fn fitting(s: Seq<char>, max: nat) -> Seq<char>
    decreases s.len(),
{
    if s.len() == 0 || byte_len(s) <= max {
        s
    } else {
        fitting(s.drop_last(), max)
    }
}

/// Whether `part` stands in `whole` at position `at`.
pub open spec fn occurs_at(whole: Seq<char>, part: Seq<char>, at: int) -> bool {
    &&& 0 <= at
    &&& at + part.len() <= whole.len()
    &&& whole.subrange(at, at + part.len()) == part
}

/// Whether `part` stands anywhere in `whole`.
pub open spec fn has_part(whole: Seq<char>, part: Seq<char>) -> bool {
    exists|at: int| occurs_at(whole, part, at)
}

/// Number of leading characters before the first `stop`.
pub open spec fn until(s: Seq<char>, stop: char) -> nat
    decreases s.len(),
{
    if s.len() == 0 || s[0] == stop {
        0
    } else {
        1 + until(s.drop_first(), stop)
    }
}

/// The lines of a text: cut after each line feed, with the line feed and one
/// carriage return before it left out. A last line needs no line feed.
pub open spec fn lines(s: Seq<char>) -> Seq<Seq<char>>
    decreases s.len(),
{
    if s.len() == 0 {
        Seq::empty()
    } else {
        let n = until(s, '\n');
        if n >= s.len() {
            seq![s]
        } else {
            seq![without_return(s.take(n as int))] + lines(s.skip(n as int + 1))
        }
    }
}

/// The text without one carriage return at its end.
pub open spec fn without_return(s: Seq<char>) -> Seq<char> {
    if s.len() > 0 && s.last() == '\r' {
        s.drop_last()
    } else {
        s
    }
}

/// The pieces between the occurrences of `mark`; always at least one.
pub open spec fn split_on(s: Seq<char>, mark: char) -> Seq<Seq<char>>
    decreases s.len(),
{
    let n = until(s, mark);
    if n >= s.len() {
        seq![s]
    } else {
        seq![s.take(n as int)] + split_on(s.skip(n as int + 1), mark)
    }
}

/// The items one after another with `mark` between neighbours.
pub open spec fn joined(items: Seq<Seq<char>>, mark: Seq<char>) -> Seq<char>
    decreases items.len(),
{
    if items.len() == 0 {
        Seq::empty()
    } else if items.len() == 1 {
        items[0]
    } else {
        items[0] + mark + joined(items.drop_first(), mark)
    }
}

/// The text with `by` in place of each `mark`.
pub open spec fn replaced(s: Seq<char>, mark: char, by: Seq<char>) -> Seq<char>
    decreases s.len(),
{
    if s.len() == 0 {
        Seq::empty()
    } else {
        replaced(s.drop_last(), mark, by) + (if s.last() == mark {
            by
        } else {
            seq![s.last()]
        })
    }
}

/// Whether a character is white space, by the Unicode property `White_Space`.
pub open spec fn is_white(c: char) -> bool {
    ||| '\u{9}' <= c <= '\u{d}'
    ||| c == ' '
    ||| c == '\u{85}'
    ||| c == '\u{a0}'
    ||| c == '\u{1680}'
    ||| '\u{2000}' <= c <= '\u{200a}'
    ||| c == '\u{2028}'
    ||| c == '\u{2029}'
    ||| c == '\u{202f}'
    ||| c == '\u{205f}'
    ||| c == '\u{3000}'
}

/// Number of leading white characters.
pub open spec fn leading_white(s: Seq<char>) -> nat
    decreases s.len(),
{
    if s.len() > 0 && is_white(s[0]) {
        1 + leading_white(s.drop_first())
    } else {
        0
    }
}

/// Number of leading characters that are not white.
pub open spec fn leading_word(s: Seq<char>) -> nat
    decreases s.len(),
{
    if s.len() > 0 && !is_white(s[0]) {
        1 + leading_word(s.drop_first())
    } else {
        0
    }
}

/// The text without the white characters at its start.
pub open spec fn trimmed_start(s: Seq<char>) -> Seq<char> {
    s.skip(leading_white(s) as int)
}

/// The text without the white characters at its end.
pub open spec fn trimmed_end(s: Seq<char>) -> Seq<char>
    decreases s.len(),
{
    if s.len() > 0 && is_white(s.last()) {
        trimmed_end(s.drop_last())
    } else {
        s
    }
}

/// The text without the white characters at both ends.
pub open spec fn trimmed(s: Seq<char>) -> Seq<char> {
    trimmed_end(trimmed_start(s))
}

/// The longest runs of characters that are not white, in order.
pub open spec fn words(s: Seq<char>) -> Seq<Seq<char>>
    decreases s.len(),
{
    if s.len() == 0 {
        Seq::empty()
    } else if is_white(s[0]) {
        words(s.drop_first())
    } else {
        let n = leading_word(s);
        if n == 0 || n > s.len() {
            Seq::empty()
        } else {
            seq![s.take(n as int)] + words(s.skip(n as int))
        }
    }
}

/// The text without the characters `mark` at its start.
pub open spec fn unled(s: Seq<char>, mark: char) -> Seq<char>
    decreases s.len(),
{
    if s.len() > 0 && s[0] == mark {
        unled(s.drop_first(), mark)
    } else {
        s
    }
}

/// The text without the characters `mark` at its end.
pub open spec fn untrailed(s: Seq<char>, mark: char) -> Seq<char>
    decreases s.len(),
{
    if s.len() > 0 && s.last() == mark {
        untrailed(s.drop_last(), mark)
    } else {
        s
    }
}

/// The digit character of a number below ten.
pub open spec fn digit(n: nat) -> char {
    (48 + n) as char
}

/// The decimal digits of a natural number, without leading zeros.
pub open spec fn decimal(n: nat) -> Seq<char>
    decreases n,
{
    if n < 10 {
        seq![digit(n)]
    } else {
        decimal(n / 10).push(digit(n % 10))
    }
}

/// The decimal text of an integer, with a minus sign where it is negative.
pub open spec fn decimal_int(n: int) -> Seq<char> {
    if n < 0 {
        seq!['-'] + decimal((-n) as nat)
    } else {
        decimal(n as nat)
    }
}

/// Whether a character is an ASCII digit.
pub open spec fn is_digit(c: char) -> bool {
    '0' <= c <= '9'
}

/// Whether the text is one or more ASCII digits.
pub open spec fn is_number(s: Seq<char>) -> bool {
    &&& s.len() > 0
    &&& forall|i: int| 0 <= i < s.len() ==> is_digit(#[trigger] s[i])
}

/// The value of a text of ASCII digits.
pub open spec fn number(s: Seq<char>) -> nat
    decreases s.len(),
{
    if s.len() == 0 {
        0
    } else {
        10 * number(s.drop_last()) + (s.last() as nat - 48) as nat
    }
}

/// The number that a text of digits with an optional plus sign stands for, where
/// it is no greater than `limit`.
pub open spec fn parsed(s: Seq<char>, limit: nat) -> Option<nat> {
    let digits = if s.len() > 0 && s[0] == '+' {
        s.drop_first()
    } else {
        s
    };
    if is_number(digits) && number(digits) <= limit {
        Some(number(digits))
    } else {
        None
    }
}

/// Whether `a` stands before `b` in the order of their characters, or is `b`.
pub open spec fn in_order(a: Seq<char>, b: Seq<char>) -> bool
    decreases a.len(),
{
    if a.len() == 0 {
        true
    } else if b.len() == 0 {
        false
    } else if a[0] != b[0] {
        a[0] < b[0]
    } else {
        in_order(a.drop_first(), b.drop_first())
    }
}

/// Whether two texts are the same.
pub fn same(a: &str, b: &str) -> (r: bool)
    ensures
        r == (a@ == b@),
{
    a.to_string() == b.to_string()
}

/// Whether a text that may be absent is there and is `b`.
pub fn is_text(a: Option<&str>, b: &str) -> (r: bool)
    ensures
        r == (opt_str(a) == Some(b@)),
{
    match a {
        Some(text) => same(text, b),
        None => false,
    }
}

/// A copy of a text that may be absent.
pub fn copied(item: &Option<String>) -> (r: Option<String>)
    ensures
        opt_text(r) == opt_text(*item),
{
    match item {
        Some(text) => Some(text.clone()),
        None => None,
    }
}

/// An owned copy of a borrowed text that may be absent.
pub fn owned(item: Option<&str>) -> (r: Option<String>)
    ensures
        opt_text(r) == opt_str(item),
{
    match item {
        Some(text) => Some(text.to_string()),
        None => None,
    }
}

/// Borrows a text that may be absent.
pub fn borrowed<'a>(item: &'a Option<String>) -> (r: Option<&'a str>)
    ensures
        opt_str(r) == opt_text(*item),
{
    match item {
        Some(text) => Some(text.as_str()),
        None => None,
    }
}

/// The characters of a text.
pub fn characters(s: &str) -> (r: Vec<char>)
    ensures
        r@ == s@,
{
    let mut out: Vec<char> = Vec::new();
    for c in it: s.chars()
        invariant
            it.seq() == s@,
            out@ == s@.take(it.index() as int),
    {
        proof {
            let i = it.index() as int;
            assert(s@.take(i).push(s@[i]) =~= s@.take(i + 1));
        }
        out.push(c);
    }
    assert(s@.take(s@.len() as int) =~= s@);
    out
}

/// The text made of the characters from `from` up to `to`.
pub fn piece(chars: &Vec<char>, from: usize, to: usize) -> (r: String)
    requires
        from <= to <= chars@.len(),
    ensures
        r@ == chars@.subrange(from as int, to as int),
{
    let mut out = String::new();
    let mut i: usize = from;
    while i < to
        invariant
            from <= i <= to <= chars@.len(),
            out@ == chars@.subrange(from as int, i as int),
        decreases to - i,
    {
        proof {
            assert(chars@.subrange(from as int, i as int).push(chars@[i as int]) =~= chars@.subrange(
                from as int,
                i + 1,
            ));
        }
        out.push(chars[i]);
        i += 1;
    }
    out
}

/// The first characters of a text, at most `count`.
pub fn leading(s: &str, count: usize) -> (r: String)
    ensures
        r@ == first_chars(s@, count as nat),
{
    let chars = characters(s);
    if chars.len() <= count {
        return s.to_string();
    }
    assert(chars@.subrange(0, count as int) =~= s@.take(count as int));
    piece(&chars, 0, count)
}

/// The bytes of two texts are those of the texts one after the other.
pub proof fn lemma_encode_concat(a: Seq<char>, b: Seq<char>)
    ensures
        encode_utf8(a + b) == encode_utf8(a) + encode_utf8(b),
    decreases a.len(),
{
    if a.len() == 0 {
        assert(a + b =~= b);
        assert(encode_utf8(a) + encode_utf8(b) =~= encode_utf8(b));
    } else {
        lemma_encode_concat(a.drop_first(), b);
        assert((a + b).drop_first() =~= a.drop_first() + b);
        assert((a + b)[0] == a[0]);
        assert(encode_utf8(a + b) =~= encode_utf8(a) + encode_utf8(b));
    }
}

/// A start of a text is the longest that fits where it fits, and with one more
/// character does not.
pub proof fn lemma_is_fitting(s: Seq<char>, max: nat, n: int)
    requires
        0 <= n <= s.len(),
        byte_len(s.take(n)) <= max,
        n < s.len() ==> byte_len(s.take(n + 1)) > max,
    ensures
        fitting(s, max) == s.take(n),
    decreases s.len(),
{
    if n == s.len() {
        assert(s.take(n) =~= s);
    } else {
        lemma_encode_concat(s.take(n + 1), s.skip(n + 1));
        assert(s.take(n + 1) + s.skip(n + 1) =~= s);
        let rest = s.drop_last();
        assert(rest.take(n) =~= s.take(n));
        if n < rest.len() {
            assert(rest.take(n + 1) =~= s.take(n + 1));
        }
        lemma_is_fitting(rest, max, n);
    }
}

/// The longest start of a text that fits is a start of it, fits, and with one more
/// character does not.
pub proof fn lemma_fitting(s: Seq<char>, max: nat)
    ensures
        fitting(s, max).len() <= s.len(),
        fitting(s, max) == s.take(fitting(s, max).len() as int),
        byte_len(fitting(s, max)) <= max,
        fitting(s, max).len() < s.len() ==> byte_len(s.take(fitting(s, max).len() as int + 1))
            > max,
    decreases s.len(),
{
    if s.len() == 0 || byte_len(s) <= max {
        assert(s.take(s.len() as int) =~= s);
    } else {
        let rest = s.drop_last();
        lemma_fitting(rest, max);
        let n = fitting(rest, max).len() as int;
        assert(rest.take(n) =~= s.take(n));
        if n < rest.len() {
            assert(rest.take(n + 1) =~= s.take(n + 1));
        } else {
            assert(s.take(n + 1) =~= s);
        }
    }
}

/// The longest start of a text that has at most `max` bytes.
pub fn fit(s: &str, max: usize) -> (r: String)
    ensures
        r@ == fitting(s@, max as nat),
{
    if s.as_bytes().len() <= max {
        return s.to_string();
    }
    let chars = characters(s);
    let mut longer = String::new();
    let mut i: usize = 0;
    assert(longer@ =~= s@.take(0));
    assert(encode_utf8(s@.take(0)).len() == 0);
    while i < chars.len()
        invariant
            i <= chars@.len(),
            chars@ == s@,
            longer@ == s@.take(i as int),
            byte_len(longer@) <= max,
            byte_len(s@) > max,
        decreases chars@.len() - i,
    {
        longer.push(chars[i]);
        assert(longer@ =~= s@.take(i + 1));
        if longer.as_str().as_bytes().len() > max {
            proof {
                lemma_is_fitting(s@, max as nat, i as int);
            }
            assert(chars@.subrange(0, i as int) =~= s@.take(i as int));
            return piece(&chars, 0, i);
        }
        i += 1;
    }
    assert(s@.take(i as int) =~= s@);
    longer
}

/// The texts one after another.
pub fn concat2(a: &str, b: &str) -> (r: String)
    ensures
        r@ == a@ + b@,
{
    a.to_string().concat(b)
}

/// The texts one after another.
pub fn concat3(a: &str, b: &str, c: &str) -> (r: String)
    ensures
        r@ == a@ + b@ + c@,
{
    a.to_string().concat(b).concat(c)
}

/// The texts one after another.
pub fn concat4(a: &str, b: &str, c: &str, d: &str) -> (r: String)
    ensures
        r@ == a@ + b@ + c@ + d@,
{
    a.to_string().concat(b).concat(c).concat(d)
}

/// The texts one after another.
pub fn concat5(a: &str, b: &str, c: &str, d: &str, e: &str) -> (r: String)
    ensures
        r@ == a@ + b@ + c@ + d@ + e@,
{
    a.to_string().concat(b).concat(c).concat(d).concat(e)
}

/// Whether `s` begins with `start`.
pub fn begins_with(s: &str, start: &str) -> (r: bool)
    ensures
        r == start@.is_prefix_of(s@),
{
    let a = characters(s);
    let b = characters(start);
    stands_at(&a, &b, 0)
}

/// Whether `part` stands in `whole` at position `at`.
fn stands_at(whole: &Vec<char>, part: &Vec<char>, at: usize) -> (r: bool)
    requires
        at <= whole@.len(),
    ensures
        r == occurs_at(whole@, part@, at as int),
        at == 0 ==> r == part@.is_prefix_of(whole@),
{
    if part.len() > whole.len() - at {
        return false;
    }
    let mut i: usize = 0;
    while i < part.len()
        invariant
            i <= part@.len(),
            at + part@.len() <= whole.len(),
            forall|k: int| 0 <= k < i ==> whole@[at + k] == part@[k],
        decreases part@.len() - i,
    {
        if whole[at + i] != part[i] {
            proof {
                let cut = whole@.subrange(at as int, at + part@.len());
                assert(cut[i as int] != part@[i as int]);
                assert(at == 0 ==> cut == whole@.subrange(0, part@.len() as int));
            }
            return false;
        }
        i += 1;
    }
    assert(whole@.subrange(at as int, at + part@.len()) =~= part@);
    true
}

/// Whether `part` stands anywhere in `whole`.
pub fn contains(whole: &str, part: &str) -> (r: bool)
    ensures
        r == has_part(whole@, part@),
{
    let a = characters(whole);
    let b = characters(part);
    let mut at: usize = 0;
    loop
        invariant
            at <= a@.len(),
            a@ == whole@,
            b@ == part@,
            forall|k: int| 0 <= k < at ==> !occurs_at(whole@, part@, k),
        decreases a@.len() - at,
    {
        if stands_at(&a, &b, at) {
            return true;
        }
        if at == a.len() {
            assert(forall|k: int| occurs_at(whole@, part@, k) ==> k <= at);
            return false;
        }
        at += 1;
    }
}

pub(crate) proof fn lemma_until(s: Seq<char>, stop: char, n: nat)
    requires
        n <= s.len(),
        forall|i: int| 0 <= i < n ==> s[i] != stop,
        n < s.len() ==> s[n as int] == stop,
    ensures
        until(s, stop) == n,
    decreases s.len(),
{
    if n > 0 {
        lemma_until(s.drop_first(), stop, (n - 1) as nat);
    }
}

/// Position of the first `stop` at or after `from`, or the end.
fn find_char(chars: &Vec<char>, from: usize, stop: char) -> (r: usize)
    requires
        from <= chars@.len(),
    ensures
        from <= r <= chars@.len(),
        r - from == until(chars@.skip(from as int), stop),
        r < chars@.len() ==> chars@[r as int] == stop,
{
    let mut i: usize = from;
    while i < chars.len() && chars[i] != stop
        invariant
            from <= i <= chars@.len(),
            forall|k: int| from <= k < i ==> chars@[k] != stop,
        decreases chars@.len() - i,
    {
        i += 1;
    }
    proof {
        let rest = chars@.skip(from as int);
        assert forall|k: int| 0 <= k < i - from implies rest[k] != stop by {
            assert(rest[k] == chars@[from + k]);
        }
        lemma_until(rest, stop, (i - from) as nat);
    }
    i
}

/// The lines of a text.
pub fn split_lines(s: &str) -> (r: Vec<String>)
    ensures
        texts(r@) == lines(s@),
{
    let chars = characters(s);
    let mut out: Vec<String> = Vec::new();
    let mut i: usize = 0;
    proof {
        assert(chars@.skip(0) =~= s@);
        assert(texts(out@) + lines(s@) =~= lines(s@));
    }
    while i < chars.len()
        invariant
            i <= chars@.len(),
            chars@ == s@,
            texts(out@) + lines(chars@.skip(i as int)) == lines(s@),
        decreases chars@.len() - i,
    {
        let ghost rest = chars@.skip(i as int);
        let ghost before = texts(out@);
        let end: usize = find_char(&chars, i, '\n');
        let ghost n = (end - i) as int;
        if end == chars.len() {
            let line = piece(&chars, i, end);
            proof {
                assert(line@ =~= rest);
            }
            out.push(line);
            i = end;
            proof {
                assert(texts(out@) =~= before.push(rest));
                assert(lines(rest) =~= seq![rest]);
                assert(before + seq![rest] =~= before.push(rest));
                assert(chars@.skip(i as int) =~= Seq::<char>::empty());
                assert(texts(out@) + lines(chars@.skip(i as int)) =~= before.push(rest));
            }
        } else {
            let stop: usize = if end > i && chars[end - 1] == '\r' {
                end - 1
            } else {
                end
            };
            let line = piece(&chars, i, stop);
            proof {
                assert(rest.take(n) =~= chars@.subrange(i as int, end as int));
                assert(line@ =~= without_return(rest.take(n)));
            }
            out.push(line);
            i = end + 1;
            proof {
                assert(texts(out@) =~= before.push(line@));
                assert(chars@.skip(i as int) =~= rest.skip(n + 1));
                assert(lines(rest) == seq![line@] + lines(rest.skip(n + 1)));
                assert(texts(out@) + lines(rest.skip(n + 1)) =~= before + (seq![line@] + lines(
                    rest.skip(n + 1),
                )));
            }
        }
    }
    proof {
        assert(chars@.skip(i as int) =~= Seq::<char>::empty());
        assert(texts(out@) + Seq::<Seq<char>>::empty() =~= texts(out@));
    }
    out
}

/// The pieces of a text between the occurrences of `mark`.
pub fn split(s: &str, mark: char) -> (r: Vec<String>)
    ensures
        texts(r@) == split_on(s@, mark),
{
    let chars = characters(s);
    let mut out: Vec<String> = Vec::new();
    let mut i: usize = 0;
    proof {
        assert(chars@.skip(0) =~= s@);
        assert(texts(out@) + split_on(s@, mark) =~= split_on(s@, mark));
    }
    loop
        invariant
            i <= chars@.len(),
            chars@ == s@,
            texts(out@) + split_on(chars@.skip(i as int), mark) == split_on(s@, mark),
        decreases chars@.len() - i,
    {
        let ghost rest = chars@.skip(i as int);
        let ghost before = texts(out@);
        let end: usize = find_char(&chars, i, mark);
        let ghost n = (end - i) as int;
        let item = piece(&chars, i, end);
        proof {
            assert(rest.take(n) =~= item@);
        }
        out.push(item);
        proof {
            assert(texts(out@) =~= before.push(item@));
        }
        if end == chars.len() {
            proof {
                assert(rest.take(n) =~= rest);
                assert(before + seq![rest] =~= before.push(item@));
            }
            return out;
        }
        i = end + 1;
        proof {
            assert(chars@.skip(i as int) =~= rest.skip(n + 1));
            assert(texts(out@) + split_on(rest.skip(n + 1), mark) =~= before + (seq![item@] + split_on(
                rest.skip(n + 1),
                mark,
            )));
        }
    }
}

proof fn lemma_joined_push(items: Seq<Seq<char>>, item: Seq<char>, mark: Seq<char>)
    ensures
        joined(items.push(item), mark) == (if items.len() == 0 {
            item
        } else {
            joined(items, mark) + mark + item
        }),
    decreases items.len(),
{
    if items.len() > 0 {
        let rest = items.drop_first();
        lemma_joined_push(rest, item, mark);
        assert(items.push(item).drop_first() =~= rest.push(item));
        if items.len() == 1 {
            assert(joined(rest.push(item), mark) == item);
        } else {
            assert(items[0] + mark + (joined(rest, mark) + mark + item) =~= items[0] + mark + joined(
                rest,
                mark,
            ) + mark + item);
        }
    }
}

/// The items one after another with `mark` between neighbours.
pub fn join(items: &Vec<String>, mark: &str) -> (r: String)
    ensures
        r@ == joined(texts(items@), mark@),
{
    let mut out = String::new();
    let mut i: usize = 0;
    while i < items.len()
        invariant
            i <= items@.len(),
            out@ == joined(texts(items@).take(i as int), mark@),
        decreases items@.len() - i,
    {
        proof {
            let all = texts(items@);
            lemma_joined_push(all.take(i as int), all[i as int], mark@);
            assert(all.take(i as int).push(all[i as int]) =~= all.take(i + 1));
        }
        if i > 0 {
            out.append(mark);
        } else {
            assert(out@ + items@[i as int]@ =~= items@[i as int]@);
        }
        out.append(items[i].as_str());
        i += 1;
    }
    proof {
        assert(texts(items@).take(i as int) =~= texts(items@));
    }
    out
}

/// The text with `by` in place of each `mark`.
pub fn replace(s: &str, mark: char, by: &str) -> (r: String)
    ensures
        r@ == replaced(s@, mark, by@),
{
    let chars = characters(s);
    let mut out = String::new();
    let mut i: usize = 0;
    while i < chars.len()
        invariant
            i <= chars@.len(),
            chars@ == s@,
            out@ == replaced(s@.take(i as int), mark, by@),
        decreases chars@.len() - i,
    {
        proof {
            assert(s@.take(i + 1).drop_last() =~= s@.take(i as int));
        }
        let ghost before = out@;
        if chars[i] == mark {
            out.append(by);
        } else {
            out.push(chars[i]);
            assert(out@ =~= before + seq![s@[i as int]]);
        }
        i += 1;
    }
    assert(s@.take(i as int) =~= s@);
    out
}

/// Whether a character is white space.
pub fn white(c: char) -> (r: bool)
    ensures
        r == is_white(c),
{
    ('\u{9}' <= c && c <= '\u{d}') || c == ' ' || c == '\u{85}' || c == '\u{a0}' || c == '\u{1680}'
        || ('\u{2000}' <= c && c <= '\u{200a}') || c == '\u{2028}' || c == '\u{2029}'
        || c == '\u{202f}' || c == '\u{205f}' || c == '\u{3000}'
}

proof fn lemma_leading_white(s: Seq<char>, n: nat)
    requires
        n <= s.len(),
        forall|i: int| 0 <= i < n ==> is_white(s[i]),
        n < s.len() ==> !is_white(s[n as int]),
    ensures
        leading_white(s) == n,
    decreases s.len(),
{
    if n > 0 {
        lemma_leading_white(s.drop_first(), (n - 1) as nat);
    }
}

pub(crate) proof fn lemma_leading_word(s: Seq<char>, n: nat)
    requires
        n <= s.len(),
        forall|i: int| 0 <= i < n ==> !is_white(s[i]),
        n < s.len() ==> is_white(s[n as int]),
    ensures
        leading_word(s) == n,
    decreases s.len(),
{
    if n > 0 {
        lemma_leading_word(s.drop_first(), (n - 1) as nat);
    }
}

/// The text without the white characters at both ends.
pub fn trim(s: &str) -> (r: String)
    ensures
        r@ == trimmed(s@),
{
    let chars = characters(s);
    let mut from: usize = 0;
    while from < chars.len() && white(chars[from])
        invariant
            from <= chars@.len(),
            forall|k: int| 0 <= k < from ==> is_white(chars@[k]),
        decreases chars@.len() - from,
    {
        from += 1;
    }
    proof {
        lemma_leading_white(chars@, from as nat);
        assert(chars@.skip(from as int) =~= chars@.subrange(from as int, chars@.len() as int));
    }
    let mut to: usize = chars.len();
    while to > from && white(chars[to - 1])
        invariant
            from <= to <= chars@.len(),
            trimmed_end(chars@.subrange(from as int, to as int)) == trimmed_end(
                trimmed_start(chars@),
            ),
        decreases to,
    {
        proof {
            assert(chars@.subrange(from as int, to as int).drop_last() =~= chars@.subrange(
                from as int,
                to - 1,
            ));
        }
        to -= 1;
    }
    piece(&chars, from, to)
}

/// The longest runs of characters that are not white, in order.
pub fn split_words(s: &str) -> (r: Vec<String>)
    ensures
        texts(r@) == words(s@),
{
    let chars = characters(s);
    let mut out: Vec<String> = Vec::new();
    let mut i: usize = 0;
    proof {
        assert(chars@.skip(0) =~= s@);
        assert(texts(out@) + words(s@) =~= words(s@));
    }
    while i < chars.len()
        invariant
            i <= chars@.len(),
            chars@ == s@,
            texts(out@) + words(chars@.skip(i as int)) == words(s@),
        decreases chars@.len() - i,
    {
        let ghost rest = chars@.skip(i as int);
        let ghost before = texts(out@);
        if white(chars[i]) {
            i += 1;
            proof {
                assert(rest.drop_first() =~= chars@.skip(i as int));
            }
        } else {
            let start: usize = i;
            while i < chars.len() && !white(chars[i])
                invariant
                    start <= i <= chars@.len(),
                    forall|k: int| start <= k < i ==> !is_white(chars@[k]),
                decreases chars@.len() - i,
            {
                i += 1;
            }
            let word = piece(&chars, start, i);
            proof {
                let n = (i - start) as int;
                assert forall|k: int| 0 <= k < n implies !is_white(rest[k]) by {
                    assert(rest[k] == chars@[start + k]);
                }
                lemma_leading_word(rest, n as nat);
                assert(rest.take(n) =~= word@);
                assert(rest.skip(n) =~= chars@.skip(i as int));
                assert(!is_white(rest[0]));
                assert(before.push(word@) + words(rest.skip(n)) =~= before + (seq![word@] + words(
                    rest.skip(n),
                )));
            }
            out.push(word);
            assert(texts(out@) =~= before.push(word@));
        }
    }
    proof {
        assert(chars@.skip(i as int) =~= Seq::<char>::empty());
        assert(texts(out@) + Seq::<Seq<char>>::empty() =~= texts(out@));
    }
    out
}

/// The text without the characters `mark` at its end.
pub fn trim_trailing(s: &str, mark: char) -> (r: String)
    ensures
        r@ == untrailed(s@, mark),
{
    let chars = characters(s);
    let mut to: usize = chars.len();
    assert(chars@.take(to as int) =~= chars@);
    while to > 0 && chars[to - 1] == mark
        invariant
            to <= chars@.len(),
            untrailed(chars@.take(to as int), mark) == untrailed(chars@, mark),
        decreases to,
    {
        proof {
            assert(chars@.take(to as int).drop_last() =~= chars@.take(to - 1));
        }
        to -= 1;
    }
    assert(chars@.subrange(0, to as int) =~= chars@.take(to as int));
    piece(&chars, 0, to)
}

/// The text without the characters `mark` at its start.
pub fn trim_leading(s: &str, mark: char) -> (r: String)
    ensures
        r@ == unled(s@, mark),
{
    let chars = characters(s);
    let mut from: usize = 0;
    assert(chars@.skip(0) =~= chars@);
    while from < chars.len() && chars[from] == mark
        invariant
            from <= chars@.len(),
            unled(chars@.skip(from as int), mark) == unled(chars@, mark),
        decreases chars@.len() - from,
    {
        proof {
            assert(chars@.skip(from as int).drop_first() =~= chars@.skip(from + 1));
        }
        from += 1;
    }
    assert(chars@.subrange(from as int, chars@.len() as int) =~= chars@.skip(from as int));
    piece(&chars, from, chars.len())
}

/// The digit character of a number below ten.
fn digit_char(n: u64) -> (r: char)
    requires
        n < 10,
    ensures
        r == digit(n as nat),
{
    (48 + n as u8) as char
}

/// The decimal text of a number.
pub fn decimal_text(n: u64) -> (r: String)
    ensures
        r@ == decimal(n as nat),
    decreases n,
{
    if n < 10 {
        let mut out = String::new();
        out.push(digit_char(n));
        assert(out@ =~= seq![digit(n as nat)]);
        out
    } else {
        let mut out = decimal_text(n / 10);
        out.push(digit_char(n % 10));
        out
    }
}

/// The decimal text of an integer.
pub fn decimal_int_text(n: i64) -> (r: String)
    ensures
        r@ == decimal_int(n as int),
{
    if n >= 0 {
        decimal_text(n as u64)
    } else {
        let size: u64 = (-(n as i128)) as u64;
        let digits = decimal_text(size);
        let mut out = String::new();
        out.push('-');
        out.append(digits.as_str());
        assert(out@ =~= seq!['-'] + decimal((-n) as nat));
        out
    }
}

/// The number that a text stands for, where it is a decimal number of at most
/// `limit`.
pub fn parse_number(s: &str, limit: u64) -> (r: Option<u64>)
    ensures
        r is Some <==> parsed(s@, limit as nat) is Some,
        r is Some ==> parsed(s@, limit as nat) == Some(r->0 as nat),
{
    let chars = characters(s);
    let start: usize = if chars.len() > 0 && chars[0] == '+' {
        1
    } else {
        0
    };
    let ghost digits = if s@.len() > 0 && s@[0] == '+' {
        s@.drop_first()
    } else {
        s@
    };
    assert(digits =~= chars@.skip(start as int));
    if start == chars.len() {
        return None;
    }
    let mut value: u64 = 0;
    let mut i: usize = start;
    while i < chars.len()
        invariant
            start <= i <= chars@.len(),
            digits == chars@.skip(start as int),
            digits == (if s@.len() > 0 && s@[0] == '+' {
                s@.drop_first()
            } else {
                s@
            }),
            value <= limit,
            value == number(digits.take(i - start)),
            forall|k: int| 0 <= k < i - start ==> is_digit(digits[k]),
        decreases chars@.len() - i,
    {
        let c = chars[i];
        let ghost k = i - start;
        assert(digits[k] == c);
        if c < '0' || '9' < c {
            assert(!is_digit(digits[k]));
            return None;
        }
        let d: u64 = (c as u32 - 48) as u64;
        proof {
            assert(digits.take(k + 1).drop_last() =~= digits.take(k));
            assert(number(digits.take(k + 1)) == 10 * value + d);
        }
        if value > limit / 10 || d > limit - 10 * value {
            proof {
                if is_number(digits) {
                    lemma_number_grows(digits, k + 1);
                }
            }
            return None;
        }
        value = 10 * value + d;
        i += 1;
    }
    assert(digits.take(i - start) =~= digits);
    Some(value)
}

proof fn lemma_number_grows(s: Seq<char>, k: int)
    requires
        is_number(s),
        0 <= k <= s.len(),
    ensures
        number(s.take(k)) <= number(s),
    decreases s.len() - k,
{
    if k == s.len() {
        assert(s.take(k) =~= s);
    } else {
        lemma_number_grows(s, k + 1);
        assert(s.take(k + 1).drop_last() =~= s.take(k));
        assert(is_digit(s[k]));
    }
}

/// Whether `a` stands before `b` in the order of their characters, or is `b`.
pub fn ordered(a: &str, b: &str) -> (r: bool)
    ensures
        r == in_order(a@, b@),
{
    let x = characters(a);
    let y = characters(b);
    let mut i: usize = 0;
    assert(x@.skip(0) =~= a@ && y@.skip(0) =~= b@);
    while i < x.len() && i < y.len()
        invariant
            i <= x@.len(),
            i <= y@.len(),
            in_order(x@.skip(i as int), y@.skip(i as int)) == in_order(a@, b@),
        decreases x@.len() - i,
    {
        if x[i] != y[i] {
            return x[i] < y[i];
        }
        assert(x@.skip(i as int).drop_first() =~= x@.skip(i + 1));
        assert(y@.skip(i as int).drop_first() =~= y@.skip(i + 1));
        i += 1;
    }
    i == x.len()
}

/// The order of texts is total.
pub proof fn lemma_in_order_total(a: Seq<char>, b: Seq<char>)
    ensures
        in_order(a, b) || in_order(b, a),
    decreases a.len(),
{
    if a.len() > 0 && b.len() > 0 && a[0] == b[0] {
        lemma_in_order_total(a.drop_first(), b.drop_first());
    }
}

/// The order of texts is transitive.
pub proof fn lemma_in_order_transitive(a: Seq<char>, b: Seq<char>, c: Seq<char>)
    requires
        in_order(a, b),
        in_order(b, c),
    ensures
        in_order(a, c),
    decreases a.len(),
{
    if a.len() > 0 && b.len() > 0 && c.len() > 0 && a[0] == b[0] && b[0] == c[0] {
        lemma_in_order_transitive(a.drop_first(), b.drop_first(), c.drop_first());
    }
}

/// The order of texts is antisymmetric.
pub proof fn lemma_in_order_antisymmetric(a: Seq<char>, b: Seq<char>)
    requires
        in_order(a, b),
        in_order(b, a),
    ensures
        a == b,
    decreases a.len(),
{
    if a.len() > 0 && b.len() > 0 {
        lemma_in_order_antisymmetric(a.drop_first(), b.drop_first());
        assert(a =~= seq![a[0]] + a.drop_first());
        assert(b =~= seq![b[0]] + b.drop_first());
    } else {
        assert(a =~= b);
    }
}

/// What two pieces joined by a mark give back when they are cut at it.
pub proof fn lemma_until_joined(a: Seq<char>, mark: char, rest: Seq<char>)
    requires
        !a.contains(mark),
    ensures
        until(a + seq![mark] + rest, mark) == a.len(),
{
    let all = a + seq![mark] + rest;
    assert forall|i: int| 0 <= i < a.len() implies all[i] != mark by {
        assert(all[i] == a[i]);
        assert(a.contains(a[i]));
    }
    assert(all[a.len() as int] == mark);
    lemma_until(all, mark, a.len());
}

/// Joining pieces that hold no mark and cutting the text at the marks gives the
/// pieces back, as long as there is at least one.
pub proof fn law_split_undoes_join(items: Seq<Seq<char>>, mark: char)
    requires
        items.len() > 0,
        forall|i: int| 0 <= i < items.len() ==> !(#[trigger] items[i]).contains(mark),
    ensures
        split_on(joined(items, seq![mark]), mark) == items,
    decreases items.len(),
{
    let first = items[0];
    if items.len() == 1 {
        assert forall|i: int| 0 <= i < first.len() implies first[i] != mark by {
            assert(first.contains(first[i]));
        }
        lemma_until(first, mark, first.len());
        assert(seq![first] =~= items);
    } else {
        let rest = items.drop_first();
        law_split_undoes_join(rest, mark);
        let tail = joined(rest, seq![mark]);
        let all = first + seq![mark] + tail;
        lemma_until_joined(first, mark, tail);
        assert(all.take(first.len() as int) =~= first);
        assert(all.skip(first.len() as int + 1) =~= tail);
        assert(seq![first] + rest =~= items);
    }
}

} // verus!
