//! What cutting, trimming, joining and writing texts does, in terms of the texts.

use crate::gateway_manager::{backup_file, config_news, hex_digit, hex_digits};
use crate::json::JsonTree;
use crate::stamp::Instant;
use crate::text::{
    decimal, decimal_int, first_chars, in_order, is_digit, is_number, is_white, joined,
    leading_white, leading_word, lemma_leading_word, lemma_until, lemma_until_joined, lines, number,
    parsed, replaced, split_on, trimmed, trimmed_end, trimmed_start, unled, until, untrailed,
    without_return, words,
};
use crate::trace_db::{
    AttributeValueView, AttributeView, hex_of, nanos_before, service_name, trace_conditions,
    where_clause,
};
use vstd::prelude::*;

verus! {

// Numbers.

/// The decimal text of a number reads back as the number. It is made of digits, the
/// first of which is zero for the number zero alone.
pub proof fn law_decimals_read_back(n: nat, limit: nat)
    ensures
        is_number(decimal(n)),
        number(decimal(n)) == n,
        decimal(n)[0] == '0' <==> n == 0,
        n <= limit ==> parsed(decimal(n), limit) == Some(n),
        n > limit ==> parsed(decimal(n), limit) is None,
        n < 10 ==> decimal(n).len() == 1,
        n >= 10 ==> decimal(n).len() == decimal(n / 10).len() + 1,
    decreases n,
{
    if n < 10 {
        assert(decimal(n).drop_last() =~= Seq::<char>::empty());
        assert(number(decimal(n).drop_last()) == 0);
        assert(decimal(n)[0] as nat == 48 + n);
    } else {
        law_decimals_read_back(n / 10, limit);
        assert(decimal(n).drop_last() =~= decimal(n / 10));
        assert(decimal(n).last() as nat == 48 + n % 10);
        assert(decimal(n)[0] == decimal(n / 10)[0]);
        assert forall|i: int| 0 <= i < decimal(n).len() implies is_digit(
            #[trigger] decimal(n)[i],
        ) by {
            if i < decimal(n / 10).len() {
                assert(decimal(n)[i] == decimal(n / 10)[i]);
            }
        }
    }
    assert(decimal(n)[0] != '+') by {
        assert(is_digit(decimal(n)[0]));
    }
}

/// Two numbers with the same decimal text are the same, and the text of an integer has
/// a minus sign where the integer is negative and nowhere else.
pub proof fn law_decimals_are_distinct(a: int, b: int)
    ensures
        decimal_int(a) == decimal_int(b) ==> a == b,
        decimal_int(a)[0] == '-' <==> a < 0,
        a >= 0 ==> number(decimal_int(a)) == a,
        a < 0 ==> number(decimal_int(a).drop_first()) == -a,
{
    let x: nat = if a < 0 {
        (-a) as nat
    } else {
        a as nat
    };
    let y: nat = if b < 0 {
        (-b) as nat
    } else {
        b as nat
    };
    law_decimals_read_back(x, x);
    law_decimals_read_back(y, y);
    assert(is_digit(decimal(x)[0]));
    assert(is_digit(decimal(y)[0]));
    if a < 0 {
        assert(decimal_int(a).drop_first() =~= decimal(x));
        assert(decimal_int(a)[0] == '-');
    }
    if b < 0 {
        assert(decimal_int(b).drop_first() =~= decimal(y));
        assert(decimal_int(b)[0] == '-');
    }
}

/// A number may have a plus sign before it; a text with anything else is no number.
pub proof fn law_signs_are_passed_over(s: Seq<char>, limit: nat)
    ensures
        s.len() > 0 && s[0] != '+' ==> parsed(seq!['+'] + s, limit) == parsed(s, limit),
        parsed(s, limit) matches Some(n) ==> n <= limit,
        (exists|i: int| 1 <= i < s.len() && !is_digit(#[trigger] s[i])) ==> parsed(s, limit)
            is None,
        s.len() == 0 ==> parsed(s, limit) is None,
{
    let signed = seq!['+'] + s;
    assert(signed.drop_first() =~= s);
    if exists|i: int| 1 <= i < s.len() && !is_digit(#[trigger] s[i]) {
        let i = choose|i: int| 1 <= i < s.len() && !is_digit(#[trigger] s[i]);
        assert(s.drop_first()[i - 1] == s[i]);
    }
}

/// The value of a hexadecimal digit.
pub open spec fn hex_value(c: char) -> nat {
    if 'a' <= c <= 'f' {
        (c as nat - 'a' as nat + 10) as nat
    } else {
        (c as nat - '0' as nat) as nat
    }
}

/// The value of hexadecimal digits.
pub open spec fn hex_number(s: Seq<char>) -> nat
    decreases s.len(),
{
    if s.len() == 0 {
        0
    } else {
        16 * hex_number(s.drop_last()) + hex_value(s.last())
    }
}

/// A number of a size.
pub open spec fn hex_limit(count: nat) -> nat
    decreases count,
{
    if count == 0 {
        1
    } else {
        16 * hex_limit((count - 1) as nat)
    }
}

/// A number that has no more than some hexadecimal digits reads back from them.
pub proof fn law_hex_digits_read_back(n: nat, count: nat)
    requires
        n < hex_limit(count),
    ensures
        hex_digits(n, count).len() == count,
        hex_number(hex_digits(n, count)) == n,
    decreases count,
{
    if count > 0 {
        law_hex_digits_read_back(n / 16, (count - 1) as nat);
        assert(hex_digits(n, count).drop_last() =~= hex_digits(n / 16, (count - 1) as nat));
        assert(hex_value(hex_digit(n % 16)) == n % 16);
    }
}

/// The hexadecimal text of bytes has two digits for each byte, in the order of the bytes.
pub proof fn law_bytes_read_back(bytes: Seq<u8>, i: int)
    ensures
        hex_of(bytes).len() == 2 * bytes.len(),
        0 <= i < bytes.len() ==> hex_number(hex_of(bytes).subrange(2 * i, 2 * i + 2)) == bytes[i],
    decreases bytes.len(),
{
    if bytes.len() > 0 {
        let rest = bytes.drop_last();
        let last = hex_digits(bytes.last() as nat, 2);
        law_bytes_read_back(rest, i);
        reveal_with_fuel(hex_limit, 3);
        law_hex_digits_read_back(bytes.last() as nat, 2);
        if 0 <= i < rest.len() {
            assert(hex_of(bytes).subrange(2 * i, 2 * i + 2) =~= hex_of(rest).subrange(
                2 * i,
                2 * i + 2,
            ));
        } else if i == rest.len() {
            assert(hex_of(bytes).subrange(2 * i, 2 * i + 2) =~= last);
        }
    }
}

// Words, lines and pieces.

/// White space is what Unicode takes for it.
pub proof fn law_white_space(c: char)
    ensures
        is_white(c) <==> {
            let n = c as u32;
            9 <= n <= 13 || n == 32 || n == 133 || n == 160 || n == 5760 || 8192 <= n <= 8202 || n
                == 8232 || n == 8233 || n == 8239 || n == 8287 || n == 12288
        },
{
}

/// A text without white space is one word, and white space cuts a text into the words
/// before it and the words after it.
pub proof fn law_words_are_cut_at_white_space(a: Seq<char>, c: char, b: Seq<char>)
    requires
        is_white(c),
    ensures
        words(a.push(c) + b) == words(a) + words(b),
    decreases a.len(),
{
    let s = a.push(c) + b;
    if a.len() == 0 {
        assert(s[0] == c);
        assert(s.drop_first() =~= b);
        assert(words(a) + words(b) =~= words(b));
    } else if is_white(a[0]) {
        assert(s[0] == a[0]);
        assert(s.drop_first() =~= a.drop_first().push(c) + b);
        law_words_are_cut_at_white_space(a.drop_first(), c, b);
    } else {
        lemma_first_word(a);
        let n = leading_word(a);
        assert forall|i: int| 0 <= i < n implies !is_white(s[i]) by {
            assert(s[i] == a[i]);
        }
        if n < a.len() {
            assert(s[n as int] == a[n as int]);
        } else {
            assert(s[n as int] == c);
        }
        lemma_leading_word(s, n);
        assert(s[0] == a[0]);
        assert(s.take(n as int) =~= a.take(n as int));
        assert(s.skip(n as int) =~= a.skip(n as int).push(c) + b);
        law_words_are_cut_at_white_space(a.skip(n as int), c, b);
        assert(words(s) =~= words(a) + words(b));
    }
}

proof fn lemma_first_word(s: Seq<char>)
    requires
        s.len() > 0,
        !is_white(s[0]),
    ensures
        1 <= leading_word(s) <= s.len(),
        forall|i: int| 0 <= i < leading_word(s) ==> !is_white(#[trigger] s[i]),
        leading_word(s) < s.len() ==> is_white(s[leading_word(s) as int]),
    decreases s.len(),
{
    let rest = s.drop_first();
    if rest.len() > 0 && !is_white(rest[0]) {
        lemma_first_word(rest);
        let n = leading_word(s);
        assert(n == 1 + leading_word(rest));
        assert forall|i: int| 0 <= i < n implies !is_white(#[trigger] s[i]) by {
            if i > 0 {
                assert(s[i] == rest[i - 1]);
            }
        }
        if n < s.len() {
            assert(s[n as int] == rest[n - 1]);
        }
    } else {
        assert(leading_word(rest) == 0);
        if rest.len() > 0 {
            assert(s[1] == rest[0]);
        }
    }
}

/// A text without white space is one word, and the empty text has no words.
pub proof fn law_a_word_is_one_word(s: Seq<char>)
    requires
        forall|i: int| 0 <= i < s.len() ==> !is_white(#[trigger] s[i]),
    ensures
        s.len() > 0 ==> words(s) == seq![s],
        s.len() == 0 ==> words(s).len() == 0,
{
    if s.len() > 0 {
        assert(!is_white(s[0]));
        lemma_leading_word(s, s.len());
        assert(s.take(s.len() as int) =~= s);
        assert(s.skip(s.len() as int) =~= Seq::<char>::empty());
        assert(words(s.skip(s.len() as int)) =~= Seq::<Seq<char>>::empty());
        assert(words(s) =~= seq![s]);
    }
}

/// No word is empty, and none holds white space.
pub proof fn law_words_are_whole(s: Seq<char>, i: int)
    requires
        0 <= i < words(s).len(),
    ensures
        words(s)[i].len() > 0,
        forall|k: int| 0 <= k < words(s)[i].len() ==> !is_white(#[trigger] words(s)[i][k]),
    decreases s.len(),
{
    if is_white(s[0]) {
        law_words_are_whole(s.drop_first(), i);
    } else {
        lemma_first_word(s);
        let n = leading_word(s) as int;
        assert(words(s) == seq![s.take(n)] + words(s.skip(n)));
        if i == 0 {
            assert(words(s)[0] == s.take(n));
        } else {
            assert(words(s)[i] == words(s.skip(n))[i - 1]);
            law_words_are_whole(s.skip(n), i - 1);
        }
    }
}

/// What is trimmed off a text is the white space at its two ends, and all of it.
pub proof fn law_trimming_takes_white_space(s: Seq<char>)
    ensures
        ({
            let t = trimmed(s);
            &&& exists|a: Seq<char>, b: Seq<char>|
                {
                    &&& #[trigger] (a + t + b) == s
                    &&& forall|i: int| 0 <= i < a.len() ==> is_white(#[trigger] a[i])
                    &&& forall|i: int| 0 <= i < b.len() ==> is_white(#[trigger] b[i])
                }
            &&& t.len() > 0 ==> !is_white(t[0]) && !is_white(t.last())
        }),
{
    lemma_leading_white_is(s);
    let n = leading_white(s) as int;
    let m = trimmed_start(s);
    lemma_trimmed_end_is(m);
    let t = trimmed(s);
    let a = s.take(n);
    let b = m.skip(t.len() as int);
    assert(m =~= t + b);
    assert(a + t + b =~= s);
    if t.len() > 0 {
        assert(t[0] == m[0]);
        assert(m[0] == s[n]);
    }
}

proof fn lemma_leading_white_is(s: Seq<char>)
    ensures
        leading_white(s) <= s.len(),
        forall|i: int| 0 <= i < leading_white(s) ==> is_white(#[trigger] s[i]),
        leading_white(s) < s.len() ==> !is_white(s[leading_white(s) as int]),
    decreases s.len(),
{
    if s.len() > 0 && is_white(s[0]) {
        let rest = s.drop_first();
        lemma_leading_white_is(rest);
        let n = leading_white(s);
        assert forall|i: int| 0 <= i < n implies is_white(#[trigger] s[i]) by {
            if i > 0 {
                assert(s[i] == rest[i - 1]);
            }
        }
        if n < s.len() {
            assert(s[n as int] == rest[n - 1]);
        }
    }
}

proof fn lemma_trimmed_end_is(s: Seq<char>)
    ensures
        trimmed_end(s).is_prefix_of(s),
        forall|i: int|
            0 <= i < s.skip(trimmed_end(s).len() as int).len() ==> is_white(
                #[trigger] s.skip(trimmed_end(s).len() as int)[i],
            ),
        trimmed_end(s).len() > 0 ==> !is_white(trimmed_end(s).last()),
    decreases s.len(),
{
    if s.len() > 0 && is_white(s.last()) {
        let rest = s.drop_last();
        lemma_trimmed_end_is(rest);
        let n = trimmed_end(s).len() as int;
        assert forall|i: int| 0 <= i < s.skip(n).len() implies is_white(
            #[trigger] s.skip(n)[i],
        ) by {
            if n + i < rest.len() {
                assert(s.skip(n)[i] == rest.skip(n)[i]);
            } else {
                assert(s.skip(n)[i] == s.last());
            }
        }
    }
}

/// Marks are taken off one end of a text only, and all that are there.
pub proof fn law_marks_are_taken_off(s: Seq<char>, mark: char)
    ensures
        unled(seq![mark] + s, mark) == unled(s, mark),
        s.len() > 0 && s[0] != mark ==> unled(s, mark) == s,
        untrailed(s.push(mark), mark) == untrailed(s, mark),
        s.len() > 0 && s.last() != mark ==> untrailed(s, mark) == s,
        s.len() == 0 ==> unled(s, mark).len() == 0 && untrailed(s, mark).len() == 0,
{
    assert((seq![mark] + s).drop_first() =~= s);
    assert(s.push(mark).drop_last() =~= s);
}

/// Cutting a text at the marks and joining the pieces gives the text back, and no piece
/// holds a mark.
pub proof fn law_join_undoes_split(s: Seq<char>, mark: char)
    ensures
        joined(split_on(s, mark), seq![mark]) == s,
        split_on(s, mark).len() > 0,
        forall|i: int| 0 <= i < split_on(s, mark).len()
            ==> !(#[trigger] split_on(s, mark)[i]).contains(
            mark,
        ),
    decreases s.len(),
{
    lemma_until_is(s, mark);
    let n = until(s, mark) as int;
    if n >= s.len() {
        assert(split_on(s, mark) =~= seq![s]);
        assert(!s.contains(mark)) by {
            if s.contains(mark) {
                let k = choose|k: int| 0 <= k < s.len() && s[k] == mark;
                assert(s[k] == mark);
            }
        }
    } else {
        let first = s.take(n);
        let rest = s.skip(n + 1);
        let pieces = split_on(s, mark);
        law_join_undoes_split(rest, mark);
        assert(pieces == seq![first] + split_on(rest, mark));
        assert(pieces.drop_first() =~= split_on(rest, mark));
        assert(pieces[0] == first);
        assert(first + seq![mark] + rest =~= s);
        assert(!first.contains(mark)) by {
            if first.contains(mark) {
                let k = choose|k: int| 0 <= k < first.len() && first[k] == mark;
                assert(s[k] == mark);
            }
        }
        assert forall|i: int| 0 <= i < pieces.len() implies !(#[trigger] pieces[i]).contains(
            mark,
        ) by {
            if i > 0 {
                assert(pieces[i] == split_on(rest, mark)[i - 1]);
            }
        }
    }
}

proof fn lemma_until_is(s: Seq<char>, stop: char)
    ensures
        until(s, stop) <= s.len(),
        forall|i: int| 0 <= i < until(s, stop) ==> #[trigger] s[i] != stop,
        until(s, stop) < s.len() ==> s[until(s, stop) as int] == stop,
    decreases s.len(),
{
    if s.len() > 0 && s[0] != stop {
        let rest = s.drop_first();
        lemma_until_is(rest, stop);
        let n = until(s, stop);
        assert forall|i: int| 0 <= i < n implies #[trigger] s[i] != stop by {
            if i > 0 {
                assert(s[i] == rest[i - 1]);
            }
        }
        if n < s.len() {
            assert(s[n as int] == rest[n - 1]);
        }
    }
}

/// A line ends at the first line feed, with or without a carriage return before it; the
/// lines after it are those of the rest. A last line needs no line feed.
pub proof fn law_lines_end_at_line_feeds(a: Seq<char>, rest: Seq<char>)
    requires
        !a.contains('\n'),
    ensures
        a.len() > 0 ==> lines(a) == seq![a],
        a.len() == 0 ==> lines(a).len() == 0,
        a.len() == 0 || a.last() != '\r' ==> lines(a + seq!['\n'] + rest) == seq![a] + lines(rest),
        lines(a + seq!['\r', '\n'] + rest) == seq![a] + lines(rest),
{
    assert forall|i: int| 0 <= i < a.len() implies a[i] != '\n' by {
        assert(a.contains(a[i]));
    }
    lemma_until(a, '\n', a.len());
    lemma_until_joined(a, '\n', rest);
    let s = a + seq!['\n'] + rest;
    assert(s.take(a.len() as int) =~= a);
    assert(s.skip(a.len() as int + 1) =~= rest);
    let b = a.push('\r');
    assert(!b.contains('\n')) by {
        if b.contains('\n') {
            let k = choose|k: int| 0 <= k < b.len() && b[k] == '\n';
            assert(a[k] == '\n');
        }
    }
    lemma_until_joined(b, '\n', rest);
    let t = a + seq!['\r', '\n'] + rest;
    assert(t =~= b + seq!['\n'] + rest);
    assert(t.take(b.len() as int) =~= b);
    assert(t.skip(b.len() as int + 1) =~= rest);
    assert(without_return(b) =~= a);
}

/// Replacing goes character by character: what is no mark stays, and a text in two parts
/// is replaced in both.
pub proof fn law_replacing_goes_by_characters(a: Seq<char>, b: Seq<char>, mark: char, by: Seq<char>)
    ensures
        replaced(a + b, mark, by) == replaced(a, mark, by) + replaced(b, mark, by),
        replaced(seq![mark], mark, by) == by,
        !a.contains(mark) ==> replaced(a, mark, by) == a,
        !by.contains(mark) ==> !replaced(a, mark, by).contains(mark),
    decreases b.len(), a.len(),
{
    assert(seq![mark].drop_last() =~= Seq::<char>::empty());
    assert(replaced(seq![mark].drop_last(), mark, by) + by =~= by);
    lemma_replaced_alone(a, mark, by);
    if b.len() == 0 {
        assert(a + b =~= a);
        assert(replaced(a, mark, by) + replaced(b, mark, by) =~= replaced(a, mark, by));
    } else {
        law_replacing_goes_by_characters(a, b.drop_last(), mark, by);
        assert((a + b).drop_last() =~= a + b.drop_last());
        assert((a + b).last() == b.last());
        assert(replaced(a + b, mark, by) =~= replaced(a, mark, by) + replaced(b, mark, by));
    }
}

proof fn lemma_replaced_alone(a: Seq<char>, mark: char, by: Seq<char>)
    ensures
        !a.contains(mark) ==> replaced(a, mark, by) == a,
        !by.contains(mark) ==> !replaced(a, mark, by).contains(mark),
    decreases a.len(),
{
    if a.len() > 0 {
        let rest = a.drop_last();
        lemma_replaced_alone(rest, mark, by);
        if !a.contains(mark) {
            assert(!rest.contains(mark)) by {
                if rest.contains(mark) {
                    let k = choose|k: int| 0 <= k < rest.len() && rest[k] == mark;
                    assert(a[k] == mark);
                }
            }
            assert(a.contains(a.last()));
            assert(replaced(a, mark, by) =~= rest.push(a.last()));
            assert(rest.push(a.last()) =~= a);
        }
        if !by.contains(mark) {
            let whole = replaced(a, mark, by);
            let head = replaced(rest, mark, by);
            if whole.contains(mark) {
                let k = choose|k: int| 0 <= k < whole.len() && whole[k] == mark;
                if k < head.len() {
                    assert(head[k] == mark);
                } else if a.last() == mark {
                    assert(by[k - head.len()] == mark);
                } else {
                    assert(seq![a.last()][k - head.len()] == mark);
                }
            }
        }
    }
}

/// Joining puts the mark between neighbours and nowhere else.
pub proof fn law_joining_puts_marks_between(items: Seq<Seq<char>>, item: Seq<char>, mark: Seq<char>)
    ensures
        joined(seq![item], mark) == item,
        items.len() > 0 ==> joined(seq![item] + items, mark) == item + mark + joined(items, mark),
        items.len() == 0 ==> joined(items, mark).len() == 0,
{
    assert((seq![item] + items).drop_first() =~= items);
}

/// The beginning of a text that is kept is the text where that is short enough, and has
/// just as many characters as asked for where it is not.
pub proof fn law_first_characters(s: Seq<char>, count: nat)
    ensures
        first_chars(s, count).is_prefix_of(s),
        s.len() <= count ==> first_chars(s, count) == s,
        s.len() > count ==> first_chars(s, count).len() == count,
{
}

/// A text stands before each text that it is the beginning of, and before each text that
/// has a greater character where they first differ.
pub proof fn law_texts_are_ordered_by_their_first_difference(
    start: Seq<char>,
    a: Seq<char>,
    b: Seq<char>,
)
    ensures
        in_order(start, start + a),
        a.len() > 0 && b.len() > 0 && a[0] < b[0] ==> in_order(start + a, start + b) && !in_order(
            start + b,
            start + a,
        ),
        a.len() > 0 ==> !in_order(start + a, start),
    decreases start.len(),
{
    if start.len() > 0 {
        let rest = start.drop_first();
        law_texts_are_ordered_by_their_first_difference(rest, a, b);
        assert((start + a).drop_first() =~= rest + a);
        assert((start + b).drop_first() =~= rest + b);
    }
}

// Traces and backups.

/// The service of a resource is the one that its first attribute of that name with a
/// value holds, whatever comes after; there is none without such an attribute.
pub proof fn law_the_first_service_name_counts(
    before: Seq<AttributeView>,
    attribute: AttributeView,
    after: Seq<AttributeView>,
)
    requires
        forall|i: int|
            0 <= i < before.len() ==> (#[trigger] before[i]).key != "service.name"@
                || before[i].value is None,
    ensures
        service_name(before).len() == 0,
        attribute.key == "service.name"@ ==> (attribute.value matches Some(
            AttributeValueView::Text(s),
        ) ==> service_name(before.push(attribute) + after) == s),
        attribute.key == "service.name"@ ==> (attribute.value matches Some(
            AttributeValueView::Other(s),
        ) ==> service_name(before.push(attribute) + after) == s),
    decreases before.len(),
{
    reveal_strlit("");
    let all = before.push(attribute) + after;
    if before.len() > 0 {
        let rest = before.drop_first();
        assert forall|i: int| 0 <= i < rest.len() implies (#[trigger] rest[i]).key
            != "service.name"@ || rest[i].value is None by {
            assert(rest[i] == before[i + 1]);
        }
        law_the_first_service_name_counts(rest, attribute, after);
        assert(all.drop_first() =~= rest.push(attribute) + after);
        assert(all[0] == before[0]);
    } else {
        assert(all[0] == attribute);
    }
}

/// Traces are asked for by each of the service, the status and the least duration that
/// is given, and by all of those that are; a duration in milliseconds is one in
/// nanoseconds a million times as great.
pub proof fn law_traces_are_asked_for_by_what_is_given(service: Seq<char>, status: i32, ms: u64)
    requires
        service.len() > 0,
    ensures
        ({
            let a = "service_name = '"@ + replaced(service, '\'', "''"@) + "'"@;
            let b = "status_code = "@ + decimal_int(status as int);
            let c = "duration_ns >= "@ + decimal((1_000_000 * ms) as nat);
            let asked = |x: Option<Seq<char>>, y: Option<i32>, z: Option<u64>|
                where_clause(trace_conditions(x, y, z));
            &&& asked(None, None, None).len() == 0
            &&& asked(Some(""@), None, None).len() == 0
            &&& asked(Some(service), None, None) == "WHERE "@ + a
            &&& asked(None, Some(status), None) == "WHERE "@ + b
            &&& asked(None, None, Some(ms)) == "WHERE "@ + c
            &&& asked(Some(service), Some(status), None) == "WHERE "@ + (a + " AND "@ + b)
            &&& asked(Some(service), None, Some(ms)) == "WHERE "@ + (a + " AND "@ + c)
            &&& asked(None, Some(status), Some(ms)) == "WHERE "@ + (b + " AND "@ + c)
            &&& asked(Some(service), Some(status), Some(ms)) == "WHERE "@ + (a + " AND "@ + (b
                + " AND "@ + c))
        }),
{
    reveal_strlit("");
    let a = "service_name = '"@ + replaced(service, '\'', "''"@) + "'"@;
    let b = "status_code = "@ + decimal_int(status as int);
    let c = "duration_ns >= "@ + decimal((1_000_000 * ms) as nat);
    let none = Seq::<Seq<char>>::empty();
    let mark = " AND "@;
    assert(none.push(a).push(b).drop_first() =~= none.push(b));
    assert(none.push(a).push(c).drop_first() =~= none.push(c));
    assert(none.push(b).push(c).drop_first() =~= none.push(c));
    assert(none.push(a).push(b).push(c).drop_first() =~= none.push(b).push(c));
    assert(joined(none.push(a), mark) == a);
    assert(joined(none.push(b), mark) == b);
    assert(joined(none.push(c), mark) == c);
    assert(joined(none.push(a).push(b), mark) == a + mark + b);
    assert(joined(none.push(a).push(c), mark) == a + mark + c);
    assert(joined(none.push(b).push(c), mark) == b + mark + c);
    assert(joined(none.push(a).push(b).push(c), mark) == a + mark + (b + mark + c));
    assert(trace_conditions(None, None, None) == none);
    assert(trace_conditions(Some(""@), None, None) == none);
    assert(trace_conditions(Some(service), None, None) == none.push(a));
    assert(trace_conditions(None, Some(status), None) == none.push(b));
    assert(trace_conditions(None, None, Some(ms)) == none.push(c));
    assert(trace_conditions(Some(service), Some(status), None) == none.push(a).push(b));
    assert(trace_conditions(Some(service), None, Some(ms)) == none.push(a).push(c));
    assert(trace_conditions(None, Some(status), Some(ms)) == none.push(b).push(c));
    assert(trace_conditions(Some(service), Some(status), Some(ms)) == none.push(a).push(b).push(c));
}

/// The time before which traces are deleted lies the number of days back, to the
/// nanosecond, where it can be written down.
pub proof fn law_traces_are_kept_for_days(now: Instant, days: u32)
    requires
        now.valid(),
    ensures
        0 <= now.secs && now.secs * 1_000_000_000 + now.nanos <= i64::MAX && now.secs
            * 1_000_000_000 + now.nanos - days * 86_400_000_000_000 >= i64::MIN ==> {
            &&& nanos_before(now, 0) == now.secs * 1_000_000_000 + now.nanos
            &&& nanos_before(now, 0) - nanos_before(now, days) == days * 86_400_000_000_000
        },
{
}

/// A backup of the config lies below the backups and is named after its time, and all are
/// told the hash of the config and the number of its providers.
pub proof fn law_backups_are_named_after_their_time(
    dir: Seq<char>,
    stamp: Seq<char>,
    config_hash: Seq<char>,
    providers: usize,
)
    ensures
        backup_file(dir, stamp) == crate::paths::joined_path(
            crate::paths::joined_path(dir, "backups"@),
            "gateway-backup-"@ + stamp + ".json"@,
        ),
        config_news(config_hash, providers).get_text("config_hash"@) == Some(config_hash),
        config_news(config_hash, providers).get("providers"@) == Some(
            JsonTree::UInt(providers as u64),
        ),
{
    reveal_strlit("config_hash");
    reveal_strlit("providers");
    assert("config_hash"@.len() != "providers"@.len());
}

} // verus!
