//! What holds of texts: prefixes and parts, letters and numbers, their order, lines and
//! words, and what is shown of values.

use crate::json::{cell_in, field_of, kind_of, text_under, text_within, written_as, Cell, Kind};
use crate::keyed::text_before;
use crate::text::{
    after_prefix, begins_with, decimal, digits_value, ends_with, first_of, lower, lowered,
    parsed_u64, split_at_first,
};
use crate::words::{
    line_split, lines, trimmed, trimmed_end, trimmed_start, unbroken, white_space, word_split, words,
};
use vstd::prelude::*;

verus! {

// ---------------------------------------------------------------------------
// Parts of a text.

/// A text begins with a prefix exactly where it is that prefix and something behind it,
/// and what is behind it is what is left.
pub proof fn lemma_prefix_and_rest(s: Seq<char>, prefix: Seq<char>, rest: Seq<char>)
    ensures
        begins_with(prefix + rest, prefix),
        after_prefix(prefix + rest, prefix) == Some(rest),
        begins_with(s, prefix) ==> s == prefix + s.skip(prefix.len() as int),
        after_prefix(s, prefix) is Some <==> begins_with(s, prefix),
        after_prefix(s, prefix) matches Some(left) ==> s == prefix + left,
{
    assert((prefix + rest).take(prefix.len() as int) =~= prefix);
    assert((prefix + rest).skip(prefix.len() as int) =~= rest);
    if begins_with(s, prefix) {
        assert(s =~= s.take(prefix.len() as int) + s.skip(prefix.len() as int));
    }
}

/// A text ends with a suffix exactly where it is something and that suffix.
pub proof fn lemma_rest_and_suffix(s: Seq<char>, front: Seq<char>, suffix: Seq<char>)
    ensures
        ends_with(front + suffix, suffix),
        ends_with(s, suffix) ==> s == s.take(s.len() - suffix.len()) + suffix,
{
    assert((front + suffix).skip(front.len() as int) =~= suffix);
    if ends_with(s, suffix) {
        assert(s =~= s.take(s.len() - suffix.len()) + s.skip(s.len() - suffix.len()));
    }
}

proof fn lemma_first_is_found(s: Seq<char>, c: char, i: nat, at: nat)
    requires
        i <= at < s.len(),
        s[at as int] == c,
        forall|k: int| i <= k < at ==> s[k] != c,
    ensures
        first_of(s, c, i) == Some(at),
    decreases at - i,
{
    if i < at {
        lemma_first_is_found(s, c, i + 1, at);
    }
}

proof fn lemma_none_is_found(s: Seq<char>, c: char, i: nat)
    requires
        forall|k: int| i <= k < s.len() ==> s[k] != c,
    ensures
        first_of(s, c, i) is None,
    decreases s.len() - i,
{
    if i < s.len() {
        lemma_none_is_found(s, c, i + 1);
    }
}

/// A text is cut at the first of a character: the part before it does not hold it, the
/// part behind may. A text without it is not cut.
pub proof fn lemma_cut_at_the_first(front: Seq<char>, c: char, back: Seq<char>)
    requires
        !front.contains(c),
    ensures
        split_at_first(front.push(c) + back, c) == Some((front, back)),
        split_at_first(front, c) is None,
{
    let s = front.push(c) + back;
    assert forall|k: int| 0 <= k < front.len() implies s[k] != c && front[k] != c by {
        assert(front.contains(front[k]));
    }
    assert(s[front.len() as int] == c);
    lemma_first_is_found(s, c, 0, front.len());
    assert(s.take(front.len() as int) =~= front);
    assert(s.skip(front.len() as int + 1) =~= back);
    lemma_none_is_found(front, c, 0);
}

// ---------------------------------------------------------------------------
// Letters, numbers, order.

/// A capital Latin letter becomes the small one, every other character stays; a text
/// keeps its length.
pub proof fn lemma_small_letters(s: Seq<char>, i: int)
    requires
        0 <= i < s.len(),
    ensures
        lowered(s).len() == s.len(),
        'A' <= s[i] && s[i] <= 'Z' ==> lowered(s)[i] as u32 == s[i] as u32 + 32,
        !('A' <= s[i] && s[i] <= 'Z') ==> lowered(s)[i] == s[i],
        lower(lower(s[i])) == lower(s[i]),
{
}

/// A number below ten is one digit; another is written as its tens and then its ones.
pub proof fn lemma_numbers_are_written_in_tens(n: nat, d: nat)
    requires
        d < 10,
    ensures
        decimal(d).len() == 1,
        decimal(d)[0] as u32 == 48 + d,
        n > 0 ==> decimal(10 * n + d) == decimal(n).push(decimal(d)[0]),
{
    assert((10 * n + d) / 10 == n && (10 * n + d) % 10 == d);
}

/// A digit behind a number makes it ten times as large, and adds the digit.
pub proof fn lemma_numbers_are_read_in_tens(s: Seq<char>, c: char)
    requires
        '0' <= c && c <= '9',
    ensures
        digits_value(Seq::<char>::empty()) == 0,
        digits_value(s.push(c)) == 10 * digits_value(s) + (c as u32 - 48),
{
    assert(s.push(c).drop_last() =~= s);
}

/// A number is read from digits, with a plus sign or without; nothing else is a number.
pub proof fn lemma_what_is_a_number(s: Seq<char>, i: int)
    ensures
        parsed_u64(s) is Some && 0 <= i < s.len() ==> ('0' <= s[i] && s[i] <= '9') || (i == 0
            && s[0] == '+' && s.len() > 1),
        parsed_u64(Seq::<char>::empty()) is None,
        (s.len() > 0 && forall|k: int| 0 <= k < s.len() ==> '0' <= #[trigger] s[k] && s[k] <= '9')
            ==> parsed_u64(s) == (if digits_value(s) <= 18446744073709551615 {
            Some(digits_value(s) as u64)
        } else {
            None
        }),
{
    if s.len() > 0 && s[0] == '+' {
        if 0 < i < s.len() {
            assert(s.skip(1)[i - 1] == s[i]);
        }
    }
}

/// Texts are in the order of their first difference; a beginning of a text comes before
/// it.
pub proof fn lemma_first_difference_orders(
    same: Seq<char>,
    a: char,
    b: char,
    left: Seq<char>,
    right: Seq<char>,
)
    ensures
        a == b || (text_before(same + seq![a] + left, same + seq![b] + right) <==> a < b),
        text_before(same, same + seq![b] + right),
        !text_before(same + seq![a] + left, same),
    decreases same.len(),
{
    let x = same + seq![a] + left;
    let y = same + seq![b] + right;
    if same.len() > 0 {
        let rest = same.skip(1);
        lemma_first_difference_orders(rest, a, b, left, right);
        assert(x.skip(1) =~= rest + seq![a] + left);
        assert(y.skip(1) =~= rest + seq![b] + right);
        assert(x[0] == same[0] && y[0] == same[0]);
    } else {
        assert(x[0] == a && y[0] == b);
    }
}

// ---------------------------------------------------------------------------
// Lines and words.

/// White space is the tabulator and the other controls that move on, the space, and the
/// spaces and separators of Unicode.
pub proof fn lemma_what_is_white_space(c: char)
    ensures
        (c as u32) < 128 ==> (white_space(c) <==> c == '\t' || c == '\n' || c == '\x0b' || c
            == '\x0c' || c == '\r' || c == ' '),
        (c as u32) >= 128 ==> (white_space(c) <==> c == '\u{85}' || c == '\u{a0}' || c == '\u{1680}'
            || ('\u{2000}' <= c && c <= '\u{200a}') || c == '\u{2028}' || c == '\u{2029}' || c
            == '\u{202f}' || c == '\u{205f}' || c == '\u{3000}'),
{
}

proof fn lemma_word_goes_on(s: Seq<char>)
    requires
        unbroken(s),
    ensures
        word_split(s) == (Seq::<Seq<char>>::empty(), s),
    decreases s.len(),
{
    if s.len() > 0 {
        let front = s.drop_last();
        assert forall|k: int| 0 <= k < front.len() implies !white_space(#[trigger] front[k]) by {
            assert(front[k] == s[k]);
        }
        lemma_word_goes_on(front);
        assert(!white_space(s[s.len() - 1]));
        assert(front.push(s.last()) =~= s);
    } else {
        assert(s =~= Seq::<char>::empty());
    }
}

proof fn lemma_words_behind_a_break(a: Seq<char>, space: char, b: Seq<char>)
    requires
        white_space(space),
    ensures
        word_split(a.push(space) + b) == (words(a) + word_split(b).0, word_split(b).1),
    decreases b.len(),
{
    let s = a.push(space) + b;
    if b.len() == 0 {
        assert(s =~= a.push(space));
        assert(s.drop_last() =~= a);
        assert(words(a) + Seq::<Seq<char>>::empty() =~= words(a));
    } else {
        lemma_words_behind_a_break(a, space, b.drop_last());
        assert(s.drop_last() =~= a.push(space) + b.drop_last());
        let (done, current) = word_split(b.drop_last());
        assert((words(a) + done).push(current) =~= words(a) + done.push(current));
    }
}

/// A text is the words before a white space and the words behind it; a text without
/// white space is one word, and an empty one is none.
pub proof fn lemma_white_space_parts_words(a: Seq<char>, space: char, b: Seq<char>)
    requires
        white_space(space),
    ensures
        words(a.push(space) + b) == words(a) + words(b),
        words(Seq::<char>::empty()).len() == 0,
        unbroken(a) && a.len() > 0 ==> words(a) == seq![a],
{
    lemma_words_behind_a_break(a, space, b);
    let (done, current) = word_split(b);
    assert((words(a) + done).push(current) =~= words(a) + done.push(current));
    if unbroken(a) && a.len() > 0 {
        lemma_word_goes_on(a);
        assert(Seq::<Seq<char>>::empty().push(a) =~= seq![a]);
    }
}

proof fn lemma_line_goes_on(s: Seq<char>)
    requires
        !s.contains('\n'),
    ensures
        line_split(s) == (Seq::<Seq<char>>::empty(), s),
    decreases s.len(),
{
    if s.len() > 0 {
        let front = s.drop_last();
        assert forall|k: int| 0 <= k < front.len() implies front[k] != '\n' by {
            assert(s.contains(s[k]));
        }
        assert(!front.contains('\n'));
        lemma_line_goes_on(front);
        assert(s.contains(s.last()));
        assert(front.push(s.last()) =~= s);
    } else {
        assert(s =~= Seq::<char>::empty());
    }
}

proof fn lemma_lines_behind_a_break(a: Seq<char>, b: Seq<char>)
    ensures
        line_split(a.push('\n') + b) == (line_split(a.push('\n')).0 + line_split(b).0, line_split(
            b,
        ).1),
    decreases b.len(),
{
    let s = a.push('\n') + b;
    if b.len() == 0 {
        assert(s =~= a.push('\n'));
        assert(line_split(s).0 + Seq::<Seq<char>>::empty() =~= line_split(s).0);
    } else {
        lemma_lines_behind_a_break(a, b.drop_last());
        assert(s.drop_last() =~= a.push('\n') + b.drop_last());
        let before = line_split(a.push('\n')).0;
        let (done, current) = line_split(b.drop_last());
        let ended = crate::words::without_return(current);
        assert((before + done).push(ended) =~= before + done.push(ended));
    }
}

/// A line feed ends a line: the first line is what stands before the first line feed,
/// without a carriage return at its end, and the others are the lines behind it. A
/// last line need not end, and then keeps all its characters.
pub proof fn lemma_line_feed_parts_lines(line: Seq<char>, rest: Seq<char>)
    requires
        !line.contains('\n'),
    ensures
        line.len() == 0 || line.last() != '\r' ==> lines(line.push('\n') + rest) == seq![line]
            + lines(rest),
        line.len() > 0 && line.last() == '\r' ==> lines(line.push('\n') + rest)
            == seq![line.drop_last()] + lines(rest),
        line.len() > 0 ==> lines(line) == seq![line],
        lines(Seq::<char>::empty()).len() == 0,
{
    lemma_line_goes_on(line);
    lemma_lines_behind_a_break(line, rest);
    assert(line.push('\n').drop_last() =~= line);
    let ended = crate::words::without_return(line);
    let first = line_split(line.push('\n')).0;
    assert(first =~= seq![ended]);
    let (done, current) = line_split(rest);
    assert((first + done).push(current) =~= first + done.push(current));
    assert(Seq::<Seq<char>>::empty().push(line) =~= seq![line]);
}

/// A text is trimmed at both ends and nowhere else: what is left stands in it, only
/// white space stands around it, and its ends are no white space.
pub proof fn lemma_only_the_ends_are_trimmed(s: Seq<char>) -> (ends: (int, int))
    ensures
        0 <= ends.0 <= ends.1 <= s.len(),
        trimmed(s) == s.subrange(ends.0, ends.1),
        forall|k: int| 0 <= k < ends.0 ==> white_space(#[trigger] s[k]),
        forall|k: int| ends.1 <= k < s.len() ==> white_space(#[trigger] s[k]),
        trimmed(s).len() > 0 ==> !white_space(trimmed(s)[0]) && !white_space(trimmed(s).last()),
{
    let from = lemma_front_is_trimmed(s);
    let rest = s.skip(from);
    let to = lemma_back_is_trimmed(rest);
    assert(rest.take(to) =~= s.subrange(from, from + to));
    assert forall|k: int| from + to <= k < s.len() implies white_space(#[trigger] s[k]) by {
        assert(rest[k - from] == s[k]);
    }
    if to > 0 {
        assert(rest.take(to)[0] == rest[0]);
        assert(rest[0] == s[from]);
    }
    (from, from + to)
}

proof fn lemma_front_is_trimmed(s: Seq<char>) -> (from: int)
    ensures
        0 <= from <= s.len(),
        trimmed_start(s) == s.skip(from),
        forall|k: int| 0 <= k < from ==> white_space(#[trigger] s[k]),
        from < s.len() ==> !white_space(s[from]),
    decreases s.len(),
{
    if s.len() > 0 && white_space(s[0]) {
        let rest = s.skip(1);
        let from = lemma_front_is_trimmed(rest);
        assert(rest.skip(from) =~= s.skip(from + 1));
        assert forall|k: int| 0 <= k < from + 1 implies white_space(#[trigger] s[k]) by {
            if k > 0 {
                assert(rest[k - 1] == s[k]);
            }
        }
        from + 1
    } else {
        assert(s.skip(0) =~= s);
        0
    }
}

proof fn lemma_back_is_trimmed(s: Seq<char>) -> (to: int)
    ensures
        0 <= to <= s.len(),
        trimmed_end(s) == s.take(to),
        forall|k: int| to <= k < s.len() ==> white_space(#[trigger] s[k]),
        to > 0 ==> !white_space(s[to - 1]),
    decreases s.len(),
{
    if s.len() > 0 && white_space(s.last()) {
        let front = s.drop_last();
        let to = lemma_back_is_trimmed(front);
        assert(front.take(to) =~= s.take(to));
        assert forall|k: int| to <= k < s.len() implies white_space(#[trigger] s[k]) by {
            if k < front.len() {
                assert(front[k] == s[k]);
            }
        }
        to
    } else {
        assert(s.take(s.len() as int) =~= s);
        s.len() as int
    }
}

// ---------------------------------------------------------------------------
// Values.

/// A value is shown by what it is: nothing, a text or a truth value as such, everything
/// else as it is written.
pub proof fn lemma_value_is_shown_by_what_it_is(value: serde_json::Value)
    ensures
        kind_of(value) is Nothing <==> cell_in(value) is Nothing,
        kind_of(value) matches Kind::Text(text) ==> cell_in(value) == Cell::Text(text),
        kind_of(value) matches Kind::Truth(truth) ==> cell_in(value) == Cell::Truth(truth),
        kind_of(value) is Other ==> cell_in(value) == Cell::Written(written_as(value)),
{
}

/// A text is found under a name only where there is a field of that name and it is a
/// text; inside a field, only in the field of the outer name.
pub proof fn lemma_text_is_found_under_its_name(
    value: serde_json::Value,
    outer: Seq<char>,
    name: Seq<char>,
    text: Seq<char>,
)
    ensures
        text_under(value, name) == Some(text) <==> (field_of(value, name) matches Some(found)
            && kind_of(found) == Kind::Text(text)),
        text_within(value, outer, name) == Some(text) <==> (field_of(value, outer) matches Some(
            within,
        ) && (field_of(within, name) matches Some(found) && kind_of(found) == Kind::Text(text))),
{
}

} // verus!
