//! Text as sequences of characters: conversion, comparison, decimal numbers.

use vstd::prelude::*;

verus! {

/// `String::push` appends one character to the end of the string and changes
/// nothing else.
pub assume_specification[ String::push ](s: &mut String, c: char)
    ensures
        final(s)@ == old(s)@.push(c),
;

/// What an optional string holds.
pub open spec fn opt_text(value: Option<String>) -> Option<Seq<char>> {
    match value {
        Some(text) => Some(text@),
        None => None,
    }
}

/// A copy of an optional string.
pub fn copy_opt(text: &Option<String>) -> (copy: Option<String>)
    ensures
        copy == *text,
{
    match text {
        Some(text) => Some(text.clone()),
        None => None,
    }
}

/// What a list of strings holds.
pub open spec fn texts(values: Seq<String>) -> Seq<Seq<char>> {
    Seq::new(values.len(), |i: int| values[i]@)
}

/// The characters of `s`, in order.
pub fn chars_of(s: &str) -> (chars: Vec<char>)
    ensures
        chars@ == s@,
{
    let mut chars: Vec<char> = Vec::new();
    for c in it: s.chars()
        invariant
            it.seq() == s@,
            chars@ == s@.take(it.index() as int),
    {
        chars.push(c);
    }
    chars
}

/// The string made of `chars`.
pub fn text_of(chars: &Vec<char>) -> (s: String)
    ensures
        s@ == chars@,
{
    let mut s = String::new();
    let mut i: usize = 0;
    while i < chars.len()
        invariant
            i <= chars.len(),
            s@ == chars@.take(i as int),
        decreases chars.len() - i,
    {
        s.push(chars[i]);
        i = i + 1;
        assert(chars@.take(i as int) =~= chars@.take(i - 1).push(chars@[i - 1]));
    }
    assert(chars@.take(i as int) =~= chars@);
    s
}

/// The characters of `chars` from `from` up to `to`, `to` left out.
pub fn slice_of(chars: &Vec<char>, from: usize, to: usize) -> (part: Vec<char>)
    requires
        from <= to <= chars.len(),
    ensures
        part@ == chars@.subrange(from as int, to as int),
{
    let mut part: Vec<char> = Vec::new();
    let mut i: usize = from;
    while i < to
        invariant
            from <= i <= to <= chars.len(),
            part@ == chars@.subrange(from as int, i as int),
        decreases to - i,
    {
        part.push(chars[i]);
        i = i + 1;
        assert(chars@.subrange(from as int, i as int) =~= chars@.subrange(from as int, i - 1).push(
            chars@[i - 1],
        ));
    }
    part
}

/// Whether two texts are the same.
pub fn same_text(a: &str, b: &str) -> (same: bool)
    ensures
        same == (a@ == b@),
{
    let left: String = a.to_owned();
    let right: String = b.to_owned();
    left.eq(&right)
}

/// `a` followed by `b`.
pub fn join2(a: &str, b: &str) -> (s: String)
    ensures
        s@ == a@ + b@,
{
    let mut s = a.to_owned();
    s.append(b);
    s
}

/// `a` followed by `b` and then `c`.
pub fn join3(a: &str, b: &str, c: &str) -> (s: String)
    ensures
        s@ == a@ + b@ + c@,
{
    let mut s = a.to_owned();
    s.append(b);
    s.append(c);
    s
}

/// `a`, `b`, `c` and `d`, one after the other.
pub fn join4(a: &str, b: &str, c: &str, d: &str) -> (s: String)
    ensures
        s@ == a@ + b@ + c@ + d@,
{
    let mut s = join3(a, b, c);
    s.append(d);
    s
}

/// Whether `prefix` is how `s` begins.
pub open spec fn begins_with(s: Seq<char>, prefix: Seq<char>) -> bool {
    prefix.len() <= s.len() && s.take(prefix.len() as int) == prefix
}

/// Whether `suffix` is how `s` ends.
pub open spec fn ends_with(s: Seq<char>, suffix: Seq<char>) -> bool {
    suffix.len() <= s.len() && s.skip(s.len() - suffix.len()) == suffix
}

/// What follows `prefix` in a text that begins with it.
pub open spec fn after_prefix(s: Seq<char>, prefix: Seq<char>) -> Option<Seq<char>> {
    if begins_with(s, prefix) {
        Some(s.skip(prefix.len() as int))
    } else {
        None
    }
}

pub fn strip_prefix(text: &str, prefix: &str) -> (rest: Option<String>)
    ensures
        opt_text(rest) == after_prefix(text@, prefix@),
{
    let chars = chars_of(text);
    let front = chars_of(prefix);
    if chars.len() < front.len() {
        return None;
    }
    assert(text@.subrange(0, front@.len() as int) =~= text@.take(front@.len() as int));
    if !stands_at(&chars, 0, &front) {
        return None;
    }
    let rest = slice_of(&chars, front.len(), chars.len());
    assert(rest@ =~= text@.skip(front@.len() as int));
    Some(text_of(&rest))
}

/// The position of the first `c` in `s`, from `i` on.
pub open spec fn first_of(s: Seq<char>, c: char, i: nat) -> Option<nat>
    decreases s.len() - i,
{
    if i >= s.len() {
        None
    } else if s[i as int] == c {
        Some(i)
    } else {
        first_of(s, c, i + 1)
    }
}

/// What stands before and behind the first `c`.
pub open spec fn split_at_first(s: Seq<char>, c: char) -> Option<(Seq<char>, Seq<char>)> {
    match first_of(s, c, 0) {
        Some(at) => Some((s.take(at as int), s.skip(at as int + 1))),
        None => None,
    }
}

pub fn split_once(text: &str, c: char) -> (parts: Option<(String, String)>)
    ensures
        match (parts, split_at_first(text@, c)) {
            (Some((front, back)), Some((before, behind))) => front@ == before && back@ == behind,
            (None, None) => true,
            _ => false,
        },
{
    let chars = chars_of(text);
    let mut at: usize = 0;
    while at < chars.len() && chars[at] != c
        invariant
            at <= chars.len(),
            chars@ == text@,
            first_of(text@, c, 0) == first_of(text@, c, at as nat),
        decreases chars.len() - at,
    {
        at = at + 1;
    }
    if at == chars.len() {
        return None;
    }
    let front = slice_of(&chars, 0, at);
    let back = slice_of(&chars, at + 1, chars.len());
    assert(front@ =~= text@.take(at as int));
    assert(back@ =~= text@.skip(at as int + 1));
    Some((text_of(&front), text_of(&back)))
}

/// Whether `part` stands in `chars` at position `at`.
pub fn stands_at(chars: &Vec<char>, at: usize, part: &Vec<char>) -> (found: bool)
    requires
        at + part.len() <= chars.len(),
    ensures
        found == (chars@.subrange(at as int, at + part.len()) == part@),
{
    let mut i: usize = 0;
    while i < part.len()
        invariant
            i <= part.len(),
            at + part.len() <= chars.len(),
            forall|k: int| 0 <= k < i ==> chars@[at + k] == part@[k],
        decreases part.len() - i,
    {
        if chars[at + i] != part[i] {
            assert(chars@.subrange(at as int, at + part.len())[i as int] != part@[i as int]);
            return false;
        }
        i = i + 1;
    }
    assert(chars@.subrange(at as int, at + part.len()) =~= part@);
    true
}

/// The decimal digit of value `d`.
pub open spec fn digit_of(d: nat) -> char {
    (48 + d) as char
}

pub fn starts_with(text: &str, prefix: &str) -> (starts: bool)
    ensures
        starts == begins_with(text@, prefix@),
{
    let chars = chars_of(text);
    let part = chars_of(prefix);
    if part.len() > chars.len() {
        return false;
    }
    assert(text@.subrange(0, prefix@.len() as int) =~= text@.take(prefix@.len() as int));
    stands_at(&chars, 0, &part)
}

/// A letter of the Latin alphabet in lower case; any other character as it is.
pub open spec fn lower(c: char) -> char {
    if 'A' <= c && c <= 'Z' {
        (c as u32 + 32) as char
    } else {
        c
    }
}

/// A text with its Latin letters in lower case.
pub open spec fn lowered(text: Seq<char>) -> Seq<char> {
    text.map_values(|c: char| lower(c))
}

/// Whether `text` is `word`, small and capital Latin letters being the same.
pub fn is_word(text: &str, word: &str) -> (is: bool)
    ensures
        is == (lowered(text@) == lowered(word@)),
{
    let left = chars_of(text);
    let right = chars_of(word);
    if left.len() != right.len() {
        assert(lowered(text@).len() != lowered(word@).len());
        return false;
    }
    let mut i: usize = 0;
    while i < left.len()
        invariant
            i <= left.len(),
            left.len() == right.len(),
            left@ == text@,
            right@ == word@,
            forall|k: int| 0 <= k < i ==> lower(#[trigger] left@[k]) == lower(right@[k]),
        decreases left.len() - i,
    {
        if to_lower(left[i]) != to_lower(right[i]) {
            assert(lowered(text@)[i as int] != lowered(word@)[i as int]);
            return false;
        }
        i = i + 1;
    }
    assert(lowered(text@) =~= lowered(word@));
    true
}

fn to_lower(c: char) -> (small: char)
    ensures
        small == lower(c),
{
    if 'A' <= c && c <= 'Z' {
        let code: u8 = c as u8;
        (code + 32) as char
    } else {
        c
    }
}

/// How `n` is written in decimal, without leading zeros.
pub open spec fn decimal(n: nat) -> Seq<char>
    decreases n,
{
    if n < 10 {
        seq![digit_of(n)]
    } else {
        decimal(n / 10).push(digit_of(n % 10))
    }
}

/// `n` written in decimal.
pub fn decimal_text(n: u64) -> (s: String)
    ensures
        s@ == decimal(n as nat),
    decreases n,
{
    let digit: char = (48u8 + (n % 10) as u8) as char;
    if n < 10 {
        let mut s = String::new();
        s.push(digit);
        assert(s@ =~= seq![digit_of(n as nat)]);
        s
    } else {
        let mut s = decimal_text(n / 10);
        s.push(digit);
        s
    }
}

/// Whether `c` is one of `0` to `9`.
pub open spec fn is_digit(c: char) -> bool {
    '0' <= c && c <= '9'
}

/// Whether `s` is one digit or more and nothing else.
pub open spec fn all_digits(s: Seq<char>) -> bool {
    s.len() > 0 && forall|i: int| 0 <= i < s.len() ==> is_digit(#[trigger] s[i])
}

/// The number that the digits of `s` write in decimal.
pub open spec fn digits_value(s: Seq<char>) -> nat
    decreases s.len(),
{
    if s.len() == 0 {
        0
    } else {
        (digits_value(s.drop_last()) * 10 + (s.last() as nat - 48)) as nat
    }
}

/// The text after an optional leading plus sign.
pub open spec fn without_plus(s: Seq<char>) -> Seq<char> {
    if s.len() > 0 && s[0] == '+' {
        s.skip(1)
    } else {
        s
    }
}

/// The number that `s` writes: an optional plus sign, then decimal digits, with
/// a value that fits in 64 bits.
pub open spec fn parsed_u64(s: Seq<char>) -> Option<u64> {
    let body = without_plus(s);
    if all_digits(body) && digits_value(body) <= u64::MAX {
        Some(digits_value(body) as u64)
    } else {
        None
    }
}

/// Reads a decimal number.
pub fn parse_u64(chars: &Vec<char>) -> (value: Option<u64>)
    ensures
        value == parsed_u64(chars@),
{
    let start: usize = if chars.len() > 0 && chars[0] == '+' {
        1
    } else {
        0
    };
    let ghost body = without_plus(chars@);
    assert(body =~= chars@.skip(start as int));
    if start == chars.len() {
        return None;
    }
    let mut total: u64 = 0;
    let mut i: usize = start;
    let mut exceeded = false;
    while i < chars.len()
        invariant
            start <= i <= chars.len(),
            body =~= chars@.skip(start as int),
            body == without_plus(chars@),
            forall|k: int| 0 <= k < i - start ==> is_digit(#[trigger] body[k]),
            !exceeded ==> total == digits_value(body.take(i - start)),
            exceeded ==> digits_value(body.take(i - start)) > u64::MAX,
        decreases chars.len() - i,
    {
        let c: char = chars[i];
        assert(body[i - start] == c);
        if !('0' <= c && c <= '9') {
            assert(!is_digit(body[i - start]));
            assert(!all_digits(body));
            return None;
        }
        let digit: u64 = (c as u32 - 48) as u64;
        assert(body.take(i - start + 1).drop_last() =~= body.take(i - start));
        assert(body.take(i - start + 1).last() == c);
        if !exceeded {
            if total > (u64::MAX - digit) / 10 {
                exceeded = true;
                assert(total * 10 + digit > u64::MAX);
            } else {
                total = total * 10 + digit;
            }
        }
        i = i + 1;
    }
    assert(body.take(i - start) =~= body);
    assert(all_digits(body));
    if exceeded {
        None
    } else {
        Some(total)
    }
}

/// What a number's decimal text is made of.
pub proof fn lemma_decimal_digits(n: nat)
    ensures
        all_digits(decimal(n)),
        digits_value(decimal(n)) == n,
    decreases n,
{
    if n < 10 {
        assert(decimal(n).drop_last() =~= Seq::<char>::empty());
        assert(digits_value(decimal(n).drop_last()) == 0);
    } else {
        lemma_decimal_digits(n / 10);
        assert(decimal(n).drop_last() =~= decimal(n / 10));
        assert forall|i: int| 0 <= i < decimal(n).len() implies is_digit(#[trigger] decimal(n)[i]) by {
            if i < decimal(n).len() - 1 {
                assert(decimal(n)[i] == decimal(n / 10)[i]);
            }
        }
    }
}

/// Reading back what was written in decimal gives the number.
pub proof fn lemma_decimal_parses_back(n: u64)
    ensures
        parsed_u64(decimal(n as nat)) == Some(n),
{
    lemma_decimal_digits(n as nat);
    assert(is_digit(decimal(n as nat)[0]));
}

/// Different numbers are written differently.
pub proof fn lemma_decimal_injective(a: nat, b: nat)
    requires
        decimal(a) == decimal(b),
    ensures
        a == b,
{
    lemma_decimal_digits(a);
    lemma_decimal_digits(b);
}

proof fn lemma_first_number_ends_at_the_dash(
    prefix: Seq<char>,
    a: nat,
    b: nat,
    c: nat,
    d: nat,
)
    requires
        prefix + decimal(a) + "-"@ + decimal(b) == prefix + decimal(c) + "-"@ + decimal(d),
    ensures
        decimal(a).len() >= decimal(c).len(),
{
    reveal_strlit("-");
    lemma_decimal_digits(c);
    let left = prefix + decimal(a) + "-"@ + decimal(b);
    let right = prefix + decimal(c) + "-"@ + decimal(d);
    let n = decimal(a).len() as int;
    if n < decimal(c).len() {
        assert(left[prefix.len() + n] == '-');
        assert(right[prefix.len() + n] == decimal(c)[n]);
        assert(is_digit(decimal(c)[n]));
    }
}

/// A name of two numbers with a dash between them tells both numbers.
pub proof fn lemma_two_numbers_read_back(prefix: Seq<char>, a: nat, b: nat, c: nat, d: nat)
    requires
        prefix + decimal(a) + "-"@ + decimal(b) == prefix + decimal(c) + "-"@ + decimal(d),
    ensures
        a == c,
        b == d,
{
    lemma_first_number_ends_at_the_dash(prefix, a, b, c, d);
    lemma_first_number_ends_at_the_dash(prefix, c, d, a, b);
    reveal_strlit("-");
    let left = prefix + decimal(a) + "-"@ + decimal(b);
    let right = prefix + decimal(c) + "-"@ + decimal(d);
    let p = prefix.len() as int;
    let n = decimal(a).len() as int;
    assert(left.subrange(p, p + n) =~= decimal(a));
    assert(right.subrange(p, p + n) =~= decimal(c));
    assert(left.skip(p + n + 1) =~= decimal(b));
    assert(right.skip(p + n + 1) =~= decimal(d));
    lemma_decimal_injective(a, c);
    lemma_decimal_injective(b, d);
}

} // verus!
