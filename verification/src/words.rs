//! Text cut into lines, and lines into words.

use crate::text::texts;
use vstd::prelude::*;

verus! {

/// The characters with the Unicode property White_Space.
pub open spec fn white_space(c: char) -> bool {
    let n = c as u32;
    9 <= n <= 13 || n == 0x20 || n == 0x85 || n == 0xa0 || n == 0x1680 || 0x2000 <= n <= 0x200a || n
        == 0x2028 || n == 0x2029 || n == 0x202f || n == 0x205f || n == 0x3000
}

pub fn is_white_space(c: char) -> (space: bool)
    ensures
        space == white_space(c),
{
    let n: u32 = c as u32;
    (9 <= n && n <= 13) || n == 0x20 || n == 0x85 || n == 0xa0 || n == 0x1680 || (0x2000 <= n && n
        <= 0x200a) || n == 0x2028 || n == 0x2029 || n == 0x202f || n == 0x205f || n == 0x3000
}

/// The words of a text that are complete, and the characters of the one that is
/// still going on.
pub open spec fn word_split(s: Seq<char>) -> (Seq<Seq<char>>, Seq<char>)
    decreases s.len(),
{
    if s.len() == 0 {
        (Seq::empty(), Seq::empty())
    } else {
        let (done, current) = word_split(s.drop_last());
        if !white_space(s.last()) {
            (done, current.push(s.last()))
        } else if current.len() > 0 {
            (done.push(current), Seq::empty())
        } else {
            (done, current)
        }
    }
}

/// The words of a text: what stands between white space.
pub open spec fn words(s: Seq<char>) -> Seq<Seq<char>> {
    let (done, current) = word_split(s);
    if current.len() > 0 {
        done.push(current)
    } else {
        done
    }
}

pub fn split_words(text: &str) -> (list: Vec<String>)
    ensures
        texts(list@) == words(text@),
{
    let chars = crate::text::chars_of(text);
    let mut list: Vec<String> = Vec::new();
    let mut current = String::new();
    let mut length: usize = 0;
    let mut i: usize = 0;
    assert(texts(list@) =~= Seq::empty());
    while i < chars.len()
        invariant
            i <= chars.len(),
            chars@ == text@,
            length == current@.len(),
            length <= i,
            (texts(list@), current@) == word_split(text@.take(i as int)),
        decreases chars.len() - i,
    {
        let c: char = chars[i];
        assert(text@.take(i + 1).drop_last() =~= text@.take(i as int));
        let ghost before = texts(list@);
        if !is_white_space(c) {
            current.push(c);
            length = length + 1;
        } else if length > 0 {
            let ghost word = current@;
            list.push(current);
            assert(texts(list@) =~= before.push(word));
            current = String::new();
            length = 0;
        }
        i = i + 1;
    }
    assert(text@.take(i as int) =~= text@);
    if length > 0 {
        let ghost before = texts(list@);
        let ghost word = current@;
        list.push(current);
        assert(texts(list@) =~= before.push(word));
    }
    list
}

/// A line without the carriage return at its end.
pub open spec fn without_return(line: Seq<char>) -> Seq<char> {
    if line.len() > 0 && line.last() == '\r' {
        line.drop_last()
    } else {
        line
    }
}

/// The lines of a text that are complete, and the characters of the one that is
/// still going on.
pub open spec fn line_split(s: Seq<char>) -> (Seq<Seq<char>>, Seq<char>)
    decreases s.len(),
{
    if s.len() == 0 {
        (Seq::empty(), Seq::empty())
    } else {
        let (done, current) = line_split(s.drop_last());
        if s.last() == '\n' {
            (done.push(without_return(current)), Seq::empty())
        } else {
            (done, current.push(s.last()))
        }
    }
}

/// The lines of a text. A line ends with a line feed, or a carriage return and a
/// line feed; the last one need not end.
pub open spec fn lines(s: Seq<char>) -> Seq<Seq<char>> {
    let (done, current) = line_split(s);
    if current.len() > 0 {
        done.push(current)
    } else {
        done
    }
}

fn text_without_return(line: &Vec<char>) -> (text: String)
    ensures
        text@ == without_return(line@),
{
    let mut end: usize = line.len();
    if end > 0 && line[end - 1] == '\r' {
        end = end - 1;
    }
    let part = crate::text::slice_of(line, 0, end);
    assert(part@ =~= without_return(line@));
    crate::text::text_of(&part)
}

pub fn split_lines(text: &str) -> (list: Vec<String>)
    ensures
        texts(list@) == lines(text@),
{
    let chars = crate::text::chars_of(text);
    let mut list: Vec<String> = Vec::new();
    let mut current: Vec<char> = Vec::new();
    let mut i: usize = 0;
    assert(texts(list@) =~= Seq::empty());
    while i < chars.len()
        invariant
            i <= chars.len(),
            chars@ == text@,
            (texts(list@), current@) == line_split(text@.take(i as int)),
        decreases chars.len() - i,
    {
        let c: char = chars[i];
        assert(text@.take(i + 1).drop_last() =~= text@.take(i as int));
        if c == '\n' {
            let ghost before = texts(list@);
            let line = text_without_return(&current);
            let ghost shown = line@;
            list.push(line);
            assert(texts(list@) =~= before.push(shown));
            current = Vec::new();
        } else {
            current.push(c);
        }
        i = i + 1;
    }
    assert(text@.take(i as int) =~= text@);
    if current.len() > 0 {
        let ghost before = texts(list@);
        let line = crate::text::text_of(&current);
        let ghost shown = line@;
        list.push(line);
        assert(texts(list@) =~= before.push(shown));
    }
    list
}

/// A text without the white space in front of it.
pub open spec fn trimmed_start(s: Seq<char>) -> Seq<char>
    decreases s.len(),
{
    if s.len() > 0 && white_space(s[0]) {
        trimmed_start(s.skip(1))
    } else {
        s
    }
}

/// A text without the white space behind it.
pub open spec fn trimmed_end(s: Seq<char>) -> Seq<char>
    decreases s.len(),
{
    if s.len() > 0 && white_space(s.last()) {
        trimmed_end(s.drop_last())
    } else {
        s
    }
}

pub open spec fn trimmed(s: Seq<char>) -> Seq<char> {
    trimmed_end(trimmed_start(s))
}

pub fn trim(text: &str) -> (part: String)
    ensures
        part@ == trimmed(text@),
{
    let chars = crate::text::chars_of(text);
    let mut from: usize = 0;
    assert(text@.skip(0) =~= text@);
    while from < chars.len() && is_white_space(chars[from])
        invariant
            from <= chars.len(),
            chars@ == text@,
            trimmed_start(text@) == trimmed_start(text@.skip(from as int)),
        decreases chars.len() - from,
    {
        assert(text@.skip(from as int).skip(1) =~= text@.skip(from + 1));
        from = from + 1;
    }
    let ghost rest = text@.skip(from as int);
    assert(trimmed_start(text@) == rest);
    let mut to: usize = chars.len();
    assert(rest =~= text@.subrange(from as int, to as int));
    while to > from && is_white_space(chars[to - 1])
        invariant
            from <= to <= chars.len(),
            chars@ == text@,
            rest == text@.skip(from as int),
            trimmed_end(rest) == trimmed_end(text@.subrange(from as int, to as int)),
        decreases to,
    {
        assert(text@.subrange(from as int, to as int).drop_last() =~= text@.subrange(
            from as int,
            to - 1,
        ));
        to = to - 1;
    }
    let part = crate::text::slice_of(&chars, from, to);
    crate::text::text_of(&part)
}

/// Whether a text holds no white space.
pub open spec fn unbroken(s: Seq<char>) -> bool {
    forall|k: int| 0 <= k < s.len() ==> !white_space(#[trigger] s[k])
}

/// No word holds white space, and none is empty.
pub proof fn lemma_words_are_words(s: Seq<char>)
    ensures
        forall|i: int|
            0 <= i < words(s).len() ==> (#[trigger] words(s)[i]).len() > 0 && unbroken(words(s)[i]),
{
    lemma_split_words_are_words(s);
}

proof fn lemma_split_words_are_words(s: Seq<char>)
    ensures
        forall|i: int|
            0 <= i < word_split(s).0.len() ==> (#[trigger] word_split(s).0[i]).len() > 0
                && unbroken(word_split(s).0[i]),
        unbroken(word_split(s).1),
    decreases s.len(),
{
    if s.len() > 0 {
        lemma_split_words_are_words(s.drop_last());
        let (done, current) = word_split(s.drop_last());
        let next = word_split(s);
        assert forall|i: int| 0 <= i < next.0.len() implies (#[trigger] next.0[i]).len() > 0
            && unbroken(next.0[i]) by {
            if i < done.len() {
                assert(next.0[i] == done[i]);
            }
        }
    }
}

} // verus!
