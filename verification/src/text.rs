//! Searching and splitting text, character by character.

use vstd::prelude::*;

verus! {

/// A string that may be missing, by its view.
pub open spec fn text_option(o: Option<String>) -> Option<Seq<char>> {
    match o {
        Some(text) => Some(text@),
        None => None,
    }
}

/// A borrowed string that may be missing, by its view.
pub open spec fn str_option(o: Option<&str>) -> Option<Seq<char>> {
    match o {
        Some(text) => Some(text@),
        None => None,
    }
}

/// `pattern` stands in `text` from position `at` on.
pub open spec fn occurs_at(text: Seq<char>, pattern: Seq<char>, at: int) -> bool {
    &&& 0 <= at
    &&& at + pattern.len() <= text.len()
    &&& text.subrange(at, at + pattern.len()) == pattern
}

/// `pattern` stands somewhere in `text`.
pub open spec fn has_substring(text: Seq<char>, pattern: Seq<char>) -> bool {
    exists|at: int| occurs_at(text, pattern, at)
}

/// `text` begins with `prefix`.
pub open spec fn has_prefix(text: Seq<char>, prefix: Seq<char>) -> bool {
    occurs_at(text, prefix, 0)
}

/// How many characters stand before the first line feed, or the length of the
/// text where there is none.
pub open spec fn line_length(text: Seq<char>) -> nat
    decreases text.len(),
{
    if text.len() == 0 || text[0] == '\n' {
        0
    } else {
        1 + line_length(text.drop_first())
    }
}

/// A line that ended in a line feed, without the carriage return that may
/// precede the line feed.
pub open spec fn without_carriage_return(line: Seq<char>) -> Seq<char> {
    if line.len() > 0 && line.last() == '\r' {
        line.drop_last()
    } else {
        line
    }
}

/// The lines of a text: each ends in a line feed, or in a carriage return and a
/// line feed, neither of which belongs to it. The last one may go without.
pub open spec fn lines(text: Seq<char>) -> Seq<Seq<char>>
    decreases text.len(),
{
    let end = line_length(text);
    if text.len() == 0 {
        seq![]
    } else if end >= text.len() {
        seq![text]
    } else {
        seq![without_carriage_return(text.take(end as int))] + lines(
            text.skip(end as int + 1),
        )
    }
}

/// The characters of a string, in order.
pub fn characters(text: &str) -> (r: Vec<char>)
    ensures
        r@ == text@,
{
    let mut result: Vec<char> = Vec::new();
    for c in iter: text.chars()
        invariant
            result@ == text@.take(iter.index()),
            iter.seq() == text@,
    {
        result.push(c);
        assert(text@.take(iter.index() + 1) =~= text@.take(iter.index()).push(c));
    }
    assert(text@.take(text@.len() as int) =~= text@);
    result
}

/// Whether `pattern` stands in `text` from position `at` on.
fn matches_at(text: &Vec<char>, pattern: &Vec<char>, at: usize) -> (r: bool)
    requires
        at + pattern@.len() <= text@.len(),
    ensures
        r == occurs_at(text@, pattern@, at as int),
{
    let size: usize = text.len();
    let mut i: usize = 0;
    while i < pattern.len()
        invariant
            size == text@.len(),
            i <= pattern@.len(),
            at + pattern@.len() <= text@.len(),
            forall|j: int| 0 <= j < i ==> text@[at + j] == pattern@[j],
        decreases pattern@.len() - i,
    {
        if text[at + i] != pattern[i] {
            assert(text@.subrange(at as int, at + pattern@.len())[i as int] != pattern@[i as int]);
            return false;
        }
        i = i + 1;
    }
    assert(text@.subrange(at as int, at + pattern@.len()) =~= pattern@);
    true
}

/// Whether `pattern` stands somewhere in `text`.
pub fn contains(text: &str, pattern: &str) -> (r: bool)
    ensures
        r == has_substring(text@, pattern@),
{
    let chars = characters(text);
    let wanted = characters(pattern);
    if wanted.len() > chars.len() {
        return false;
    }
    let last: usize = chars.len() - wanted.len();
    let mut at: usize = 0;
    while at < last
        invariant
            chars@ == text@,
            wanted@ == pattern@,
            last == text@.len() - pattern@.len(),
            at <= last,
            forall|j: int| 0 <= j < at ==> !occurs_at(text@, pattern@, j),
        decreases last - at,
    {
        if matches_at(&chars, &wanted, at) {
            return true;
        }
        at = at + 1;
    }
    matches_at(&chars, &wanted, last)
}

/// Whether `text` begins with `prefix`.
pub fn starts_with(text: &str, prefix: &str) -> (r: bool)
    ensures
        r == has_prefix(text@, prefix@),
{
    let chars = characters(text);
    let wanted = characters(prefix);
    wanted.len() <= chars.len() && matches_at(&chars, &wanted, 0)
}

/// Whether two strings hold the same characters.
pub fn same_text(a: &str, b: &str) -> (r: bool)
    ensures
        r == (a@ == b@),
{
    a.to_owned() == b.to_owned()
}

/// Where the line that begins at `start` ends: at its line feed, or at the end
/// of the text.
fn line_end(text: &Vec<char>, start: usize) -> (r: usize)
    requires
        start <= text@.len(),
    ensures
        r == start + line_length(text@.skip(start as int)),
        start <= r <= text@.len(),
{
    let mut end: usize = start;
    while end < text.len() && text[end] != '\n'
        invariant
            start <= end <= text@.len(),
            line_length(text@.skip(start as int)) == end - start + line_length(
                text@.skip(end as int),
            ),
        decreases text@.len() - end,
    {
        assert(text@.skip(end as int).drop_first() =~= text@.skip(end + 1));
        end = end + 1;
    }
    end
}

/// The line with the given number, counted from zero, where there is one.
pub fn nth_line(text: &str, number: usize) -> (r: Option<String>)
    ensures
        match r {
            Some(line) => number < lines(text@).len() && line@ == lines(text@)[number as int],
            None => number >= lines(text@).len(),
        },
{
    let chars = characters(text);
    let mut start: usize = 0;
    let mut passed: usize = 0;
    assert(text@.skip(0) =~= text@);
    let ghost mut before: Seq<Seq<char>> = seq![];
    assert(lines(text@) =~= before + lines(text@.skip(0)));
    while start < chars.len()
        invariant
            chars@ == text@,
            start <= text@.len(),
            passed <= number,
            before.len() == passed,
            lines(text@) == before + lines(text@.skip(start as int)),
        decreases text@.len() - start,
    {
        let end = line_end(&chars, start);
        let ghost rest = text@.skip(start as int);
        assert(end < text@.len() ==> rest.take(end - start) =~= text@.subrange(
            start as int,
            end as int,
        ));
        if passed == number {
            let stop: usize = if end < chars.len() && end > start && chars[end - 1] == '\r' {
                end - 1
            } else {
                end
            };
            let line = text.substring_char(start, stop);
            assert(lines(text@)[number as int] == lines(rest)[0]);
            assert(line@ =~= lines(rest)[0]);
            return Some(line.to_owned());
        }
        if end == chars.len() {
            return None;
        }
        proof {
            let first = without_carriage_return(rest.take(end - start));
            assert(rest.skip(end - start + 1) =~= text@.skip(end + 1));
            assert(lines(rest) == seq![first] + lines(text@.skip(end + 1)));
            assert(before + (seq![first] + lines(text@.skip(end + 1))) =~= before.push(first)
                + lines(text@.skip(end + 1)));
            before = before.push(first);
        }
        start = end + 1;
        passed = passed + 1;
    }
    None
}

/// The concatenation of two strings.
pub fn concat2(a: &str, b: &str) -> (r: String)
    ensures
        r@ == a@ + b@,
{
    let mut result = a.to_owned();
    result.append(b);
    result
}

/// The concatenation of three strings.
pub fn concat3(a: &str, b: &str, c: &str) -> (r: String)
    ensures
        r@ == a@ + b@ + c@,
{
    let mut result = a.to_owned();
    result.append(b);
    result.append(c);
    result
}

} // verus!
