//! What holds of searching and splitting text.

use super::choices::lemma_line_is_unbroken;
use crate::text::{has_prefix, has_substring, line_length, lines, occurs_at};
use vstd::prelude::*;

verus! {

/// A text is made of something, a part and something else.
pub open spec fn holds_part(text: Seq<char>, part: Seq<char>) -> bool {
    exists|before: Seq<char>, after: Seq<char>| text == #[trigger] (before + part + after)
}

/// A pattern stands in just those texts that are something, the pattern and
/// something else, one after the other.
pub proof fn law_substring_is_a_part(text: Seq<char>, part: Seq<char>)
    ensures
        has_substring(text, part) <==> holds_part(text, part),
{
    if has_substring(text, part) {
        let at = choose|at: int| occurs_at(text, part, at);
        let before = text.take(at);
        let after = text.skip(at + part.len());
        assert(before + part + after =~= text) by {
            assert(text =~= text.take(at) + text.subrange(at, at + part.len()) + text.skip(
                at + part.len(),
            ));
        }
    }
    if holds_part(text, part) {
        let (before, after) = choose|before: Seq<char>, after: Seq<char>|
            text == #[trigger] (before + part + after);
        let at = before.len() as int;
        assert(text.subrange(at, at + part.len()) =~= part);
        assert(occurs_at(text, part, at));
    }
}

/// A text begins with just those texts of which it is the continuation.
pub proof fn law_prefix_is_continued(text: Seq<char>, prefix: Seq<char>)
    ensures
        has_prefix(text, prefix) <==> exists|rest: Seq<char>| text == #[trigger] (prefix + rest),
{
    if has_prefix(text, prefix) {
        let rest = text.skip(prefix.len() as int);
        assert(prefix + rest =~= text) by {
            assert(text =~= text.subrange(0, prefix.len() as int) + rest);
        }
    }
    if exists|rest: Seq<char>| text == #[trigger] (prefix + rest) {
        assert(text.subrange(0, prefix.len() as int) =~= prefix);
    }
}

/// Nothing has no line; a text without a line feed is a line of its own; and a
/// text that goes on after a line feed has what stands before that as its first
/// line, without a carriage return at its end, and then the lines of the rest.
pub proof fn law_line_feeds_part_lines(line: Seq<char>, rest: Seq<char>)
    requires
        !line.contains('\n'),
    ensures
        lines(Seq::empty()) == Seq::<Seq<char>>::empty(),
        line.len() > 0 ==> lines(line) == seq![line],
        line.len() > 0 && line.last() == '\r' ==> lines(line + seq!['\n'] + rest)
            == seq![line.drop_last()] + lines(rest),
        line.len() == 0 || line.last() != '\r' ==> lines(line + seq!['\n'] + rest)
            == seq![line] + lines(rest),
{
    lemma_line_is_unbroken(line);
    let end = line_length(line) as int;
    if end < line.len() {
        assert(line[end] == '\n');
        assert(line.contains('\n'));
    }
    let text = line + seq!['\n'] + rest;
    lemma_line_is_unbroken(text);
    let stop = line_length(text) as int;
    assert(text[line.len() as int] == '\n');
    if stop < line.len() {
        assert(text[stop] == line[stop]);
        assert(line.contains('\n'));
    }
    assert(stop == line.len());
    assert(text.take(stop) =~= line);
    assert(text.skip(stop + 1) =~= rest);
}

} // verus!
