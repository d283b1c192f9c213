//! Text as a sequence of characters: its lines, and what stands where in it.

use vstd::prelude::*;

verus! {

/// The texts that a list of strings holds.
pub open spec fn texts(strings: Seq<String>) -> Seq<Seq<char>> {
    strings.map_values(|string: String| string@)
}

/// The characters of a string, in order.
pub fn chars_of(text: &str) -> (chars: Vec<char>)
    ensures
        chars@ == text@,
{
    let mut chars: Vec<char> = Vec::new();
    for c in it: text.chars()
        invariant
            chars@ == text@.take(it.index() as int),
            it.seq() == text@,
    {
        chars.push(c);
    }
    chars
}

/// Whether `part` stands in `text` at position `at`.
pub open spec fn stands_at(text: Seq<char>, at: int, part: Seq<char>) -> bool {
    0 <= at && at + part.len() <= text.len() && text.subrange(at, at + part.len()) == part
}

/// Whether a line of `text` starts at position `at`: at the start of the
/// text, and after every line feed.
pub open spec fn is_line_start(text: Seq<char>, at: int) -> bool {
    0 <= at <= text.len() && (at == 0 || text[at - 1] == '\n')
}

/// Where the line that holds position `from` ends: at the first line feed at
/// or after `from`, or at the end of the text.
pub open spec fn line_end(text: Seq<char>, from: int) -> int
    decreases text.len() - from,
{
    if from < 0 || from >= text.len() {
        text.len() as int
    } else if text[from] == '\n' {
        from
    } else {
        line_end(text, from + 1)
    }
}

/// The start of the first line, at or after position `from`, that begins
/// with `prefix`.
pub open spec fn find_line(text: Seq<char>, prefix: Seq<char>, from: int) -> Option<int>
    decreases text.len() - from,
{
    if from < 0 || from > text.len() {
        None
    } else if is_line_start(text, from) && stands_at(text, from, prefix) {
        Some(from)
    } else if from == text.len() {
        None
    } else {
        find_line(text, prefix, from + 1)
    }
}

/// Whether `part` stands in `text` at position `at`.
pub fn part_stands_at(text: &[char], at: usize, part: &[char]) -> (stands: bool)
    ensures
        stands == stands_at(text@, at as int, part@),
{
    if at > text.len() || part.len() > text.len() - at {
        return false;
    }
    let mut i: usize = 0;
    while i < part.len()
        invariant
            i <= part.len(),
            at + part.len() <= text.len(),
            forall|j: int| 0 <= j < i ==> text@[at + j] == part@[j],
        decreases part.len() - i,
    {
        if text[at + i] != part[i] {
            return false;
        }
        i += 1;
    }
    assert(text@.subrange(at as int, at + part.len()) =~= part@);
    true
}

/// Finds the end of the line that holds position `from`.
pub fn end_of_line(text: &[char], from: usize) -> (end: usize)
    requires
        from <= text.len(),
    ensures
        end == line_end(text@, from as int),
        from <= end <= text.len(),
{
    let mut end = from;
    while end < text.len() && text[end] != '\n'
        invariant
            from <= end <= text.len(),
            line_end(text@, from as int) == line_end(text@, end as int),
        decreases text.len() - end,
    {
        end += 1;
    }
    end
}

/// Finds the first line that begins with `prefix` and gives its start.
pub fn first_line_with(text: &[char], prefix: &[char]) -> (start: Option<usize>)
    ensures
        match find_line(text@, prefix@, 0) {
            Some(at) => start is Some && start->0 == at,
            None => start is None,
        },
        start matches Some(at) ==> is_line_start(text@, at as int) && stands_at(
            text@,
            at as int,
            prefix@,
        ),
{
    let mut at: usize = 0;
    while at < text.len()
        invariant
            at <= text.len(),
            find_line(text@, prefix@, 0) == find_line(text@, prefix@, at as int),
        decreases text.len() - at,
    {
        if (at == 0 || text[at - 1] == '\n') && part_stands_at(text, at, prefix) {
            return Some(at);
        }
        at += 1;
    }
    if (at == 0 || text[at - 1] == '\n') && part_stands_at(text, at, prefix) {
        Some(at)
    } else {
        None
    }
}

/// A line ends at the first line feed that follows, or at the end of the
/// text where none follows.
pub proof fn lemma_line_end_at(text: Seq<char>, from: int, end: int)
    requires
        0 <= from <= end <= text.len(),
        forall|j: int| from <= j < end ==> text[j] != '\n',
        end == text.len() || text[end] == '\n',
    ensures
        line_end(text, from) == end,
    decreases end - from,
{
    if from < end {
        lemma_line_end_at(text, from + 1, end);
    }
}

/// The line that is found is the first one that begins with the prefix.
pub proof fn lemma_find_line_at(text: Seq<char>, prefix: Seq<char>, from: int, at: int)
    requires
        0 <= from <= at <= text.len(),
        forall|j: int| from <= j < at ==> !(is_line_start(text, j) && stands_at(text, j, prefix)),
        is_line_start(text, at),
        stands_at(text, at, prefix),
    ensures
        find_line(text, prefix, from) == Some(at),
    decreases at - from,
{
    if from < at {
        lemma_find_line_at(text, prefix, from + 1, at);
    }
}

/// Whether two strings hold the same characters.
pub fn same_text(left: &str, right: &str) -> (same: bool)
    ensures
        same == (left@ == right@),
{
    left.to_owned() == right.to_owned()
}

} // verus!
