//! Logical lines of a text: `'\n'` separates lines and belongs to the line it
//! ends.
use vstd::prelude::*;

verus! {

/// The number of the line that position `index` is on.
pub open spec fn line_of(text: Seq<char>, index: int) -> nat
    decreases index,
{
    if index <= 0 {
        0
    } else if text[index - 1] == '\n' {
        line_of(text, index - 1) + 1
    } else {
        line_of(text, index - 1)
    }
}

/// The first position of the line that position `index` is on.
pub open spec fn line_start(text: Seq<char>, index: int) -> int
    decreases index,
{
    if index <= 0 {
        0
    } else if text[index - 1] == '\n' {
        index
    } else {
        line_start(text, index - 1)
    }
}

/// The last position of the line that position `index` is on: that of its `'\n'`,
/// or the end of the text.
pub open spec fn line_end(text: Seq<char>, index: int) -> int
    decreases text.len() - index,
{
    if index >= text.len() || text[index] == '\n' {
        index
    } else {
        line_end(text, index + 1)
    }
}

/// The number of lines: an empty text has one.
pub open spec fn line_count(text: Seq<char>) -> nat {
    line_of(text, text.len() as int) + 1
}

/// The first position of the `n`th line after the line that starts at `from`.
pub open spec fn line_begin_from(text: Seq<char>, from: int, n: nat) -> Option<int>
    decreases n,
{
    if n == 0 {
        Some(from)
    } else if line_end(text, from) < text.len() {
        line_begin_from(text, line_end(text, from) + 1, (n - 1) as nat)
    } else {
        None
    }
}

/// The first position of line `n`, if there is such a line.
pub open spec fn line_begin(text: Seq<char>, n: nat) -> Option<int> {
    line_begin_from(text, 0, n)
}

/// A position lies between the start and the end of its line, no `'\n'` lies
/// between the start and the position or between the position and the end, and
/// both ends are on the position's line.
pub proof fn line_bounds(text: Seq<char>, index: int)
    requires
        0 <= index <= text.len(),
    ensures
        0 <= line_start(text, index) <= index <= line_end(text, index) <= text.len(),
        line_of(text, line_start(text, index)) == line_of(text, index),
        line_of(text, line_end(text, index)) == line_of(text, index),
        line_start(text, line_end(text, index)) == line_start(text, index),
        forall|j: int| line_start(text, index) <= j < line_end(text, index) ==> #[trigger] text[j] != '\n',
        line_end(text, index) < text.len() ==> text[line_end(text, index)] == '\n',
        line_start(text, index) > 0 ==> text[line_start(text, index) - 1] == '\n',
{
    lemma_start(text, index);
    lemma_end(text, index);
}

proof fn lemma_start(text: Seq<char>, index: int)
    requires
        0 <= index <= text.len(),
    ensures
        0 <= line_start(text, index) <= index,
        line_of(text, line_start(text, index)) == line_of(text, index),
        forall|j: int| line_start(text, index) <= j < index ==> #[trigger] text[j] != '\n',
        line_start(text, index) > 0 ==> text[line_start(text, index) - 1] == '\n',
    decreases index,
{
    if index > 0 && text[index - 1] != '\n' {
        lemma_start(text, index - 1);
    }
}

proof fn lemma_end(text: Seq<char>, index: int)
    requires
        0 <= index <= text.len(),
    ensures
        index <= line_end(text, index) <= text.len(),
        line_of(text, line_end(text, index)) == line_of(text, index),
        line_start(text, line_end(text, index)) == line_start(text, index),
        forall|j: int| index <= j < line_end(text, index) ==> #[trigger] text[j] != '\n',
        line_end(text, index) < text.len() ==> text[line_end(text, index)] == '\n',
    decreases text.len() - index,
{
    if index < text.len() && text[index] != '\n' {
        lemma_end(text, index + 1);
    }
}

/// Line numbers do not decrease along the text.
pub proof fn line_of_monotone(text: Seq<char>, i: int, j: int)
    requires
        0 <= i <= j <= text.len(),
    ensures
        line_of(text, i) <= line_of(text, j) <= line_of(text, i) + (j - i),
    decreases j - i,
{
    if i < j {
        line_of_monotone(text, i, j - 1);
    }
}

/// The line of a position starts where that line begins: looking a line up by its
/// number gives back its start, and there is no line past the last.
pub proof fn line_lookup(text: Seq<char>, index: int)
    requires
        0 <= index <= text.len(),
    ensures
        line_begin(text, line_of(text, index)) == Some(line_start(text, index)),
        line_begin(text, line_count(text)) is None,
{
    lemma_lookup(text, 0, index);
    lemma_lookup_past(text, 0);
}

proof fn lemma_lookup(text: Seq<char>, from: int, index: int)
    requires
        0 <= from <= index <= text.len(),
        line_start(text, from) == from,
    ensures
        line_of(text, from) <= line_of(text, index),
        line_begin_from(text, from, (line_of(text, index) - line_of(text, from)) as nat) == Some(
            line_start(text, index),
        ),
    decreases index - from,
{
    line_of_monotone(text, from, index);
    line_bounds(text, from);
    let end = line_end(text, from);
    if index <= end {
        lemma_same_line(text, from, index);
    } else {
        line_of_monotone(text, end + 1, index);
        lemma_lookup(text, end + 1, index);
    }
}

proof fn lemma_same_line(text: Seq<char>, from: int, index: int)
    requires
        0 <= from <= index <= line_end(text, from),
        from <= text.len(),
        line_start(text, from) == from,
    ensures
        line_of(text, index) == line_of(text, from),
        line_start(text, index) == from,
    decreases index - from,
{
    line_bounds(text, from);
    if from < index {
        lemma_same_line(text, from, index - 1);
        assert(text[index - 1] != '\n');
    }
}

proof fn lemma_lookup_past(text: Seq<char>, from: int)
    requires
        0 <= from <= text.len(),
    ensures
        line_begin_from(text, from, (line_of(text, text.len() as int) - line_of(text, from) + 1) as nat) is None,
        line_of(text, from) <= line_of(text, text.len() as int),
    decreases text.len() - from,
{
    line_bounds(text, from);
    line_of_monotone(text, from, text.len() as int);
    let end = line_end(text, from);
    if end < text.len() {
        lemma_lookup_past(text, end + 1);
    }
}

/// The number of the line that position `index` is on.
pub fn line_number(text: &[char], index: usize) -> (line: usize)
    requires
        index <= text@.len(),
    ensures
        line == line_of(text@, index as int),
{
    let mut line: usize = 0;
    let mut i: usize = 0;
    while i < index
        invariant
            i <= index <= text@.len(),
            line == line_of(text@, i as int),
            line <= i,
        decreases index - i,
    {
        if text[i] == '\n' {
            line = line + 1;
        }
        i = i + 1;
    }
    line
}

/// The first position of the line that position `index` is on.
pub fn start_of_line(text: &[char], index: usize) -> (start: usize)
    requires
        index <= text@.len(),
    ensures
        start == line_start(text@, index as int),
{
    let mut i: usize = index;
    while i > 0 && text[i - 1] != '\n'
        invariant
            i <= index <= text@.len(),
            line_start(text@, i as int) == line_start(text@, index as int),
        decreases i,
    {
        i = i - 1;
    }
    i
}

/// The last position of the line that position `index` is on.
pub fn end_of_line(text: &[char], index: usize) -> (end: usize)
    requires
        index <= text@.len(),
    ensures
        end == line_end(text@, index as int),
        index <= end <= text@.len(),
{
    let mut i: usize = index;
    while i < text.len() && text[i] != '\n'
        invariant
            index <= i <= text@.len(),
            line_end(text@, i as int) == line_end(text@, index as int),
        decreases text@.len() - i,
    {
        i = i + 1;
    }
    i
}

/// The first position of line `n`, if there is such a line.
pub fn nth_line_start(text: &[char], n: usize) -> (start: Option<usize>)
    ensures
        match start {
            Some(s) => line_begin(text@, n as nat) == Some(s as int) && s <= text@.len(),
            None => line_begin(text@, n as nat) is None,
        },
{
    let mut from: usize = 0;
    let mut left: usize = n;
    while left > 0
        invariant
            from <= text@.len(),
            line_begin_from(text@, from as int, left as nat) == line_begin(text@, n as nat),
        decreases left,
    {
        let end: usize = end_of_line(text, from);
        if end >= text.len() {
            return None;
        }
        from = end + 1;
        left = left - 1;
    }
    Some(from)
}

} // verus!
