//! Position resolution: mapping character offsets of a span to line/column
//! coordinates by walking the buffer's lines in order.
//!
//! A line runs up to and including its terminating `'\n'` (the last line may
//! lack one), so line lengths accumulate to the buffer length. An offset that
//! equals the accumulated end of a line resolves into that line, with the
//! column equal to the line length. An empty buffer is treated as a single
//! empty line, so that offset `0` always resolves.

use vstd::prelude::*;

verus! {

/// A resolved coordinate: `line` is a 0-based index into the buffer's line
/// sequence, `col` a 0-based character offset within that line.
#[derive(Debug, Clone, Copy, PartialEq, Eq, Structural)]
pub struct Pos {
    pub line: usize,
    pub col: usize,
}

/// A span resolved onto a single line: both endpoints share `line`.
#[derive(Debug, Clone, Copy, PartialEq, Eq, Structural)]
pub struct PosSpan {
    pub line: usize,
    pub col_start: usize,
    pub col_end: usize,
}

/// Where the line that starts at `ls` ends: one past its `'\n'`, or the end
/// of the buffer when no `'\n'` follows.
pub open spec fn next_line_start(s: Seq<char>, ls: int) -> int
    recommends
        0 <= ls <= s.len(),
    decreases s.len() - ls,
{
    if ls >= s.len() {
        s.len() as int
    } else if s[ls] == '\n' {
        ls + 1
    } else {
        next_line_start(s, ls + 1)
    }
}

/// A line that starts inside the buffer ends after it starts and no later
/// than the buffer does.
pub proof fn lemma_next_line_start_bounds(s: Seq<char>, ls: int)
    requires
        0 <= ls < s.len(),
    ensures
        ls < next_line_start(s, ls) <= s.len(),
    decreases s.len() - ls,
{
    if s[ls] == '\n' {
    } else if ls + 1 < s.len() {
        lemma_next_line_start_bounds(s, ls + 1);
    }
}

/// The text of the line that starts at `ls`, terminator included.
pub open spec fn line_text(s: Seq<char>, ls: int) -> Seq<char>
    recommends
        0 <= ls <= s.len(),
{
    s.subrange(ls, next_line_start(s, ls))
}

/// One step of the resolving walk: the line with index `idx` starts at `ls`;
/// the first line whose accumulated end reaches `off` is the answer, given as
/// `(line index, line start)`. The column is `off` minus the line start.
pub open spec fn resolve_rec(s: Seq<char>, ls: int, idx: int, off: int) -> Option<(int, int)>
    decreases s.len() - ls
        when 0 <= ls
        via resolve_rec_decreases
{
    if ls >= s.len() {
        None
    } else if next_line_start(s, ls) >= off {
        Some((idx, ls))
    } else {
        resolve_rec(s, next_line_start(s, ls), idx + 1, off)
    }
}

#[via_fn]
proof fn resolve_rec_decreases(s: Seq<char>, ls: int, idx: int, off: int) {
    if 0 <= ls < s.len() {
        lemma_next_line_start_bounds(s, ls);
    }
}

/// Where offset `off` falls in buffer `s`, walking the lines from the start.
/// An empty buffer counts as one empty line, so offset `0` resolves there.
pub open spec fn resolve(s: Seq<char>, off: int) -> Option<(int, int)> {
    if s.len() == 0 {
        if off == 0 {
            Some((0int, 0int))
        } else {
            None
        }
    } else {
        resolve_rec(s, 0, 0, off)
    }
}

/// The line index where `off` resolves, when it does.
pub open spec fn resolved_line(s: Seq<char>, off: int) -> int {
    (resolve(s, off)->0).0
}

/// The line start where `off` resolves, when it does.
pub open spec fn resolved_ls(s: Seq<char>, off: int) -> int {
    (resolve(s, off)->0).1
}

/// The column where `off` resolves, when it does.
pub open spec fn resolved_col(s: Seq<char>, off: int) -> int {
    off - resolved_ls(s, off)
}

/// The walk always finds an in-bounds offset, and what it finds is sound:
/// the line starts at or before the offset, grows by at least one line start
/// per index, ends at or after the offset, and lies strictly inside the
/// buffer. An offset strictly past the line's own start has a positive
/// column.
pub proof fn lemma_resolve_rec_props(s: Seq<char>, ls0: int, idx0: int, off: int)
    requires
        0 <= ls0 <= off <= s.len(),
        ls0 < s.len(),
    ensures
        resolve_rec(s, ls0, idx0, off) is Some,
        ({
            let (idx, ls) = resolve_rec(s, ls0, idx0, off)->0;
            &&& idx0 <= idx
            &&& ls0 <= ls <= off <= next_line_start(s, ls)
            &&& ls < s.len()
            &&& idx - idx0 <= ls - ls0
            &&& (idx == idx0 ==> ls == ls0)
            &&& (idx != idx0 ==> ls > ls0 && off > ls)
        }),
    decreases s.len() - ls0,
{
    lemma_next_line_start_bounds(s, ls0);
    let le = next_line_start(s, ls0);
    if le >= off {
    } else {
        lemma_resolve_rec_props(s, le, idx0 + 1, off);
    }
}

/// Resolving a later offset from the line already found for an earlier one
/// gives the same answer as walking from the start: the lines skipped on the
/// way to the earlier offset end before the later one too.
pub proof fn lemma_resolve_rec_continue(s: Seq<char>, ls0: int, idx0: int, a: int, b: int)
    requires
        0 <= ls0 <= a <= b,
        ls0 < s.len(),
        resolve_rec(s, ls0, idx0, a) is Some,
    ensures
        ({
            let (ia, lsa) = resolve_rec(s, ls0, idx0, a)->0;
            resolve_rec(s, lsa, ia, b) == resolve_rec(s, ls0, idx0, b)
        }),
    decreases s.len() - ls0,
{
    lemma_next_line_start_bounds(s, ls0);
    let le = next_line_start(s, ls0);
    if le >= a {
    } else {
        lemma_resolve_rec_continue(s, le, idx0 + 1, a, b);
    }
}

/// The end of the line that starts at `ls`, found by scanning for a `'\n'`.
pub fn find_line_end(input: &str, ls: usize) -> (le: usize)
    requires
        ls <= input@.len(),
    ensures
        le == next_line_start(input@, ls as int),
        ls <= le <= input@.len(),
{
    let n = input.unicode_len();
    let mut i = ls;
    loop
        invariant
            ls <= i <= n,
            n == input@.len(),
            next_line_start(input@, ls as int) == next_line_start(input@, i as int),
        ensures
            i <= n,
            ({
                let le = if i == n {
                    n as int
                } else {
                    i + 1
                };
                le == next_line_start(input@, ls as int)
            }),
            i < n ==> input@[i as int] == '\n',
        decreases n - i,
    {
        if i >= n {
            break;
        }
        let c = input.get_char(i);
        if c == '\n' {
            break;
        }
        i = i + 1;
    }
    if i == n {
        n
    } else {
        i + 1
    }
}

/// Resolve the two offsets of a span, both within the buffer, to positions.
/// The first loop walks lines until the span's start is reached; the second
/// continues from that line until the end offset is reached, exactly as
/// `resolve` describes.
pub fn resolve_span(input: &str, start: usize, end: usize) -> (r: (Pos, Pos))
    requires
        start <= end,
        end <= input@.len(),
    ensures
        resolve(input@, start as int) == Some((r.0.line as int, start - r.0.col)),
        resolve(input@, end as int) == Some((r.1.line as int, end - r.1.col)),
        r.0.col <= start,
        r.1.col <= end,
        start <= next_line_start(input@, start - r.0.col),
        end <= next_line_start(input@, end - r.1.col),
        r.0.line <= r.1.line,
        r.0.line == r.1.line ==> start - r.0.col == end - r.1.col && r.0.col <= r.1.col,
        r.0.line < r.1.line ==> r.1.col >= 1,
        input@.len() == 0 ==> r.1.line == 0,
        input@.len() > 0 ==> r.1.line < input@.len(),
{
    let n = input.unicode_len();
    if n == 0 {
        return (Pos { line: 0, col: 0 }, Pos { line: 0, col: 0 });
    }
    let ghost s = input@;
    let mut ls: usize = 0;
    let mut idx: usize = 0;
    loop
        invariant
            ls <= start,
            (ls as int) < s.len(),
            idx <= ls,
            start <= end <= s.len(),
            s == input@,
            resolve_rec(s, ls as int, idx as int, start as int) == resolve_rec(s, 0, 0, start as int),
        ensures
            ls <= start,
            (ls as int) < s.len(),
            idx <= ls,
            s == input@,
            resolve_rec(s, 0, 0, start as int) == Some((idx as int, ls as int)),
            next_line_start(s, ls as int) >= start,
        decreases s.len() - ls,
    {
        let le = find_line_end(input, ls);
        if le >= start {
            break;
        }
        proof {
            lemma_next_line_start_bounds(s, ls as int);
        }
        ls = le;
        idx = idx + 1;
    }
    let start_pos = Pos { line: idx, col: start - ls };
    let ghost start_ls = ls as int;
    let ghost start_idx = idx as int;
    proof {
        lemma_resolve_rec_continue(s, 0, 0, start as int, end as int);
    }
    loop
        invariant
            ls <= end <= s.len(),
            (ls as int) < s.len(),
            idx <= ls,
            s == input@,
            start_idx <= idx,
            idx == start_idx ==> (ls as int) == start_ls,
            resolve_rec(s, ls as int, idx as int, end as int) == resolve_rec(s, 0, 0, end as int),
        ensures
            ls <= end,
            (ls as int) < s.len(),
            idx <= ls,
            resolve_rec(s, 0, 0, end as int) == Some((idx as int, ls as int)),
            next_line_start(s, ls as int) >= end,
            start_idx <= idx,
            idx == start_idx ==> (ls as int) == start_ls,
        decreases s.len() - ls,
    {
        let le = find_line_end(input, ls);
        if le >= end {
            break;
        }
        proof {
            lemma_next_line_start_bounds(s, ls as int);
        }
        ls = le;
        idx = idx + 1;
    }
    let end_pos = Pos { line: idx, col: end - ls };
    proof {
        if end_pos.line > start_pos.line {
            lemma_resolve_rec_props(s, start_ls, start_idx, end as int);
        }
    }
    (start_pos, end_pos)
}

} // verus!
