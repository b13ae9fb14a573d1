use vstd::prelude::*;
use vstd::string::StringSliceAdditionalSpecFns;

verus! {

/// A line/column range inside one block of text. Lines and columns count
/// from zero; `column_end` is one past the column just after the span.
#[derive(Clone, Copy, Debug, PartialEq, Eq, Structural)]
pub struct SourcePosition {
    pub line_start: usize,
    pub column_start: usize,
    pub line_end: usize,
    pub column_end: usize,
}

/// Number of newline bytes among the first `n` bytes of `t`.
pub open spec fn newlines_before(t: Seq<u8>, n: int) -> nat
    decreases n,
{
    if n <= 0 {
        0
    } else {
        newlines_before(t, n - 1) + if t[n - 1] == 10u8 { 1nat } else { 0nat }
    }
}

/// Offset at which the line holding offset `n` begins: just after the last
/// newline before `n`, or the start of the text.
pub open spec fn line_begin(t: Seq<u8>, n: int) -> int
    decreases n,
{
    if n <= 0 {
        0
    } else if t[n - 1] == 10u8 {
        n
    } else {
        line_begin(t, n - 1)
    }
}

/// The (line, column) coordinates of offset `n` in `t`.
pub open spec fn coords(t: Seq<u8>, n: int) -> (int, int) {
    (newlines_before(t, n) as int, n - line_begin(t, n))
}

/// The position of the span of `len` bytes at offset `start` of `t`.
pub open spec fn position_of(t: Seq<u8>, start: int, len: int) -> SourcePosition {
    SourcePosition {
        line_start: newlines_before(t, start) as usize,
        column_start: (start - line_begin(t, start)) as usize,
        line_end: newlines_before(t, start + len) as usize,
        column_end: (start + len - line_begin(t, start + len) + 1) as usize,
    }
}

/// The offset that a line and a column point at in `t`.
pub open spec fn locate(t: Seq<u8>, line: int, column: int) -> int {
    choose|n: int| 0 <= n <= t.len() && coords(t, n) == (line, column)
}

/// Whether `(l1, c1)` comes at or after `(l0, c0)` in lexicographic order.
pub open spec fn lex_ge(l1: int, c1: int, l0: int, c0: int) -> bool {
    l1 > l0 || (l1 == l0 && c1 >= c0)
}

/// A line begins at or before any offset on it, and there are no more
/// newlines before an offset than bytes.
pub proof fn lemma_line_begin_bounds(t: Seq<u8>, n: int)
    requires
        0 <= n <= t.len(),
    ensures
        0 <= line_begin(t, n) <= n,
        newlines_before(t, n) <= n,
    decreases n,
{
    if n > 0 {
        lemma_line_begin_bounds(t, n - 1);
    }
}

/// Later offsets have at least as many newlines before them.
pub proof fn lemma_newlines_monotone(t: Seq<u8>, n: int, m: int)
    requires
        0 <= n <= m <= t.len(),
    ensures
        newlines_before(t, n) <= newlines_before(t, m),
    decreases m - n,
{
    if n < m {
        lemma_newlines_monotone(t, n, m - 1);
    }
}

/// Two offsets on the same line share the offset at which that line begins.
pub proof fn lemma_same_line_same_begin(t: Seq<u8>, n: int, m: int)
    requires
        0 <= n <= m <= t.len(),
        newlines_before(t, n) == newlines_before(t, m),
    ensures
        line_begin(t, n) == line_begin(t, m),
    decreases m - n,
{
    if n < m {
        lemma_newlines_monotone(t, n, m - 1);
        lemma_same_line_same_begin(t, n, m - 1);
    }
}

/// Distinct offsets have distinct coordinates.
pub proof fn lemma_coords_injective(t: Seq<u8>, n: int, m: int)
    requires
        0 <= n <= t.len(),
        0 <= m <= t.len(),
        coords(t, n) == coords(t, m),
    ensures
        n == m,
{
    if n <= m {
        lemma_same_line_same_begin(t, n, m);
    } else {
        lemma_same_line_same_begin(t, m, n);
    }
}

/// The coordinates of an offset lead back to that offset.
pub proof fn lemma_locate_coords(t: Seq<u8>, n: int)
    requires
        0 <= n <= t.len(),
    ensures
        locate(t, coords(t, n).0, coords(t, n).1) == n,
{
    let c = coords(t, n);
    assert(0 <= n <= t.len() && coords(t, n) == c);
    let k = locate(t, c.0, c.1);
    lemma_coords_injective(t, n, k);
}

/// A non-empty span resolves to an end at or after its start, and the
/// resolved start and end (the end column less the added one) point back at
/// exactly the bytes of the span.
pub proof fn lemma_position_recovers_span(t: Seq<u8>, start: int, len: int)
    requires
        0 <= start,
        0 < len,
        start + len <= t.len(),
        t.len() < usize::MAX,
    ensures
        ({
            let p = position_of(t, start, len);
            &&& lex_ge(
                p.line_end as int,
                p.column_end as int,
                p.line_start as int,
                p.column_start as int,
            )
            &&& locate(t, p.line_start as int, p.column_start as int) == start
            &&& locate(t, p.line_end as int, p.column_end - 1) == start + len
            &&& t.subrange(
                locate(t, p.line_start as int, p.column_start as int),
                locate(t, p.line_end as int, p.column_end - 1),
            ) == t.subrange(start, start + len)
        }),
{
    lemma_line_begin_bounds(t, start);
    lemma_line_begin_bounds(t, start + len);
    lemma_newlines_monotone(t, start, start + len);
    if newlines_before(t, start) == newlines_before(t, start + len) {
        lemma_same_line_same_begin(t, start, start + len);
    }
    lemma_locate_coords(t, start);
    lemma_locate_coords(t, start + len);
}

/// A zero-length span ends on its own line, one column past its start.
pub proof fn lemma_empty_span_position(t: Seq<u8>, start: int)
    requires
        0 <= start <= t.len(),
        t.len() < usize::MAX,
    ensures
        position_of(t, start, 0).line_end == position_of(t, start, 0).line_start,
        position_of(t, start, 0).column_end == position_of(t, start, 0).column_start + 1,
{
    lemma_line_begin_bounds(t, start);
}

/// Newline count and line-begin offset of offset `n` in `bytes`.
fn line_and_begin(bytes: &[u8], n: usize) -> (r: (usize, usize))
    requires
        n <= bytes@.len(),
    ensures
        r.0 == newlines_before(bytes@, n as int),
        r.1 == line_begin(bytes@, n as int),
        r.1 <= n,
{
    let mut count: usize = 0;
    let mut begin: usize = 0;
    let mut i: usize = 0;
    while i < n
        invariant
            i <= n <= bytes@.len(),
            count == newlines_before(bytes@, i as int),
            begin == line_begin(bytes@, i as int),
            count <= i,
            begin <= i,
        decreases n - i,
    {
        if bytes[i] == 10u8 {
            count = count + 1;
            begin = i + 1;
        }
        i = i + 1;
    }
    (count, begin)
}

/// Resolves the span of `len` bytes at byte offset `start` of `input` to its
/// line/column range.
pub fn get_position(input: &str, start: usize, len: usize) -> (r: SourcePosition)
    requires
        start + len <= input.spec_bytes().len(),
        input.spec_bytes().len() < usize::MAX,
    ensures
        r == position_of(input.spec_bytes(), start as int, len as int),
{
    let bytes = input.as_bytes();
    let end = start + len;
    let (line_start, begin_start) = line_and_begin(bytes, start);
    let (line_end, begin_end) = line_and_begin(bytes, end);
    SourcePosition {
        line_start,
        column_start: start - begin_start,
        line_end,
        column_end: end - begin_end + 1,
    }
}

} // verus!
