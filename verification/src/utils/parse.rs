//! The text form of vectors and matrices, and the pieces of an expression
//! such as `[1 2 3] + [4 5 6]` that do not depend on how a number is read.
use vstd::prelude::*;
use vstd::string::{StrSliceExecFns, StringExecFns};

verus! {

/// The cells joined by the separator: `c0 sep c1 sep ... cn`.
pub open spec fn joined(cells: Seq<Seq<char>>, sep: Seq<char>) -> Seq<char>
    decreases cells.len(),
{
    if cells.len() == 0 {
        Seq::empty()
    } else if cells.len() == 1 {
        cells[0]
    } else {
        joined(cells.drop_last(), sep) + sep + cells.last()
    }
}

/// The text of each of the strings.
pub open spec fn texts(cells: Seq<String>) -> Seq<Seq<char>> {
    Seq::new(cells.len(), |i: int| cells[i]@)
}

/// `inner` between square brackets.
pub open spec fn bracketed(inner: Seq<char>) -> Seq<char> {
    seq!['['] + inner + seq![']']
}

/// The text of a vector: its cells separated by one space, in brackets.
pub open spec fn vector_text(cells: Seq<Seq<char>>) -> Seq<char> {
    bracketed(joined(cells, seq![' ']))
}

/// Row `r` of a matrix of `cols` columns stored row by row.
pub open spec fn row_of(cells: Seq<Seq<char>>, cols: int, r: int) -> Seq<Seq<char>> {
    cells.subrange(r * cols, r * cols + cols)
}

/// The text of a matrix of `rows` rows and `cols` columns stored row by row:
/// the cells of a row separated by one space, the rows by a semicolon and a
/// space, all in brackets.
pub open spec fn matrix_text(rows: int, cols: int, cells: Seq<Seq<char>>) -> Seq<char> {
    bracketed(
        joined(
            Seq::new(rows as nat, |r: int| joined(row_of(cells, cols, r), seq![' '])),
            seq![';', ' '],
        ),
    )
}

/// The cells from `from` up to `to`, joined by `sep`.
fn join_range(cells: &Vec<String>, from: usize, to: usize, sep: &str) -> (r: String)
    requires
        from <= to <= cells@.len(),
    ensures
        r@ == joined(texts(cells@).subrange(from as int, to as int), sep@),
{
    let mut out = String::new();
    let mut i: usize = from;
    while i < to
        invariant
            from <= i <= to <= cells@.len(),
            out@ == joined(texts(cells@).subrange(from as int, i as int), sep@),
        decreases to - i,
    {
        let ghost before = texts(cells@).subrange(from as int, i as int);
        let ghost after = texts(cells@).subrange(from as int, i + 1);
        proof {
            assert(after.drop_last() =~= before);
            assert(after.last() == cells@[i as int]@);
        }
        if i > from {
            out.append(sep);
        } else {
            assert(before.len() == 0);
            assert(out@ =~= Seq::<char>::empty());
        }
        out.append(cells[i].as_str());
        assert(out@ =~= joined(after, sep@)) by {
            if i > from {
                assert(after.len() > 1);
            } else {
                assert(after.len() == 1);
            }
        }
        i += 1;
    }
    out
}

/// The text of a vector with the given cells: `[c0 c1 c2]`.
pub fn format_vector(cells: &Vec<String>) -> (r: String)
    ensures
        r@ == vector_text(texts(cells@)),
{
    proof {
        reveal_strlit("[");
        reveal_strlit("]");
        reveal_strlit(" ");
        assert("["@ =~= seq!['[']);
        assert("]"@ =~= seq![']']);
        assert(" "@ =~= seq![' ']);
    }
    assert(texts(cells@).subrange(0, cells@.len() as int) =~= texts(cells@));
    let inner = join_range(cells, 0, cells.len(), " ");
    assert(inner@ == joined(texts(cells@), seq![' ']));
    let mut out = String::from_str("[");
    out.append(inner.as_str());
    out.append("]");
    assert(out@ =~= seq!['['] + inner@ + seq![']']);
    out
}

/// The text of a matrix of `rows` rows and `cols` columns with the given
/// cells, stored row by row: `[c00 c01; c10 c11]`.
pub fn format_matrix(rows: usize, cols: usize, cells: &Vec<String>) -> (r: String)
    requires
        rows * cols <= cells@.len(),
    ensures
        r@ == matrix_text(rows as int, cols as int, texts(cells@)),
{
    proof {
        reveal_strlit("[");
        reveal_strlit("]");
        reveal_strlit(" ");
        reveal_strlit("; ");
        assert("["@ =~= seq!['[']);
        assert("]"@ =~= seq![']']);
        assert(" "@ =~= seq![' ']);
        assert("; "@ =~= seq![';', ' ']);
    }
    let total = cells.len();
    let ghost lines = Seq::new(
        rows as nat,
        |r: int| joined(row_of(texts(cells@), cols as int, r), seq![' ']),
    );
    let mut out = String::from_str("[");
    let mut body = String::new();
    let mut r: usize = 0;
    while r < rows
        invariant
            0 <= r <= rows,
            rows * cols <= cells@.len(),
            cells@.len() == total,
            " "@ == seq![' '],
            "; "@ == seq![';', ' '],
            lines == Seq::new(
                rows as nat,
                |r: int| joined(row_of(texts(cells@), cols as int, r), seq![' ']),
            ),
            body@ == joined(lines.subrange(0, r as int), seq![';', ' ']),
        decreases rows - r,
    {
        proof {
            assert(0 <= r * cols && r * cols + cols <= rows * cols) by (nonlinear_arith)
                requires
                    0 <= r < rows,
                    0 <= cols,
            ;
        }
        let from = r * cols;
        let row = join_range(cells, from, from + cols, " ");
        let ghost before = lines.subrange(0, r as int);
        let ghost after = lines.subrange(0, r + 1);
        proof {
            assert(after.drop_last() =~= before);
            assert(after.last() == lines[r as int]);
            assert(row@ == lines[r as int]);
        }
        if r > 0 {
            body.append("; ");
        } else {
            assert(before.len() == 0);
            assert(body@ =~= Seq::<char>::empty());
        }
        body.append(row.as_str());
        assert(body@ =~= joined(after, seq![';', ' '])) by {
            if r > 0 {
                assert(after.len() > 1);
            } else {
                assert(after.len() == 1);
            }
        }
        r += 1;
    }
    assert(lines.subrange(0, rows as int) =~= lines);
    out.append(body.as_str());
    out.append("]");
    assert(out@ =~= seq!['['] + body@ + seq![']']);
    out
}

/// One of the four operators of an expression.
pub open spec fn is_operator(c: char) -> bool {
    c == '+' || c == '-' || c == '*' || c == '/'
}

/// How many brackets are open before position `i`: opening brackets less
/// closing brackets among the first `i` characters.
pub open spec fn depth(s: Seq<char>, i: int) -> int
    decreases i,
{
    if i <= 0 {
        0
    } else if s[i - 1] == '[' {
        depth(s, i - 1) + 1
    } else if s[i - 1] == ']' {
        depth(s, i - 1) - 1
    } else {
        depth(s, i - 1)
    }
}

/// An operator stands at position `i`, outside every bracket.
pub open spec fn is_top_operator(s: Seq<char>, i: int) -> bool {
    0 <= i < s.len() && is_operator(s[i]) && depth(s, i) == 0
}

/// The first operator of the expression that stands outside every bracket,
/// with its position counted in characters; `None` where there is none.
pub fn find_operator(expr: &str) -> (r: Option<(usize, char)>)
    ensures
        match r {
            Some((i, c)) => is_top_operator(expr@, i as int) && c == expr@[i as int] && forall|
                j: int,
            | 0 <= j < i ==> !is_top_operator(expr@, j),
            None => forall|j: int| 0 <= j < expr@.len() ==> !is_top_operator(expr@, j),
        },
{
    let n = expr.unicode_len();
    let mut open: usize = 0;
    let mut closed: usize = 0;
    let mut i: usize = 0;
    while i < n
        invariant
            0 <= i <= n,
            n == expr@.len(),
            open <= i,
            closed <= i,
            depth(expr@, i as int) == open - closed,
            forall|j: int| 0 <= j < i ==> !is_top_operator(expr@, j),
        decreases n - i,
    {
        let c = expr.get_char(i);
        if c == '[' {
            open += 1;
        } else if c == ']' {
            closed += 1;
        } else if (c == '+' || c == '-' || c == '*' || c == '/') && open == closed {
            return Some((i, c));
        }
        i += 1;
    }
    None
}

/// Two sequences that were to be combined element by element differ in length.
#[derive(Debug, Clone, Copy, PartialEq, Eq)]
pub struct DimensionMismatch {
    /// The number of elements on the left.
    pub left: usize,
    /// The number of elements on the right.
    pub right: usize,
}

/// `r` holds `f` of the first `n` pairs of elements of `a` and `b`.
pub open spec fn is_zipped<T, F: Fn(T, T) -> T>(
    r: Seq<T>,
    a: Seq<T>,
    b: Seq<T>,
    f: F,
    n: int,
) -> bool {
    r.len() == n && forall|i: int| 0 <= i < n ==> f.ensures((a[i], b[i]), #[trigger] r[i])
}

/// The elements of `a` and `b` combined pair by pair with `f`, or the two
/// lengths where they differ.
pub fn vector_elementwise_op<T: Copy, F: Fn(T, T) -> T>(a: &Vec<T>, b: &Vec<T>, f: F) -> (r: Result<
    Vec<T>,
    DimensionMismatch,
>)
    requires
        forall|x: T, y: T| #[trigger] f.requires((x, y)),
    ensures
        a@.len() != b@.len() ==> r == Err::<Vec<T>, DimensionMismatch>(
            DimensionMismatch { left: a@.len() as usize, right: b@.len() as usize },
        ),
        a@.len() == b@.len() ==> r is Ok && is_zipped(r->Ok_0@, a@, b@, f, a@.len() as int),
{
    if a.len() != b.len() {
        return Err(DimensionMismatch { left: a.len(), right: b.len() });
    }
    let mut out: Vec<T> = Vec::new();
    let mut i: usize = 0;
    while i < a.len()
        invariant
            0 <= i <= a@.len(),
            a@.len() == b@.len(),
            forall|x: T, y: T| #[trigger] f.requires((x, y)),
            is_zipped(out@, a@, b@, f, i as int),
        decreases a@.len() - i,
    {
        let v = f(a[i], b[i]);
        out.push(v);
        i += 1;
    }
    Ok(out)
}

} // verus!
