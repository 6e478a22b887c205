//! Layouts of points in the ambient vector: interleaved complex pairs
//! and row-major / column-major matrices. The element type is generic:
//! a packing only moves entries, it never looks at them.

use vstd::prelude::*;

verus! {

/// `i * m + j` stays below `n * m` for `i < n`, `j < m`.
pub proof fn lemma_row_major_index(i: int, j: int, n: int, m: int)
    by (nonlinear_arith)
    requires
        0 <= i < n,
        0 <= j < m,
    ensures
        0 <= i * m + j < n * m,
        i * m + j < m * n,
        i * m + j >= i * m,
{
}

/// `i + j * n` stays below `n * m` for `i < n`, `j < m`.
pub proof fn lemma_col_major_index(i: int, j: int, n: int, m: int)
    by (nonlinear_arith)
    requires
        0 <= i < n,
        0 <= j < m,
    ensures
        0 <= i + j * n < n * m,
        i + j * n < m * n,
        i + j * n < n * j + n,
{
}

/// Entry `(i, j)` of a row-major sequence with `m` columns.
pub open spec fn rm_at<T>(data: Seq<T>, m: int, i: int, j: int) -> T {
    data[i * m + j]
}

/// Entry `(i, j)` of a column-major sequence with `n` rows.
pub open spec fn cm_at<T>(data: Seq<T>, n: int, i: int, j: int) -> T {
    data[i + j * n]
}

/// A row-major matrix of `rows x cols` entries.
#[derive(Clone, Debug, PartialEq, Eq)]
pub struct Dense<T> {
    /// Number of rows.
    pub rows: usize,
    /// Number of columns.
    pub cols: usize,
    /// Row-major entries, `rows * cols` of them.
    pub data: Vec<T>,
}

impl<T> Dense<T> {
    /// The entry count matches the shape.
    pub open spec fn wf(&self) -> bool {
        self.data@.len() == self.rows * self.cols
    }

    /// Entry `(i, j)`.
    pub open spec fn at(&self, i: int, j: int) -> T {
        rm_at(self.data@, self.cols as int, i, j)
    }
}

/// An entry-by-entry copy of `x`.
pub fn copy_vec<T: Copy>(x: &Vec<T>) -> (out: Vec<T>)
    ensures
        out@ == x@,
{
    let mut out: Vec<T> = Vec::new();
    let mut k: usize = 0;
    while k < x.len()
        invariant
            k <= x@.len(),
            out@ == x@.subrange(0, k as int),
        decreases x@.len() - k,
    {
        out.push(x[k]);
        k = k + 1;
        assert(out@ =~= x@.subrange(0, k as int));
    }
    assert(out@ =~= x@);
    out
}

/// `count` copies of `value`.
pub fn filled<T: Copy>(value: T, count: usize) -> (out: Vec<T>)
    ensures
        out@ == Seq::new(count as nat, |k: int| value),
{
    let mut out: Vec<T> = Vec::new();
    let mut k: usize = 0;
    while k < count
        invariant
            k <= count,
            out@ == Seq::new(k as nat, |t: int| value),
        decreases count - k,
    {
        out.push(value);
        k = k + 1;
        assert(out@ =~= Seq::new(k as nat, |t: int| value));
    }
    out
}

/// Interleaving of `re` and `im` truncated to the shorter of the two.
pub open spec fn interleaved<T>(re: Seq<T>, im: Seq<T>) -> Seq<T> {
    let n = if re.len() <= im.len() { re.len() } else { im.len() };
    Seq::new(2 * n, |k: int| if k % 2 == 0 { re[k / 2] } else { im[k / 2] })
}

/// Interleaved pack `(re_0, im_0, re_1, im_1, ...)`. The longer input is
/// truncated to the length of the shorter.
pub fn interleave<T: Copy>(re: &Vec<T>, im: &Vec<T>) -> (out: Vec<T>)
    ensures
        out@ == interleaved(re@, im@),
{
    let n = if re.len() <= im.len() { re.len() } else { im.len() };
    let mut out: Vec<T> = Vec::new();
    let mut k: usize = 0;
    while k < n
        invariant
            n == if re@.len() <= im@.len() { re@.len() } else { im@.len() },
            k <= n,
            out@.len() == 2 * k,
            forall|t: int| 0 <= t < 2 * k ==> out@[t] == (if t % 2 == 0 { re@[t / 2] } else { im@[t / 2] }),
        decreases n - k,
    {
        out.push(re[k]);
        out.push(im[k]);
        k = k + 1;
    }
    assert(out@ =~= interleaved(re@, im@));
    out
}

/// The even-indexed entries of `x`.
pub open spec fn evens<T>(x: Seq<T>) -> Seq<T> {
    Seq::new(x.len() / 2, |k: int| x[2 * k])
}

/// The odd-indexed entries of `x`.
pub open spec fn odds<T>(x: Seq<T>) -> Seq<T> {
    Seq::new(x.len() / 2, |k: int| x[2 * k + 1])
}

/// Split an interleaved vector into `(re, im)`. `None` when the length
/// is odd.
pub fn deinterleave<T: Copy>(x: &Vec<T>) -> (r: Option<(Vec<T>, Vec<T>)>)
    ensures
        r is None <==> x@.len() % 2 != 0,
        r matches Some((re, im)) ==> re@ == evens(x@) && im@ == odds(x@),
{
    let len = x.len();
    if len % 2 != 0 {
        return None;
    }
    let n = len / 2;
    let mut re: Vec<T> = Vec::new();
    let mut im: Vec<T> = Vec::new();
    let mut k: usize = 0;
    while k < n
        invariant
            n == x@.len() / 2,
            len == x@.len(),
            x@.len() % 2 == 0,
            k <= n,
            re@.len() == k,
            im@.len() == k,
            forall|t: int| 0 <= t < k ==> re@[t] == x@[2 * t] && im@[t] == x@[2 * t + 1],
        decreases n - k,
    {
        assert(2 * k + 1 < x@.len());
        re.push(x[2 * k]);
        im.push(x[2 * k + 1]);
        k = k + 1;
    }
    assert(re@ =~= evens(x@));
    assert(im@ =~= odds(x@));
    Some((re, im))
}

/// Splitting an interleaved pack gives back the two halves, and packing
/// the halves of an even-length vector gives back the vector.
pub proof fn lemma_interleave_round_trip<T>(re: Seq<T>, im: Seq<T>, x: Seq<T>)
    requires
        re.len() == im.len(),
        x.len() % 2 == 0,
    ensures
        interleaved(re, im).len() % 2 == 0,
        evens(interleaved(re, im)) == re,
        odds(interleaved(re, im)) == im,
        interleaved(evens(x), odds(x)) == x,
{
    let p = interleaved(re, im);
    assert forall|k: int| 0 <= k < re.len() implies p[2 * k] == re[k] && p[2 * k + 1] == im[k] by {
        assert((2 * k) % 2 == 0 && (2 * k) / 2 == k);
        assert((2 * k + 1) % 2 == 1 && (2 * k + 1) / 2 == k);
    }
    assert(evens(p) =~= re);
    assert(odds(p) =~= im);
    let q = interleaved(evens(x), odds(x));
    assert forall|t: int| 0 <= t < x.len() implies q[t] == x[t] by {
        if t % 2 == 0 {
            assert(2 * (t / 2) == t);
        } else {
            assert(2 * (t / 2) + 1 == t);
        }
    }
    assert(q =~= x);
}

/// Column-major flattening: entry `(i, j)` of an `n x m` matrix lands at
/// `i + j * n` (manopt `X(:)`).
pub open spec fn is_column_major<T>(mat: Dense<T>, out: Seq<T>) -> bool {
    &&& out.len() == mat.rows * mat.cols
    &&& forall|i: int, j: int|
        0 <= i < mat.rows && 0 <= j < mat.cols ==> #[trigger] cm_at(out, mat.rows as int, i, j)
            == mat.at(i, j)
}

/// Column-major flatten of a row-major matrix.
pub fn column_major<T: Copy>(mat: &Dense<T>) -> (out: Vec<T>)
    requires
        mat.wf(),
    ensures
        is_column_major(*mat, out@),
{
    let n = mat.rows;
    let m = mat.cols;
    let len = mat.data.len();
    let mut out: Vec<T> = Vec::new();
    let mut j: usize = 0;
    while j < m
        invariant
            n == mat.rows,
            m == mat.cols,
            len == mat.data@.len(),
            mat.wf(),
            j <= m,
            out@.len() == j * n,
            forall|i: int, jj: int|
                0 <= i < n && 0 <= jj < j ==> #[trigger] cm_at(out@, n as int, i, jj) == mat.at(i, jj),
        decreases m - j,
    {
        let mut i: usize = 0;
        while i < n
            invariant
                n == mat.rows,
                m == mat.cols,
                len == mat.data@.len(),
                mat.wf(),
                j < m,
                i <= n,
                out@.len() == j * n + i,
                forall|ii: int, jj: int|
                    0 <= ii < n && 0 <= jj < j ==> #[trigger] cm_at(out@, n as int, ii, jj) == mat.at(ii, jj),
                forall|ii: int| 0 <= ii < i ==> #[trigger] cm_at(out@, n as int, ii, j as int) == mat.at(ii, j as int),
            decreases n - i,
        {
            proof {
                lemma_row_major_index(i as int, j as int, n as int, m as int);
                lemma_col_major_index(i as int, j as int, n as int, m as int);
                assert(i + j * n == out@.len());
            }
            let ghost prev = out@;
            out.push(mat.data[i * m + j]);
            proof {
                assert forall|ii: int, jj: int|
                    0 <= ii < n && 0 <= jj < j implies #[trigger] cm_at(out@, n as int, ii, jj) == mat.at(ii, jj) by {
                    lemma_col_major_index(ii, jj, n as int, j as int);
                    assert(cm_at(prev, n as int, ii, jj) == mat.at(ii, jj));
                }
                assert forall|ii: int| 0 <= ii < i + 1 implies #[trigger] cm_at(out@, n as int, ii, j as int) == mat.at(ii, j as int) by {
                    if ii < i {
                        assert(cm_at(prev, n as int, ii, j as int) == mat.at(ii, j as int));
                    }
                }
            }
            i = i + 1;
        }
        proof {
            assert((j + 1) * n == j * n + n) by (nonlinear_arith);
        }
        j = j + 1;
    }
    assert(m * n == n * m) by (nonlinear_arith);
    out
}

/// Row-major matrix whose entry `(i, j)` is `x[i + j * n]`.
pub fn from_column_major<T: Copy>(n: usize, m: usize, x: &Vec<T>) -> (mat: Dense<T>)
    requires
        x@.len() == n * m,
    ensures
        mat.wf(),
        mat.rows == n,
        mat.cols == m,
        is_column_major(mat, x@),
{
    let len = x.len();
    let mut data: Vec<T> = Vec::new();
    let mut i: usize = 0;
    while i < n
        invariant
            x@.len() == n * m,
            len == x@.len(),
            i <= n,
            data@.len() == i * m,
            forall|ii: int, j: int|
                0 <= ii < i && 0 <= j < m ==> #[trigger] rm_at(data@, m as int, ii, j) == cm_at(x@, n as int, ii, j),
        decreases n - i,
    {
        let mut j: usize = 0;
        while j < m
            invariant
                x@.len() == n * m,
                len == x@.len(),
                i < n,
                j <= m,
                data@.len() == i * m + j,
                forall|ii: int, jj: int|
                    0 <= ii < i && 0 <= jj < m ==> #[trigger] rm_at(data@, m as int, ii, jj) == cm_at(x@, n as int, ii, jj),
                forall|jj: int| 0 <= jj < j ==> #[trigger] rm_at(data@, m as int, i as int, jj) == cm_at(x@, n as int, i as int, jj),
            decreases m - j,
        {
            proof {
                lemma_col_major_index(i as int, j as int, n as int, m as int);
                lemma_row_major_index(i as int, j as int, n as int, m as int);
                assert(i * m + j == data@.len());
            }
            let ghost prev = data@;
            data.push(x[i + j * n]);
            proof {
                assert forall|ii: int, jj: int|
                    0 <= ii < i && 0 <= jj < m implies #[trigger] rm_at(data@, m as int, ii, jj) == cm_at(x@, n as int, ii, jj) by {
                    lemma_row_major_index(ii, jj, i as int, m as int);
                    assert(rm_at(prev, m as int, ii, jj) == cm_at(x@, n as int, ii, jj));
                }
                assert forall|jj: int| 0 <= jj < j + 1 implies #[trigger] rm_at(data@, m as int, i as int, jj) == cm_at(x@, n as int, i as int, jj) by {
                    if jj < j {
                        assert(rm_at(prev, m as int, i as int, jj) == cm_at(x@, n as int, i as int, jj));
                    }
                }
            }
            j = j + 1;
        }
        proof {
            assert((i + 1) * m == i * m + m) by (nonlinear_arith);
        }
        i = i + 1;
    }
    let mat = Dense { rows: n, cols: m, data };
    assert(forall|ii: int, jj: int| 0 <= ii < n && 0 <= jj < m ==> #[trigger] mat.at(ii, jj) == rm_at(mat.data@, m as int, ii, jj));
    mat
}

/// A column-major vector and its row-major matrix determine each other.
pub proof fn lemma_column_major_unique<T>(a: Dense<T>, b: Dense<T>, x: Seq<T>, y: Seq<T>)
    requires
        a.wf(),
        b.wf(),
        a.rows == b.rows,
        a.cols == b.cols,
        is_column_major(a, x),
        is_column_major(b, y),
    ensures
        x == y <==> a.data@ == b.data@,
{
    let n = a.rows as int;
    let m = a.cols as int;
    if x == y {
        assert forall|t: int| 0 <= t < n * m implies a.data@[t] == b.data@[t] by {
            let i = t / m;
            let j = t % m;
            assert(t == i * m + j && 0 <= i < n && 0 <= j < m) by (nonlinear_arith)
                requires 0 <= t < n * m, m > 0, i == t / m, j == t % m;
            assert(cm_at(x, n, i, j) == a.at(i, j));
            assert(cm_at(y, n, i, j) == b.at(i, j));
        }
        assert(a.data@ =~= b.data@);
    }
    if a.data@ == b.data@ {
        assert forall|t: int| 0 <= t < n * m implies x[t] == y[t] by {
            let i = t % n;
            let j = t / n;
            assert(t == i + j * n && 0 <= i < n && 0 <= j < m) by (nonlinear_arith)
                requires 0 <= t < n * m, n > 0, i == t % n, j == t / n;
            assert(cm_at(x, n, i, j) == a.at(i, j));
            assert(cm_at(y, n, i, j) == b.at(i, j));
        }
        assert(x =~= y);
    }
}

} // verus!
