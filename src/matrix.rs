use rayon::iter::IntoParallelIterator;
use rayon::iter::ParallelIterator;
use vstd::prelude::*;

verus! {

pub open spec fn in_i32(x: int) -> bool {
    i32::MIN <= x <= i32::MAX
}

/// `m` has `n` rows of `n` entries each.
pub open spec fn is_square(m: Seq<Vec<i32>>, n: int) -> bool {
    &&& m.len() == n
    &&& forall|i: int| 0 <= i < n ==> (#[trigger] m[i]).len() == n
}

/// The sum of `row[t] * b[t][j]` over the first `k` indices `t`.
pub open spec fn row_dot(row: Seq<i32>, b: Seq<Vec<i32>>, j: int, k: int) -> int
    decreases k,
{
    if k <= 0 {
        0
    } else {
        row_dot(row, b, j, k - 1) + row[k - 1] * b[k - 1][j]
    }
}

/// Entry `(i, j)` of the product of the `n` by `n` matrices `a` and `b`.
pub open spec fn product_entry(a: Seq<Vec<i32>>, b: Seq<Vec<i32>>, i: int, j: int, n: int) -> int {
    row_dot(a[i]@, b, j, n)
}

/// Multiplying `row` by the `n` by `n` matrix `b` in `i32` overflows nowhere:
/// neither a single product nor any partial sum leaves the `i32` range.
pub open spec fn row_fits(row: Seq<i32>, b: Seq<Vec<i32>>, n: int) -> bool {
    &&& forall|j: int, k: int|
        0 <= j < n && 0 <= k < n ==> in_i32(#[trigger] row[k] * #[trigger] b[k][j])
    &&& forall|j: int, k: int| 0 <= j < n && 0 < k <= n ==> in_i32(#[trigger] row_dot(row, b, j, k))
}

/// Multiplying `a` by `b`, both `n` by `n`, in `i32` overflows nowhere.
pub open spec fn product_fits(a: Seq<Vec<i32>>, b: Seq<Vec<i32>>, n: int) -> bool {
    forall|i: int| 0 <= i < n ==> row_fits(#[trigger] a[i]@, b, n)
}

/// `r` is the product of the `n` by `n` matrices `a` and `b`.
pub open spec fn is_product(r: Seq<Vec<i32>>, a: Seq<Vec<i32>>, b: Seq<Vec<i32>>, n: int) -> bool {
    &&& is_square(r, n)
    &&& forall|i: int, j: int|
        0 <= i < n && 0 <= j < n ==> #[trigger] r[i][j] == product_entry(a, b, i, j, n)
}

/// One row of a matrix product: `row` times the square matrix `b`.
pub fn multiply_row(row: &Vec<i32>, b: &Vec<Vec<i32>>) -> (r: Vec<i32>)
    requires
        is_square(b@, row.len() as int),
        row_fits(row@, b@, row.len() as int),
    ensures
        r.len() == row.len(),
        forall|j: int| 0 <= j < r.len() ==> #[trigger] r[j] == row_dot(row@, b@, j, row.len() as int),
{
    let n = row.len();
    let mut out: Vec<i32> = vec![0i32; n];
    let mut k: usize = 0;
    while k < n
        invariant
            n == row.len(),
            is_square(b@, n as int),
            row_fits(row@, b@, n as int),
            0 <= k <= n,
            out.len() == n,
            forall|j: int| 0 <= j < n ==> #[trigger] out[j] == row_dot(row@, b@, j, k as int),
        decreases n - k,
    {
        let val = row[k];
        let row2 = &b[k];
        let mut j: usize = 0;
        while j < n
            invariant
                n == row.len(),
                is_square(b@, n as int),
                row_fits(row@, b@, n as int),
                0 <= k < n,
                0 <= j <= n,
                val == row[k as int],
                row2 == b[k as int],
                out.len() == n,
                forall|t: int| 0 <= t < j ==> #[trigger] out[t] == row_dot(row@, b@, t, k + 1),
                forall|t: int| j <= t < n ==> #[trigger] out[t] == row_dot(row@, b@, t, k as int),
            decreases n - j,
        {
            assert(in_i32(row@[k as int] * b@[k as int][j as int]));
            assert(in_i32(row_dot(row@, b@, j as int, k + 1)));
            let prod = val * row2[j];
            out[j] = out[j] + prod;
            j = j + 1;
        }
        k = k + 1;
    }
    out
}

/// Relies on rayon's `into_par_iter().map(..).collect()` over the range
/// `0..a.len()`: each row index is mapped once, by `multiply_row`, on the
/// thread pool, and the collected `Vec` keeps the order of the indices.
#[verifier::external_body]
fn multiply_rows_in_parallel(a: &Vec<Vec<i32>>, b: &Vec<Vec<i32>>) -> (r: Vec<Vec<i32>>)
    requires
        is_square(a@, a.len() as int),
        is_square(b@, a.len() as int),
        product_fits(a@, b@, a.len() as int),
    ensures
        r.len() == a.len(),
        forall|i: int|
            0 <= i < a.len() ==> (#[trigger] r[i]).len() == a.len() && forall|j: int|
                0 <= j < a.len() ==> #[trigger] r[i][j] == row_dot(a[i]@, b@, j, a.len() as int),
{
    (0..a.len()).into_par_iter().map(|i| multiply_row(&a[i], b)).collect()
}

/// The product of the square matrices `a` and `b`, one row per task.
pub fn multiply_matrices(a: &Vec<Vec<i32>>, b: &Vec<Vec<i32>>) -> (r: Vec<Vec<i32>>)
    requires
        is_square(a@, a.len() as int),
        is_square(b@, a.len() as int),
        product_fits(a@, b@, a.len() as int),
    ensures
        is_product(r@, a@, b@, a.len() as int),
{
    let r = multiply_rows_in_parallel(a, b);
    assert forall|i: int, j: int| 0 <= i < a.len() && 0 <= j < a.len() implies #[trigger] r[i][j]
        == product_entry(a@, b@, i, j, a.len() as int) by {
        assert(r[i].len() == a.len());
    }
    r
}

/// The `size` by `size` matrix whose entries all equal `value`.
pub fn constant_matrix(size: usize, value: i32) -> (r: Vec<Vec<i32>>)
    ensures
        is_square(r@, size as int),
        forall|i: int, j: int| 0 <= i < size && 0 <= j < size ==> #[trigger] r[i][j] == value,
{
    let mut r: Vec<Vec<i32>> = Vec::new();
    let mut i: usize = 0;
    while i < size
        invariant
            0 <= i <= size,
            r.len() == i,
            forall|t: int| 0 <= t < i ==> (#[trigger] r[t]).len() == size,
            forall|t: int, j: int| 0 <= t < i && 0 <= j < size ==> #[trigger] r[t][j] == value,
        decreases size - i,
    {
        let row: Vec<i32> = vec![value; size];
        r.push(row);
        i = i + 1;
    }
    r
}

/// Every prefix of a row of ones against a matrix of twos sums to twice its length.
proof fn lemma_ones_by_twos_prefix(row: Seq<i32>, b: Seq<Vec<i32>>, n: int, j: int, k: int)
    requires
        is_square(b, n),
        row.len() == n,
        forall|t: int| 0 <= t < n ==> #[trigger] row[t] == 1,
        forall|t: int, u: int| 0 <= t < n && 0 <= u < n ==> #[trigger] b[t][u] == 2,
        0 <= j < n,
        0 <= k <= n,
    ensures
        row_dot(row, b, j, k) == 2 * k,
    decreases k,
{
    if k > 0 {
        lemma_ones_by_twos_prefix(row, b, n, j, k - 1);
        assert(b[k - 1][j] == 2);
    }
}

/// The product of an `n` by `n` matrix of ones and an `n` by `n` matrix of
/// twos has every entry equal to `2 * n`.
pub proof fn lemma_ones_by_twos(a: Seq<Vec<i32>>, b: Seq<Vec<i32>>, n: int)
    requires
        is_square(a, n),
        is_square(b, n),
        forall|i: int, j: int| 0 <= i < n && 0 <= j < n ==> #[trigger] a[i][j] == 1,
        forall|i: int, j: int| 0 <= i < n && 0 <= j < n ==> #[trigger] b[i][j] == 2,
    ensures
        forall|i: int, j: int|
            0 <= i < n && 0 <= j < n ==> #[trigger] product_entry(a, b, i, j, n) == 2 * n,
{
    assert forall|i: int, j: int| 0 <= i < n && 0 <= j < n implies #[trigger] product_entry(
        a,
        b,
        i,
        j,
        n,
    ) == 2 * n by {
        assert(a[i].len() == n);
        assert forall|t: int| 0 <= t < n implies #[trigger] a[i]@[t] == 1 by {
            assert(a[i][t] == 1);
        }
        lemma_ones_by_twos_prefix(a[i]@, b, n, j, n);
    }
}

/// The product of a `size` by `size` matrix of ones and one of twos, each
/// entry of which is `2 * size`; empty for a size of zero.
pub fn matrix_multiplication(size: i32) -> (r: Vec<Vec<i32>>)
    requires
        0 <= size,
        2 * size <= i32::MAX,
    ensures
        is_square(r@, size as int),
        forall|i: int, j: int| 0 <= i < size && 0 <= j < size ==> #[trigger] r[i][j] == 2 * size,
{
    let n = size as usize;
    let matrix1 = constant_matrix(n, 1);
    let matrix2 = constant_matrix(n, 2);
    proof {
        lemma_ones_by_twos(matrix1@, matrix2@, n as int);
        assert forall|i: int| 0 <= i < n implies row_fits(#[trigger] matrix1@[i]@, matrix2@, n as int) by {
            let row = matrix1@[i]@;
            assert(matrix1[i].len() == n);
            assert forall|t: int| 0 <= t < n implies #[trigger] row[t] == 1 by {
                assert(matrix1[i][t] == 1);
            }
            assert forall|j: int, k: int| 0 <= j < n && 0 <= k < n implies in_i32(
                #[trigger] row[k] * #[trigger] matrix2@[k][j],
            ) by {
                assert(matrix2[k][j] == 2);
            }
            assert forall|j: int, k: int| 0 <= j < n && 0 < k <= n implies in_i32(
                #[trigger] row_dot(row, matrix2@, j, k),
            ) by {
                lemma_ones_by_twos_prefix(row, matrix2@, n as int, j, k);
            }
        }
    }
    let r = multiply_matrices(&matrix1, &matrix2);
    assert forall|i: int, j: int| 0 <= i < size && 0 <= j < size implies #[trigger] r[i][j] == 2
        * size by {
        assert(r[i][j] == product_entry(matrix1@, matrix2@, i, j, n as int));
    }
    r
}

} // verus!
