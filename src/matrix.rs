//! The mathematical meaning of the buffer operations: row-major matrices as
//! sequences, with their elementwise sums, products and transposes.
use vstd::prelude::*;
use vstd::arithmetic::div_mod::lemma_fundamental_div_mod_converse;
use crate::traits::TensorTrait;

verus! {

/// Elementwise sum of two sequences of the same length.
pub open spec fn add_seq<T: TensorTrait>(a: Seq<T>, b: Seq<T>) -> Seq<T> {
    Seq::new(a.len(), |p: int| T::spec_add(a[p], b[p]))
}

/// Elementwise difference of two sequences of the same length.
pub open spec fn sub_seq<T: TensorTrait>(a: Seq<T>, b: Seq<T>) -> Seq<T> {
    Seq::new(a.len(), |p: int| T::spec_sub(a[p], b[p]))
}

/// Elementwise negation, written as a difference from zero.
pub open spec fn neg_seq<T: TensorTrait>(a: Seq<T>) -> Seq<T> {
    Seq::new(a.len(), |p: int| T::spec_sub(T::spec_zero(), a[p]))
}

/// `n` copies of one value.
pub open spec fn fill_seq<T>(v: T, n: nat) -> Seq<T> {
    Seq::new(n, |p: int| v)
}

/// The sum of the first `len` elements, added from the front.
pub open spec fn sum_prefix<T: TensorTrait>(a: Seq<T>, len: nat) -> T
    decreases len,
{
    if len == 0 {
        T::spec_zero()
    } else {
        T::spec_add(sum_prefix(a, (len - 1) as nat), a[len - 1])
    }
}

/// The sum of all elements.
pub open spec fn sum_seq<T: TensorTrait>(a: Seq<T>) -> T {
    sum_prefix(a, a.len())
}

/// The first `len` terms of the dot product of row `i` of `a` (which has `k`
/// columns) with column `j` of `b` (which has `n` columns).
pub open spec fn dot<T: TensorTrait>(
    a: Seq<T>,
    b: Seq<T>,
    i: int,
    j: int,
    k: nat,
    n: nat,
    len: nat,
) -> T
    decreases len,
{
    if len == 0 {
        T::spec_zero()
    } else {
        T::spec_add(
            dot(a, b, i, j, k, n, (len - 1) as nat),
            T::spec_mul(a[i * k + len - 1], b[(len - 1) * n + j]),
        )
    }
}

/// The matrix product of `a` (m×k) and `b` (k×n), an m×n matrix.
pub open spec fn matmul_seq<T: TensorTrait>(a: Seq<T>, b: Seq<T>, m: nat, k: nat, n: nat) -> Seq<T> {
    Seq::new(m * n, |p: int| dot(a, b, p / n as int, p % n as int, k, n, k))
}

/// The transpose of `a` (rows×cols), a cols×rows matrix.
pub open spec fn transpose_seq<T>(a: Seq<T>, rows: nat, cols: nat) -> Seq<T> {
    Seq::new(rows * cols, |p: int| a[(p % rows as int) * cols + p / rows as int])
}

/// An all-zero rows×cols matrix with `v` on its main diagonal.
pub open spec fn diagonal_seq<T: TensorTrait>(v: T, rows: nat, cols: nat) -> Seq<T> {
    Seq::new(
        rows * cols,
        |p: int|
            if p / cols as int == p % cols as int {
                v
            } else {
                T::spec_zero()
            },
    )
}

/// Row-major position of (i, j) in a matrix of `n` columns: its row and column
/// come back by division and remainder.
pub proof fn lemma_index(i: int, j: int, n: int)
    requires
        0 <= i,
        0 <= j < n,
    ensures
        (i * n + j) / n == i,
        (i * n + j) % n == j,
{
    lemma_fundamental_div_mod_converse(i * n + j, n, i, j);
}

/// A row-major position in an m×n matrix lies inside it.
pub proof fn lemma_index_bound(i: int, j: int, m: int, n: int)
    requires
        0 <= i < m,
        0 <= j < n,
    ensures
        0 <= i * n + j < m * n,
{
    assert(i * n + j < m * n) by (nonlinear_arith)
        requires
            0 <= i < m,
            0 <= j < n,
    ;
    assert(0 <= i * n) by (nonlinear_arith)
        requires
            0 <= i,
            0 <= j < n,
    ;
}

/// Every position of an m×n matrix is the row-major position of its row and column.
pub proof fn lemma_split_index(p: int, m: int, n: int)
    requires
        0 <= p < m * n,
        0 < n,
    ensures
        p == (p / n) * n + p % n,
        0 <= p / n < m,
        0 <= p % n < n,
{
    vstd::arithmetic::div_mod::lemma_fundamental_div_mod(p, n);
    assert(n * (p / n) == (p / n) * n) by (nonlinear_arith);
    vstd::arithmetic::div_mod::lemma_div_pos_is_pos(p, n);
    vstd::arithmetic::div_mod::lemma_mod_bound(p, n);
    if p / n >= m {
        assert((p / n) * n >= m * n) by (nonlinear_arith)
            requires
                p / n >= m,
                n > 0,
        ;
    }
}

} // verus!
