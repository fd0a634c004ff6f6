use vstd::prelude::*;
use crate::helpers::is_valid_matrix_multiplication;
use crate::matrix::{add_seq, dot, lemma_index, lemma_index_bound, matmul_seq, sub_seq, transpose_seq};
use crate::traits::TensorTrait;
use crate::types::error::TensorError;
use crate::types::lazy::{DataArray, Dimensions, size_of};

verus! {

/// The matrix product of `a_data` (shape `a_dim`) and `b_data` (shape `b_dim`).
///
/// Fails with `ShapeMismatch` exactly when the inner dimensions differ.
pub fn mul_data<T: TensorTrait>(
    a_data: &DataArray<T>,
    a_dim: Dimensions,
    b_data: &DataArray<T>,
    b_dim: Dimensions,
) -> (r: Result<DataArray<T>, TensorError>)
    requires
        a_data@.len() == size_of(a_dim),
        b_data@.len() == size_of(b_dim),
    ensures
        r is Ok <==> a_dim.1 == b_dim.0,
        r matches Ok(d) ==> d@ == matmul_seq(a_data@, b_data@, a_dim.0 as nat, a_dim.1 as nat, b_dim.1 as nat),
        r matches Err(e) ==> e == (TensorError::ShapeMismatch { expected: a_dim, found: b_dim }),
{
    if !is_valid_matrix_multiplication(a_dim, b_dim) {
        return Err(TensorError::ShapeMismatch { expected: a_dim, found: b_dim });
    }
    let m = a_dim.0;
    let k = a_dim.1;
    let n = b_dim.1;
    let a_len = a_data.len();
    let b_len = b_data.len();
    let ghost spec_r = matmul_seq(a_data@, b_data@, m as nat, k as nat, n as nat);
    let mut new_data: Vec<T> = Vec::new();
    let mut i: usize = 0;
    while i < m
        invariant
            a_data@.len() == m * k,
            b_data@.len() == k * n,
            a_len == a_data@.len(),
            b_len == b_data@.len(),
            spec_r == matmul_seq(a_data@, b_data@, m as nat, k as nat, n as nat),
            0 <= i <= m,
            new_data@.len() == i * n,
            forall|p: int| 0 <= p < i * n ==> new_data@[p] == spec_r[p],
        decreases m - i,
    {
        let mut j: usize = 0;
        while j < n
            invariant
                a_data@.len() == m * k,
                b_data@.len() == k * n,
                a_len == a_data@.len(),
                b_len == b_data@.len(),
                spec_r == matmul_seq(a_data@, b_data@, m as nat, k as nat, n as nat),
                0 <= i < m,
                0 <= j <= n,
                new_data@.len() == i * n + j,
                forall|p: int| 0 <= p < i * n + j ==> new_data@[p] == spec_r[p],
            decreases n - j,
        {
            let mut sum = T::zero();
            let mut t: usize = 0;
            while t < k
                invariant
                    a_data@.len() == m * k,
                    b_data@.len() == k * n,
                    a_len == a_data@.len(),
                    b_len == b_data@.len(),
                    0 <= i < m,
                    0 <= j < n,
                    0 <= t <= k,
                    sum == dot(a_data@, b_data@, i as int, j as int, k as nat, n as nat, t as nat),
                decreases k - t,
            {
                proof {
                    lemma_index_bound(i as int, t as int, m as int, k as int);
                    lemma_index_bound(t as int, j as int, k as int, n as int);
                }
                sum = sum.plus(a_data[i * k + t].times(b_data[t * n + j]));
                t = t + 1;
            }
            proof {
                lemma_index_bound(i as int, j as int, m as int, n as int);
                lemma_index(i as int, j as int, n as int);
                assert(spec_r[i * n + j] == sum);
            }
            new_data.push(sum);
            j = j + 1;
        }
        proof {
            assert((i + 1) * n == i * n + n) by (nonlinear_arith);
        }
        i = i + 1;
    }
    proof {
        assert(new_data@ =~= spec_r);
    }
    Ok(new_data)
}

/// The elementwise sum of two buffers of the same shape.
///
/// Fails with `ShapeMismatch` exactly when the shapes differ.
pub fn add_data<T: TensorTrait>(
    a_data: &DataArray<T>,
    a_dim: Dimensions,
    b_data: &DataArray<T>,
    b_dim: Dimensions,
) -> (r: Result<DataArray<T>, TensorError>)
    requires
        a_data@.len() == size_of(a_dim),
        b_data@.len() == size_of(b_dim),
    ensures
        r is Ok <==> a_dim == b_dim,
        r matches Ok(d) ==> d@ == add_seq(a_data@, b_data@),
        r matches Err(e) ==> e == (TensorError::ShapeMismatch { expected: a_dim, found: b_dim }),
{
    if a_dim.0 != b_dim.0 || a_dim.1 != b_dim.1 {
        return Err(TensorError::ShapeMismatch { expected: a_dim, found: b_dim });
    }
    let len = a_data.len();
    let mut new_data: Vec<T> = Vec::new();
    let mut i: usize = 0;
    while i < len
        invariant
            len == a_data@.len(),
            a_data@.len() == b_data@.len(),
            0 <= i <= len,
            new_data@ =~= add_seq(a_data@, b_data@).take(i as int),
        decreases len - i,
    {
        new_data.push(a_data[i].plus(b_data[i]));
        i = i + 1;
    }
    proof {
        assert(add_seq(a_data@, b_data@).take(len as int) =~= add_seq(a_data@, b_data@));
    }
    Ok(new_data)
}

/// The elementwise difference of two buffers of the same shape.
///
/// Fails with `ShapeMismatch` exactly when the shapes differ.
pub fn subtract_data<T: TensorTrait>(
    a_data: &DataArray<T>,
    a_dim: Dimensions,
    b_data: &DataArray<T>,
    b_dim: Dimensions,
) -> (r: Result<DataArray<T>, TensorError>)
    requires
        a_data@.len() == size_of(a_dim),
        b_data@.len() == size_of(b_dim),
    ensures
        r is Ok <==> a_dim == b_dim,
        r matches Ok(d) ==> d@ == sub_seq(a_data@, b_data@),
        r matches Err(e) ==> e == (TensorError::ShapeMismatch { expected: a_dim, found: b_dim }),
{
    if a_dim.0 != b_dim.0 || a_dim.1 != b_dim.1 {
        return Err(TensorError::ShapeMismatch { expected: a_dim, found: b_dim });
    }
    let len = a_data.len();
    let mut new_data: Vec<T> = Vec::new();
    let mut i: usize = 0;
    while i < len
        invariant
            len == a_data@.len(),
            a_data@.len() == b_data@.len(),
            0 <= i <= len,
            new_data@ =~= sub_seq(a_data@, b_data@).take(i as int),
        decreases len - i,
    {
        new_data.push(a_data[i].minus(b_data[i]));
        i = i + 1;
    }
    proof {
        assert(sub_seq(a_data@, b_data@).take(len as int) =~= sub_seq(a_data@, b_data@));
    }
    Ok(new_data)
}

/// The transpose of a buffer of shape `dim`, laid out for shape `(dim.1, dim.0)`.
pub fn transpose_data<T: Copy>(data: &DataArray<T>, dim: Dimensions) -> (r: DataArray<T>)
    requires
        data@.len() == size_of(dim),
    ensures
        r@ == transpose_seq(data@, dim.0 as nat, dim.1 as nat),
{
    let rows = dim.0;
    let cols = dim.1;
    let len = data.len();
    let ghost spec_r = transpose_seq(data@, rows as nat, cols as nat);
    let mut new_data: Vec<T> = Vec::new();
    let mut i: usize = 0;
    while i < cols
        invariant
            data@.len() == rows * cols,
            len == data@.len(),
            spec_r == transpose_seq(data@, rows as nat, cols as nat),
            0 <= i <= cols,
            new_data@.len() == i * rows,
            forall|p: int| 0 <= p < i * rows ==> new_data@[p] == spec_r[p],
        decreases cols - i,
    {
        let mut j: usize = 0;
        while j < rows
            invariant
                data@.len() == rows * cols,
                len == data@.len(),
                spec_r == transpose_seq(data@, rows as nat, cols as nat),
                0 <= i < cols,
                0 <= j <= rows,
                new_data@.len() == i * rows + j,
                forall|p: int| 0 <= p < i * rows + j ==> new_data@[p] == spec_r[p],
            decreases rows - j,
        {
            proof {
                lemma_index_bound(j as int, i as int, rows as int, cols as int);
                lemma_index_bound(i as int, j as int, cols as int, rows as int);
                lemma_index(i as int, j as int, rows as int);
                assert(rows * cols == cols * rows) by (nonlinear_arith);
            }
            new_data.push(data[j * cols + i]);
            j = j + 1;
        }
        proof {
            assert((i + 1) * rows == i * rows + rows) by (nonlinear_arith);
        }
        i = i + 1;
    }
    proof {
        assert(cols * rows == rows * cols) by (nonlinear_arith);
        assert(new_data@ =~= spec_r);
    }
    new_data
}

} // verus!
