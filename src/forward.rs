pub mod utils;

use vstd::prelude::*;
use crate::forward::utils::{add_data, mul_data, subtract_data};
use crate::matrix::sum_seq;
use crate::nn::transformation::max_seq;
use crate::ops::binary_forward;
pub use crate::tensor::forward_by_operation;
use crate::traits::TensorTrait;
use crate::types::error::TensorError;
use crate::types::lazy::{DataArray, Dimensions, size_of};
use crate::types::ops::{BinaryOps, ReduceOps, UnaryOps};

verus! {

/// The buffer that a binary operation computes from `a` (shape `a_dim`) and
/// `b` (shape `b_dim`). Fails with `ShapeMismatch` exactly when the shapes do
/// not fit the operation.
pub fn forward_binary<T: TensorTrait>(
    op: BinaryOps,
    a: &DataArray<T>,
    a_dim: Dimensions,
    b: &DataArray<T>,
    b_dim: Dimensions,
) -> (r: Result<DataArray<T>, TensorError>)
    requires
        a@.len() == size_of(a_dim),
        b@.len() == size_of(b_dim),
    ensures
        r is Ok <==> binary_forward(op, a@, a_dim, b@, b_dim) is Some,
        r matches Ok(d) ==> Some(d@) == binary_forward(op, a@, a_dim, b@, b_dim),
        r matches Err(e) ==> e == (TensorError::ShapeMismatch { expected: a_dim, found: b_dim }),
{
    match op {
        BinaryOps::ADD => add_data(a, a_dim, b, b_dim),
        BinaryOps::SUB => subtract_data(a, a_dim, b, b_dim),
        BinaryOps::MUL => mul_data(a, a_dim, b, b_dim),
    }
}

/// The buffer that an elementwise operation computes from `x`; only `MAX`
/// (against the threshold `c`) is computed here, by ring operations.
pub fn forward_unary<T: TensorTrait>(op: UnaryOps, x: &DataArray<T>, c: T) -> (r: DataArray<T>)
    requires
        op == UnaryOps::MAX,
    ensures
        r@ == max_seq(x@, c),
{
    let mut r: Vec<T> = Vec::new();
    let mut i: usize = 0;
    while i < x.len()
        invariant
            0 <= i <= x@.len(),
            r@ =~= max_seq(x@, c).take(i as int),
        decreases x@.len() - i,
    {
        let v = if x[i].greater_than(c) {
            x[i]
        } else {
            c
        };
        r.push(v);
        i = i + 1;
    }
    proof {
        assert(max_seq(x@, c).take(x@.len() as int) =~= max_seq(x@, c));
    }
    r
}

/// The 1×1 buffer that a reduction computes from `x`: its sum.
pub fn forward_reduce<T: TensorTrait>(op: ReduceOps, x: &DataArray<T>) -> (r: DataArray<T>)
    requires
        op == ReduceOps::SUM,
    ensures
        r@ == seq![sum_seq(x@)],
{
    let mut total = T::zero();
    let mut i: usize = 0;
    while i < x.len()
        invariant
            0 <= i <= x@.len(),
            total == crate::matrix::sum_prefix(x@, i as nat),
        decreases x@.len() - i,
    {
        total = total.plus(x[i]);
        i = i + 1;
    }
    let mut r: Vec<T> = Vec::new();
    r.push(total);
    proof {
        assert(r@ =~= seq![sum_seq(x@)]);
    }
    r
}

} // verus!
