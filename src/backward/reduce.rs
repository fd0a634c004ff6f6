use vstd::prelude::*;
use crate::model::reduce_contribution;
use crate::tensor::filled;
use crate::traits::TensorTrait;
use crate::types::lazy::DataArray;
use crate::types::ops::ReduceOps;

verus! {

/// The contribution of the 1×1 upstream gradient `g` of a sum to its operand
/// of `n` elements: `g` at every element.
pub fn backward_reduce<T: TensorTrait>(op: ReduceOps, g: &DataArray<T>, n: usize) -> (r: DataArray<T>)
    requires
        op == ReduceOps::SUM,
        g@.len() == 1,
    ensures
        r@ == reduce_contribution(op, g@, n as nat),
{
    filled(g[0], n)
}

} // verus!
