use vstd::prelude::*;
use crate::matrix::sum_seq;
use crate::tensor::{Tensor, result_model};
use crate::traits::TensorTrait;
use crate::types::lazy::{DataArray, size_of};
use crate::types::ops::{Ops, ReduceOps, UnaryOps};

verus! {

/// Each element of `a`, or `c` where that is larger.
pub open spec fn max_seq<T: TensorTrait>(a: Seq<T>, c: T) -> Seq<T> {
    Seq::new(a.len(), |p: int| if T::spec_gt(a[p], c) { a[p] } else { c })
}

/// The elementwise maximum of `val` and the scalar `other`, as a `MAX` node
/// whose operand `val` becomes.
pub fn max<T: TensorTrait>(val: Tensor<T>, other: T) -> (r: Tensor<T>)
    requires
        val.inv(),
    ensures
        r.inv(),
        r.model() == result_model(
            max_seq(val.model().data, other),
            val.model().dim,
            Ops::UnaryOps(UnaryOps::MAX),
            Some(Box::new(val.model())),
            Option::None,
            Some(other),
        ),
{
    let dim = val.dim();
    let data: &DataArray<T> = val.data();
    let mut new_data: Vec<T> = Vec::new();
    let mut i: usize = 0;
    while i < data.len()
        invariant
            0 <= i <= data@.len(),
            new_data@ =~= max_seq(data@, other).take(i as int),
        decreases data@.len() - i,
    {
        let v = if data[i].greater_than(other) {
            data[i]
        } else {
            other
        };
        new_data.push(v);
        i = i + 1;
    }
    proof {
        assert(max_seq(data@, other).take(data@.len() as int) =~= max_seq(data@, other));
    }
    Tensor::result_node(new_data, dim, Ops::UnaryOps(UnaryOps::MAX), Some(val), Option::None, Some(other))
}

/// The sum of all elements of `val`, as a 1×1 `SUM` node whose operand `val`
/// becomes.
pub fn sum<T: TensorTrait>(val: Tensor<T>) -> (r: Tensor<T>)
    requires
        val.inv(),
    ensures
        r.inv(),
        r.model() == result_model(
            seq![sum_seq(val.model().data)],
            (1usize, 1usize),
            Ops::ReduceOps(ReduceOps::SUM),
            Some(Box::new(val.model())),
            Option::None,
            Option::None,
        ),
{
    let total = val.sum();
    let mut new_data: Vec<T> = Vec::new();
    new_data.push(total);
    proof {
        assert(new_data@ =~= seq![sum_seq(val.model().data)]);
        assert(size_of((1usize, 1usize)) == 1);
    }
    Tensor::result_node(new_data, (1, 1), Ops::ReduceOps(ReduceOps::SUM), Some(val), Option::None, Option::None)
}

} // verus!
