use vstd::prelude::*;
use crate::nn::transformation::max_seq;
use crate::tensor::{Tensor, result_model};
use crate::traits::TensorTrait;
use crate::types::ops::{Ops, UnaryOps};

verus! {

/// The rectifier: the elementwise maximum of `val` and zero.
pub fn relu<T: TensorTrait>(val: Tensor<T>) -> (r: Tensor<T>)
    requires
        val.inv(),
    ensures
        r.inv(),
        r.model() == result_model(
            max_seq(val.model().data, T::spec_zero()),
            val.model().dim,
            Ops::UnaryOps(UnaryOps::MAX),
            Some(Box::new(val.model())),
            Option::None,
            Some(T::spec_zero()),
        ),
{
    crate::nn::transformation::max(val, T::zero())
}

} // verus!
