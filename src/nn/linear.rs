use vstd::prelude::*;
use crate::model::TensorModel;
use crate::ops::binary_result;
use crate::tensor::{Tensor, leaf_model, transposed_model};
use crate::traits::TensorTrait;
use crate::matrix::fill_seq;
use crate::types::error::TensorError;
use crate::types::ops::{BinaryOps, Ops};

verus! {

/// A fully connected layer: a random weight of shape (in, out) and an optional
/// zero bias of the same shape.
pub struct Linear<T> {
    weight: Tensor<T>,
    bias: Option<Tensor<T>>,
}

impl<T: TensorTrait> Linear<T> {
    /// The weight's model.
    pub closed spec fn weight(&self) -> TensorModel<T> {
        self.weight.model()
    }

    /// The bias's model, if there is a bias.
    pub closed spec fn bias(&self) -> Option<TensorModel<T>> {
        match self.bias {
            Some(b) => Some(b.model()),
            Option::None => Option::None,
        }
    }

    /// The weight is a well-formed leaf; so is the bias, of the weight's shape.
    pub closed spec fn wf(&self) -> bool {
        &&& self.weight.inv()
        &&& self.weight.model().op == Ops::Leaf
        &&& (self.bias matches Some(b) ==> b.inv() && b.model().dim == self.weight.model().dim)
    }

    /// A layer from `in_features` to `out_features`: its weight is drawn by
    /// `Tensor::rand`, and it has a zero bias if `bias` is `Some(true)`. Both
    /// ask for gradients. Fails with `RandomUnavailable` when the system's
    /// random source fails.
    pub fn new(in_features: usize, out_features: usize, bias: Option<bool>) -> (r: Result<Self, TensorError>)
        requires
            in_features * out_features <= usize::MAX,
        ensures
            r matches Ok(l) ==> l.wf() && l.weight().dim == (in_features, out_features)
                && l.weight().requires_grad && (bias == Some(true) ==> l.bias() == Some(
                leaf_model(
                    fill_seq(T::spec_zero(), (in_features * out_features) as nat),
                    (in_features, out_features),
                    Option::None,
                    Some(true),
                ),
            )) && (bias != Some(true) ==> l.bias() is None),
            r matches Err(e) ==> e == TensorError::RandomUnavailable,
            in_features * out_features == 0 ==> r is Ok,
    {
        let new_dim = (in_features, out_features);
        let weight = Tensor::rand(new_dim, Option::None, Some(true))?;
        let with_bias = match bias {
            Some(b) => b,
            Option::None => false,
        };
        let bias = if with_bias {
            Some(Tensor::zeros(new_dim, Option::None, Some(true)))
        } else {
            Option::None
        };
        Ok(Linear { weight, bias })
    }

    /// `input · weightᵗ`, plus the bias if there is one; the layer's tensors
    /// become operands of the result.
    ///
    /// Fails with `ShapeMismatch` when `input` has not as many columns as the
    /// weight has, or the product's shape is not the bias's.
    pub fn forward(self, input: Tensor<T>) -> (r: Result<Tensor<T>, TensorError>)
        requires
            self.wf(),
            input.inv(),
        ensures
            ({
                let product = binary_result(BinaryOps::MUL, input.model(), transposed_model(self.weight()));
                &&& r is Ok <==> (product is Some && (self.bias() matches Some(b) ==> product->Some_0.dim == b.dim))
                &&& r matches Ok(t) ==> t.inv() && Some(t.model()) == match self.bias() {
                    Some(b) => binary_result(BinaryOps::ADD, product->Some_0, b),
                    Option::None => product,
                }
            }),
    {
        let mut weight = self.weight;
        weight.transpose();
        let output = crate::ops::mul(input, weight)?;
        match self.bias {
            Some(b) => crate::ops::add(output, b),
            Option::None => Ok(output),
        }
    }
}

} // verus!
