pub mod binary;
pub mod reduce;
pub mod unary;

pub use crate::backward::binary::backward_binary;
pub use crate::backward::reduce::backward_reduce;
pub use crate::backward::unary::backward_unary;
pub use crate::tensor::backward_helper;

use vstd::prelude::*;
use crate::matrix::add_seq;
use crate::model::{accumulate, contributions};
use crate::tensor::Tensor;
use crate::traits::TensorTrait;
use crate::types::lazy::{DataArray, LazyBuffer};
use crate::types::ops::{Ops, UnaryOps, ReduceOps};

verus! {

/// The new gradient of an operand: its current gradient `prev` (if any) plus
/// the contribution `c`.
pub fn accumulate_gradient<T: TensorTrait>(prev: &Option<LazyBuffer<T>>, c: DataArray<T>) -> (r:
    DataArray<T>)
    requires
        prev matches Some(p) ==> p.spec_data().len() == c@.len(),
    ensures
        r@ == accumulate(
            match prev {
                Some(p) => Some(p.spec_data()),
                Option::None => Option::None,
            },
            c@,
        ),
{
    match prev {
        Some(p) => {
            let d = p.data();
            let mut r: Vec<T> = Vec::new();
            let mut i: usize = 0;
            while i < c.len()
                invariant
                    d@.len() == c@.len(),
                    0 <= i <= c@.len(),
                    r@ =~= add_seq(d@, c@).take(i as int),
                decreases c@.len() - i,
            {
                r.push(d[i].plus(c[i]));
                i = i + 1;
            }
            proof {
                assert(add_seq(d@, c@).take(c@.len() as int) =~= add_seq(d@, c@));
            }
            r
        },
        Option::None => c,
    }
}

/// The contributions of the upstream gradient `g` of `node` to its first and
/// second operand, by the rule of the node's operation (empty where there is
/// no such operand).
pub fn backward_by_operation<T: TensorTrait>(node: &Tensor<T>, g: &DataArray<T>) -> (r: (
    DataArray<T>,
    DataArray<T>,
))
    requires
        node.inv(),
        node.model().op.has_backward_rule(),
        node.model().op != Ops::Leaf,
        g@.len() == node.model().data.len(),
    ensures
        r.0@ == contributions(node.model(), g@).0,
        r.1@ == contributions(node.model(), g@).1,
{
    match node.op() {
        Ops::BinaryOps(b) => match (node.left(), node.right()) {
            (Some(l), Some(r)) => crate::backward::binary::backward_binary(
                b,
                g,
                l.data(),
                l.dim(),
                r.data(),
                r.dim(),
            ),
            _ => (Vec::new(), Vec::new()),
        },
        Ops::UnaryOps(u) => match node.left() {
            Some(l) => {
                let c = match node.threshold() {
                    Some(c) => c,
                    Option::None => T::zero(),
                };
                (crate::backward::unary::backward_unary(u, g, l.data(), node.data(), c), Vec::new())
            },
            Option::None => (Vec::new(), Vec::new()),
        },
        Ops::ReduceOps(rd) => match node.left() {
            Some(l) => (crate::backward::reduce::backward_reduce(rd, g, l.data().len()), Vec::new()),
            Option::None => (Vec::new(), Vec::new()),
        },
        _ => (Vec::new(), Vec::new()),
    }
}

} // verus!
