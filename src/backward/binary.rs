use vstd::prelude::*;
use crate::forward::utils::{mul_data, transpose_data};
use crate::matrix::neg_seq;
use crate::model::binary_contribution;
use crate::traits::TensorTrait;
use crate::types::lazy::{DataArray, Dimensions, copy_data, size_of};
use crate::types::ops::BinaryOps;

verus! {

/// The negation of every element.
fn negate<T: TensorTrait>(g: &DataArray<T>) -> (r: DataArray<T>)
    ensures
        r@ == neg_seq(g@),
{
    let zero = T::zero();
    let mut r: Vec<T> = Vec::new();
    let mut i: usize = 0;
    while i < g.len()
        invariant
            zero == T::spec_zero(),
            0 <= i <= g@.len(),
            r@ =~= neg_seq(g@).take(i as int),
        decreases g@.len() - i,
    {
        r.push(zero.minus(g[i]));
        i = i + 1;
    }
    proof {
        assert(neg_seq(g@).take(g@.len() as int) =~= neg_seq(g@));
    }
    r
}

/// The contributions of the upstream gradient `g` of a binary node to its
/// operands `a` (shape `a_dim`) and `b` (shape `b_dim`): for a sum both get
/// `g`; for a difference `a` gets `g` and `b` gets `-g`; for a matrix product
/// `a` gets `g · bᵗ` and `b` gets `aᵗ · g`.
pub fn backward_binary<T: TensorTrait>(
    op: BinaryOps,
    g: &DataArray<T>,
    a: &DataArray<T>,
    a_dim: Dimensions,
    b: &DataArray<T>,
    b_dim: Dimensions,
) -> (r: (DataArray<T>, DataArray<T>))
    requires
        a@.len() == size_of(a_dim),
        b@.len() == size_of(b_dim),
        op == BinaryOps::MUL ==> a_dim.1 == b_dim.0 && g@.len() == size_of((a_dim.0, b_dim.1)),
    ensures
        r.0@ == binary_contribution(op, g@, a@, a_dim, b@, b_dim).0,
        r.1@ == binary_contribution(op, g@, a@, a_dim, b@, b_dim).1,
{
    match op {
        BinaryOps::ADD => (copy_data(g), copy_data(g)),
        BinaryOps::SUB => (copy_data(g), negate(g)),
        BinaryOps::MUL => {
            let g_dim = (a_dim.0, b_dim.1);
            let b_t = transpose_data(b, b_dim);
            let a_t = transpose_data(a, a_dim);
            proof {
                assert(b_dim.1 * b_dim.0 == b_dim.0 * b_dim.1) by (nonlinear_arith);
                assert(a_dim.1 * a_dim.0 == a_dim.0 * a_dim.1) by (nonlinear_arith);
            }
            let da = mul_data(g, g_dim, &b_t, (b_dim.1, b_dim.0));
            let db = mul_data(&a_t, (a_dim.1, a_dim.0), g, g_dim);
            match (da, db) {
                (Ok(da), Ok(db)) => (da, db),
                _ => {
                    proof {
                        assert(false);
                    }
                    (Vec::new(), Vec::new())
                },
            }
        },
    }
}

} // verus!
