use vstd::prelude::*;
use crate::model::unary_contribution;
use crate::traits::TensorTrait;
use crate::types::lazy::DataArray;
use crate::types::ops::UnaryOps;

verus! {

/// The contribution of the upstream gradient `g` of an elementwise node with
/// output `y` to its operand `x`: for `MAX` with threshold `c`, `g` where
/// `x > c` and zero elsewhere; for `Sigmoid` and `Softmax`, `g * y * (1 - y)`
/// (the diagonal of the softmax Jacobian); for `EXP2`, `g * y`, which leaves
/// out the constant factor ln 2 of the derivative of `2^x`: an exact element
/// type has no value for it.
pub fn backward_unary<T: TensorTrait>(
    op: UnaryOps,
    g: &DataArray<T>,
    x: &DataArray<T>,
    y: &DataArray<T>,
    c: T,
) -> (r: DataArray<T>)
    requires
        x@.len() == g@.len(),
        y@.len() == g@.len(),
        op != UnaryOps::LOG2,
        op != UnaryOps::SUM,
    ensures
        r@ == unary_contribution(op, g@, x@, y@, c),
{
    let one = T::one();
    let zero = T::zero();
    let mut r: Vec<T> = Vec::new();
    let mut i: usize = 0;
    while i < g.len()
        invariant
            x@.len() == g@.len(),
            y@.len() == g@.len(),
            one == T::spec_one(),
            zero == T::spec_zero(),
            op != UnaryOps::LOG2,
            op != UnaryOps::SUM,
            0 <= i <= g@.len(),
            r@ =~= unary_contribution(op, g@, x@, y@, c).take(i as int),
        decreases g@.len() - i,
    {
        let v = match op {
            UnaryOps::MAX => {
                let mask = if x[i].greater_than(c) {
                    one
                } else {
                    zero
                };
                mask.times(g[i])
            },
            UnaryOps::EXP2 => g[i].times(y[i]),
            _ => g[i].times(y[i]).times(one.minus(y[i])),
        };
        proof {
            assert(v == unary_contribution(op, g@, x@, y@, c)[i as int]);
        }
        r.push(v);
        i = i + 1;
    }
    proof {
        assert(unary_contribution(op, g@, x@, y@, c).take(g@.len() as int) =~= unary_contribution(
            op,
            g@,
            x@,
            y@,
            c,
        ));
    }
    r
}

} // verus!
