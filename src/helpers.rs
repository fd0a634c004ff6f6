use vstd::prelude::*;
use crate::types::lazy::Dimensions;

verus! {

/// Whether a matrix of shape `a_dim` can be multiplied by one of shape `b_dim`.
pub fn is_valid_matrix_multiplication(a_dim: Dimensions, b_dim: Dimensions) -> (r: bool)
    ensures
        r == (a_dim.1 == b_dim.0),
{
    a_dim.1 == b_dim.0
}

/// The shape of the product of matrices of shapes `a_dim` and `b_dim`.
pub fn new_dimensions_after_matrix_multiplication(a_dim: Dimensions, b_dim: Dimensions) -> (r:
    Dimensions)
    ensures
        r == (a_dim.0, b_dim.1),
{
    (a_dim.0, b_dim.1)
}

} // verus!
