use vstd::prelude::*;

verus! {

/// The errors that an operation reports to its caller.
#[derive(Clone, Copy, PartialEq, Eq, Debug)]
pub enum TensorError {
    /// The operand shapes do not fit the operation (or a buffer's length does
    /// not fit its shape); the two shapes involved are given.
    ShapeMismatch { expected: (usize, usize), found: (usize, usize) },
    /// The system's source of random bytes failed.
    RandomUnavailable,
}

} // verus!
