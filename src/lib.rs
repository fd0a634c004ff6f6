//! A small reverse-mode automatic differentiation engine over 2-D tensors.
//!
//! A [`Tensor`] owns the buffer it holds, the operation that produced it and the
//! operand tensors of that operation, so that a whole expression forms a tree.
//! [`Tensor::backward`] walks the tree from the root and accumulates into every
//! operand the vector-Jacobian product of its consumer.
//!
//! The engine is generic over the element type through [`TensorTrait`]; every
//! contract is stated over the spec functions of that trait, in [`matrix`] for
//! buffers and in [`model`] for trees.
use vstd::prelude::*;

pub mod backward;
pub mod forward;
pub mod helpers;
pub mod laws;
pub mod matrix;
pub mod model;
pub mod nn;
pub mod ops;
pub mod random;
pub mod tensor;
pub mod traits;
pub mod types;

pub use crate::nn::linear::Linear;
pub use crate::ops::{add, mul, sub};
pub use crate::random::random_number;
pub use crate::tensor::Tensor;
pub use crate::traits::TensorTrait;
pub use crate::types::data::FeaturesAndLabels;
pub use crate::types::device::{Device, default_device};
pub use crate::types::error::TensorError;
pub use crate::types::lazy::{DataArray, Dimensions, LazyBuffer};
pub use crate::types::ops::Ops;
