//! The operations of two tensors, and of a tensor and a scalar.
use vstd::prelude::*;
use crate::forward::utils::{add_data, mul_data, subtract_data};
use crate::matrix::{add_seq, diagonal_seq, fill_seq, matmul_seq, sub_seq};
use crate::model::TensorModel;
use crate::tensor::{Tensor, leaf_model, result_model};
use crate::traits::TensorTrait;
use crate::types::error::TensorError;
use crate::types::ops::{BinaryOps, Ops};

verus! {

/// The buffer that a binary operation computes from `a` (shape `ad`) and `b`
/// (shape `bd`), where their shapes fit it.
pub open spec fn binary_forward<T: TensorTrait>(
    op: BinaryOps,
    a: Seq<T>,
    ad: (usize, usize),
    b: Seq<T>,
    bd: (usize, usize),
) -> Option<Seq<T>> {
    match op {
        BinaryOps::ADD => if ad == bd {
            Some(add_seq(a, b))
        } else {
            Option::None
        },
        BinaryOps::SUB => if ad == bd {
            Some(sub_seq(a, b))
        } else {
            Option::None
        },
        BinaryOps::MUL => if ad.1 == bd.0 {
            Some(matmul_seq(a, b, ad.0 as nat, ad.1 as nat, bd.1 as nat))
        } else {
            Option::None
        },
    }
}

/// The shape of the result of a binary operation.
pub open spec fn binary_dim<T>(op: BinaryOps, a: TensorModel<T>, b: TensorModel<T>) -> (usize, usize) {
    match op {
        BinaryOps::MUL => (a.dim.0, b.dim.1),
        _ => a.dim,
    }
}

/// The node that a binary operation builds from operands `a` and `b`, where
/// their shapes fit it: it holds them, and starts with a zero gradient.
pub open spec fn binary_result<T: TensorTrait>(op: BinaryOps, a: TensorModel<T>, b: TensorModel<T>) -> Option<TensorModel<T>> {
    match binary_forward(op, a.data, a.dim, b.data, b.dim) {
        Some(data) => Some(
            result_model(
                data,
                binary_dim(op, a, b),
                Ops::BinaryOps(op),
                Some(Box::new(a)),
                Some(Box::new(b)),
                Option::None,
            ),
        ),
        Option::None => Option::None,
    }
}

/// The elementwise sum of `a` and `b`, as a new node whose operands they become.
///
/// Fails with `ShapeMismatch` exactly when their shapes differ.
pub fn add<T: TensorTrait>(a: Tensor<T>, b: Tensor<T>) -> (r: Result<Tensor<T>, TensorError>)
    requires
        a.inv(),
        b.inv(),
    ensures
        r is Ok <==> a.model().dim == b.model().dim,
        r matches Ok(t) ==> t.inv() && Some(t.model()) == binary_result(BinaryOps::ADD, a.model(), b.model()),
        r matches Err(e) ==> e == (TensorError::ShapeMismatch { expected: a.model().dim, found: b.model().dim }),
{
    let a_dim = a.dim();
    let b_dim = b.dim();
    let data = add_data(a.data(), a_dim, b.data(), b_dim)?;
    Ok(Tensor::result_node(data, a_dim, Ops::BinaryOps(BinaryOps::ADD), Some(a), Some(b), Option::None))
}

/// The elementwise difference of `a` and `b`, as a new node whose operands
/// they become.
///
/// Fails with `ShapeMismatch` exactly when their shapes differ.
pub fn sub<T: TensorTrait>(a: Tensor<T>, b: Tensor<T>) -> (r: Result<Tensor<T>, TensorError>)
    requires
        a.inv(),
        b.inv(),
    ensures
        r is Ok <==> a.model().dim == b.model().dim,
        r matches Ok(t) ==> t.inv() && Some(t.model()) == binary_result(BinaryOps::SUB, a.model(), b.model()),
        r matches Err(e) ==> e == (TensorError::ShapeMismatch { expected: a.model().dim, found: b.model().dim }),
{
    let a_dim = a.dim();
    let b_dim = b.dim();
    let data = subtract_data(a.data(), a_dim, b.data(), b_dim)?;
    Ok(Tensor::result_node(data, a_dim, Ops::BinaryOps(BinaryOps::SUB), Some(a), Some(b), Option::None))
}

/// The matrix product of `a` (m×k) and `b` (k×n), an m×n node whose operands
/// they become.
///
/// Fails with `ShapeMismatch` exactly when the columns of `a` are not the rows of `b`.
pub fn mul<T: TensorTrait>(a: Tensor<T>, b: Tensor<T>) -> (r: Result<Tensor<T>, TensorError>)
    requires
        a.inv(),
        b.inv(),
    ensures
        r is Ok <==> a.model().dim.1 == b.model().dim.0,
        r matches Ok(t) ==> t.inv() && Some(t.model()) == binary_result(BinaryOps::MUL, a.model(), b.model()),
        r matches Err(e) ==> e == (TensorError::ShapeMismatch { expected: a.model().dim, found: b.model().dim }),
{
    let a_dim = a.dim();
    let b_dim = b.dim();
    let data = mul_data(a.data(), a_dim, b.data(), b_dim)?;
    Ok(
        Tensor::result_node(
            data,
            (a_dim.0, b_dim.1),
            Ops::BinaryOps(BinaryOps::MUL),
            Some(a),
            Some(b),
            Option::None,
        ),
    )
}

/// The model of the n×n constant by which `mul_scalar` multiplies: zeros with
/// `c` on the diagonal.
pub open spec fn scalar_diagonal<T: TensorTrait>(c: T, n: usize) -> TensorModel<T> {
    TensorModel {
        data: diagonal_seq(c, n as nat, n as nat),
        ..leaf_model(fill_seq(T::spec_zero(), (n * n) as nat), (n, n), Option::None, Some(true))
    }
}

impl<T: TensorTrait> Tensor<T> {
    /// `self + other`; see `add`.
    pub fn add(self, other: Tensor<T>) -> (r: Result<Tensor<T>, TensorError>)
        requires
            self.inv(),
            other.inv(),
        ensures
            r is Ok <==> self.model().dim == other.model().dim,
            r matches Ok(t) ==> t.inv() && Some(t.model()) == binary_result(BinaryOps::ADD, self.model(), other.model()),
            r matches Err(e) ==> e == (TensorError::ShapeMismatch { expected: self.model().dim, found: other.model().dim }),
    {
        crate::ops::add(self, other)
    }

    /// `self - other`; see `sub`.
    pub fn sub(self, other: Tensor<T>) -> (r: Result<Tensor<T>, TensorError>)
        requires
            self.inv(),
            other.inv(),
        ensures
            r is Ok <==> self.model().dim == other.model().dim,
            r matches Ok(t) ==> t.inv() && Some(t.model()) == binary_result(BinaryOps::SUB, self.model(), other.model()),
            r matches Err(e) ==> e == (TensorError::ShapeMismatch { expected: self.model().dim, found: other.model().dim }),
    {
        crate::ops::sub(self, other)
    }

    /// The matrix product `self · other`; see `mul`.
    pub fn mul(self, other: Tensor<T>) -> (r: Result<Tensor<T>, TensorError>)
        requires
            self.inv(),
            other.inv(),
        ensures
            r is Ok <==> self.model().dim.1 == other.model().dim.0,
            r matches Ok(t) ==> t.inv() && Some(t.model()) == binary_result(BinaryOps::MUL, self.model(), other.model()),
            r matches Err(e) ==> e == (TensorError::ShapeMismatch { expected: self.model().dim, found: other.model().dim }),
    {
        crate::ops::mul(self, other)
    }

    /// `self` times the scalar `c`, as the product with an n×n constant that
    /// holds `c` on its diagonal (n is the number of columns of `self`).
    pub fn mul_scalar(self, c: T) -> (r: Tensor<T>)
        requires
            self.inv(),
            self.model().dim.1 * self.model().dim.1 <= usize::MAX,
        ensures
            r.inv(),
            Some(r.model()) == binary_result(BinaryOps::MUL, self.model(), scalar_diagonal(c, self.model().dim.1)),
    {
        let n = self.dim().1;
        let mut diagonal = Tensor::zeros((n, n), Option::None, Some(true));
        diagonal.fill_diagonal(c);
        match crate::ops::mul(self, diagonal) {
            Ok(t) => t,
            Err(_) => {
                proof {
                    assert(false);
                }
                Tensor::zeros((0, 0), Option::None, Option::None)
            },
        }
    }

    /// `self` plus the scalar `c` at every element, as the sum with a constant
    /// full of `c`.
    pub fn add_scalar(self, c: T) -> (r: Tensor<T>)
        requires
            self.inv(),
        ensures
            r.inv(),
            Some(r.model()) == binary_result(
                BinaryOps::ADD,
                self.model(),
                leaf_model(fill_seq(c, self.model().data.len()), self.model().dim, Option::None, Some(true)),
            ),
    {
        let dim = self.dim();
        // The buffer's length bounds its size.
        let _len = self.data().len();
        let constant = Tensor::full(dim, c, Option::None, Some(true));
        match crate::ops::add(self, constant) {
            Ok(t) => t,
            Err(_) => {
                proof {
                    assert(false);
                }
                Tensor::zeros((0, 0), Option::None, Option::None)
            },
        }
    }

    /// `self` minus the scalar `c` at every element, as the difference with a
    /// constant full of `c`.
    pub fn sub_scalar(self, c: T) -> (r: Tensor<T>)
        requires
            self.inv(),
        ensures
            r.inv(),
            Some(r.model()) == binary_result(
                BinaryOps::SUB,
                self.model(),
                leaf_model(fill_seq(c, self.model().data.len()), self.model().dim, Option::None, Some(true)),
            ),
    {
        let dim = self.dim();
        // The buffer's length bounds its size.
        let _len = self.data().len();
        let constant = Tensor::full(dim, c, Option::None, Some(true));
        match crate::ops::sub(self, constant) {
            Ok(t) => t,
            Err(_) => {
                proof {
                    assert(false);
                }
                Tensor::zeros((0, 0), Option::None, Option::None)
            },
        }
    }

    /// `-self`, as the product with a constant that holds minus one on its
    /// diagonal.
    pub fn neg(self) -> (r: Tensor<T>)
        requires
            self.inv(),
            self.model().dim.1 * self.model().dim.1 <= usize::MAX,
        ensures
            r.inv(),
            Some(r.model()) == binary_result(
                BinaryOps::MUL,
                self.model(),
                scalar_diagonal(T::spec_sub(T::spec_zero(), T::spec_one()), self.model().dim.1),
            ),
    {
        let minus_one = T::zero().minus(T::one());
        self.mul_scalar(minus_one)
    }
}

} // verus!
