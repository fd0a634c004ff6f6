use vstd::prelude::*;
use crate::matrix::{diagonal_seq, fill_seq, sum_prefix, sum_seq, transpose_seq};
use crate::model::{TensorModel, backward_result, contributions, has_forward_rule, operands_fit, propagate};
use crate::random::{is_sample, random_number};
use crate::traits::TensorTrait;
use crate::types::device::Device;
use crate::types::error::TensorError;
use crate::types::lazy::{DataArray, Dimensions, LazyBuffer, size_of};
use crate::types::ops::{BinaryOps, Ops, UnaryOps};

verus! {

/// A node of a computation tree: a shaped buffer, the operation that produced
/// it, the operand tensors of that operation (owned), and its gradient.
pub struct Tensor<T> {
    lazy_data: LazyBuffer<T>,
    requires_grad: bool,
    op: Ops,
    left: Option<Box<Tensor<T>>>,
    right: Option<Box<Tensor<T>>>,
    gradient: Option<LazyBuffer<T>>,
    threshold: Option<T>,
}

/// The model of an optional operand.
pub open spec fn operand_model<T: Copy>(t: Option<Tensor<T>>) -> Option<Box<TensorModel<T>>> {
    match t {
        Some(t) => Some(Box::new(t.model())),
        Option::None => Option::None,
    }
}

impl<T: Copy> Tensor<T> {
    /// What the tensor holds, with the tensors below it.
    pub closed spec fn model(&self) -> TensorModel<T>
        decreases self,
    {
        TensorModel {
            data: self.lazy_data.spec_data(),
            dim: self.lazy_data.spec_dim(),
            device: self.lazy_data.spec_device(),
            requires_grad: self.requires_grad,
            op: self.op,
            left: match self.left {
                Some(l) => Some(Box::new(l.model())),
                Option::None => Option::None,
            },
            right: match self.right {
                Some(r) => Some(Box::new(r.model())),
                Option::None => Option::None,
            },
            gradient: match self.gradient {
                Some(g) => Some(g.spec_data()),
                Option::None => Option::None,
            },
            threshold: self.threshold,
        }
    }

    /// The gradient buffer itself, with its shape and device.
    pub closed spec fn spec_gradient(&self) -> Option<LazyBuffer<T>> {
        self.gradient
    }

    /// Every buffer in the tree is well formed, and each gradient has the shape
    /// of its tensor.
    pub closed spec fn buffers_ok(&self) -> bool
        decreases self,
    {
        &&& self.lazy_data.wf()
        &&& (self.gradient matches Some(g) ==> g.wf() && g.spec_dim() == self.lazy_data.spec_dim())
        &&& (self.left matches Some(l) ==> l.buffers_ok())
        &&& (self.right matches Some(r) ==> r.buffers_ok())
    }

    /// The tensor is well formed: see `TensorModel::wf`.
    pub open spec fn inv(&self) -> bool {
        self.buffers_ok() && self.model().wf()
    }

    /// An operand, if present, is well formed.
    pub open spec fn operand_inv(t: Option<Tensor<T>>) -> bool {
        t matches Some(t) ==> t.inv()
    }

    proof fn lemma_children_inv(&self)
        requires
            self.inv(),
        ensures
            self.left matches Some(l) ==> l.inv() && self.model().left == Some(Box::new(l.model())),
            self.right matches Some(r) ==> r.inv() && self.model().right == Some(Box::new(r.model())),
    {
    }
}

/// The model of a leaf tensor made by `Tensor::new`: it starts with an
/// all-zero gradient if it asks for one.
pub open spec fn leaf_model<T: TensorTrait>(
    data: Seq<T>,
    dimensions: Dimensions,
    device: Option<Device>,
    requires_grad: Option<bool>,
) -> TensorModel<T> {
    TensorModel {
        data,
        dim: dimensions,
        device: match device {
            Some(d) => d,
            Option::None => Device::CPU,
        },
        requires_grad: requires_grad == Some(true),
        op: Ops::Leaf,
        left: Option::None,
        right: Option::None,
        gradient: if requires_grad == Some(true) {
            Some(fill_seq(T::spec_zero(), data.len()))
        } else {
            Option::None
        },
        threshold: Option::None,
    }
}

/// An empty gradient for a tensor that asks for one, none otherwise.
fn initial_gradient<T: TensorTrait>(dim: Dimensions, requires_grad: bool) -> (r: Option<LazyBuffer<T>>)
    requires
        size_of(dim) <= usize::MAX,
    ensures
        requires_grad ==> (r matches Some(g) && g.wf() && g.spec_dim() == dim && g.spec_data()
            == fill_seq(T::spec_zero(), size_of(dim))),
        !requires_grad ==> r is None,
{
    if requires_grad {
        let n = dim.0 * dim.1;
        Some(LazyBuffer::with_shape(filled(T::zero(), n), dim, Device::CPU))
    } else {
        Option::None
    }
}

/// `n` copies of `v`.
pub fn filled<T: Copy>(v: T, n: usize) -> (r: DataArray<T>)
    ensures
        r@ == fill_seq(v, n as nat),
{
    let mut r: Vec<T> = Vec::new();
    let mut i: usize = 0;
    while i < n
        invariant
            0 <= i <= n,
            r@ =~= fill_seq(v, i as nat),
        decreases n - i,
    {
        r.push(v);
        i = i + 1;
    }
    r
}

impl<T: TensorTrait> Tensor<T> {
    /// A leaf tensor of `data` with shape `dimensions`, on `device` (the CPU if
    /// `None`), that asks for a gradient if `requires_grad` says so (it does not
    /// if `None`); such a tensor starts with an all-zero gradient.
    ///
    /// Fails with `ShapeMismatch` exactly when the length of `data` is not
    /// `rows * cols`.
    pub fn new(
        data: DataArray<T>,
        dimensions: Dimensions,
        device: Option<Device>,
        requires_grad: Option<bool>,
    ) -> (r: Result<Tensor<T>, TensorError>)
        ensures
            r is Ok <==> data@.len() == size_of(dimensions),
            r matches Ok(t) ==> t.inv() && t.model() == leaf_model(data@, dimensions, device, requires_grad),
            r matches Err(e) ==> e == (TensorError::ShapeMismatch {
                expected: dimensions,
                found: (data@.len() as usize, 1),
            }),
    {
        let n = data.len();
        let fits = match dimensions.0.checked_mul(dimensions.1) {
            Some(size) => size == n,
            Option::None => false,
        };
        if !fits {
            return Err(TensorError::ShapeMismatch { expected: dimensions, found: (n, 1) });
        }
        Ok(Tensor::leaf(data, dimensions, device, requires_grad))
    }

    /// A leaf tensor of `data`, whose length fits `dimensions`.
    fn leaf(
        data: DataArray<T>,
        dimensions: Dimensions,
        device: Option<Device>,
        requires_grad: Option<bool>,
    ) -> (t: Tensor<T>)
        requires
            data@.len() == size_of(dimensions),
        ensures
            t.inv(),
            t.model() == leaf_model(data@, dimensions, device, requires_grad),
    {
        let rg = match requires_grad {
            Some(b) => b,
            Option::None => false,
        };
        let device = match device {
            Some(d) => d,
            Option::None => Device::CPU,
        };
        // The buffer's length bounds its size.
        let _len = data.len();
        let lazy_data = LazyBuffer::with_shape(data, dimensions, device);
        let gradient = initial_gradient(dimensions, rg);
        let t = Tensor {
            lazy_data,
            requires_grad: rg,
            op: Ops::Leaf,
            left: Option::None,
            right: Option::None,
            gradient,
            threshold: Option::None,
        };
        proof {
            assert(t.model().gradient == if requires_grad == Some(true) {
                Some(fill_seq(T::spec_zero(), data@.len()))
            } else {
                Option::<Seq<T>>::None
            });
        }
        t
    }
}


/// The model of the result of an operation, made by `result_node`.
pub open spec fn result_model<T: TensorTrait>(
    data: Seq<T>,
    dim: Dimensions,
    op: Ops,
    left: Option<Box<TensorModel<T>>>,
    right: Option<Box<TensorModel<T>>>,
    threshold: Option<T>,
) -> TensorModel<T> {
    TensorModel {
        data,
        dim,
        device: Device::CPU,
        requires_grad: true,
        op,
        left,
        right,
        gradient: Some(fill_seq(T::spec_zero(), data.len())),
        threshold,
    }
}

/// The model of an optional gradient buffer.
pub open spec fn gradient_model<T: Copy>(g: Option<LazyBuffer<T>>) -> Option<Seq<T>> {
    match g {
        Some(g) => Some(g.spec_data()),
        Option::None => Option::None,
    }
}

/// Whether a gradient buffer fits a tensor of shape `dim`.
pub open spec fn gradient_fits<T: Copy>(g: Option<LazyBuffer<T>>, dim: Dimensions) -> bool {
    g matches Some(g) ==> g.wf() && g.spec_dim() == dim
}

/// Whether the operands fit a node of shape `dim` made by `op`.
fn operands_fit_exec<T: TensorTrait>(
    op: Ops,
    dim: Dimensions,
    left: &Option<Tensor<T>>,
    right: &Option<Tensor<T>>,
    threshold: &Option<T>,
) -> (r: bool)
    requires
        Tensor::operand_inv(*left),
        Tensor::operand_inv(*right),
    ensures
        r == operands_fit(op, dim, operand_model(*left), operand_model(*right), *threshold),
{
    match op {
        Ops::BinaryOps(b) => match (left, right) {
            (Some(l), Some(r)) => {
                let ld = l.dim();
                let rd = r.dim();
                match b {
                    BinaryOps::MUL => ld.1 == rd.0 && dim.0 == ld.0 && dim.1 == rd.1,
                    _ => ld.0 == dim.0 && ld.1 == dim.1 && rd.0 == dim.0 && rd.1 == dim.1,
                }
            },
            _ => false,
        },
        Ops::UnaryOps(u) => match (left, right) {
            (Some(l), Option::None) => {
                let ld = l.dim();
                let has_threshold = match threshold {
                    Some(_) => true,
                    Option::None => false,
                };
                ld.0 == dim.0 && ld.1 == dim.1 && (u != UnaryOps::MAX || has_threshold)
            },
            _ => false,
        },
        Ops::ReduceOps(_) => match (left, right) {
            (Some(_), Option::None) => dim.0 == 1 && dim.1 == 1,
            _ => false,
        },
        _ => match (left, right) {
            (Option::None, Option::None) => true,
            _ => false,
        },
    }
}

/// Boxes an optional operand.
fn boxed<T: Copy>(t: Option<Tensor<T>>) -> (r: Option<Box<Tensor<T>>>)
    ensures
        r == match t {
            Some(t) => Some(Box::new(t)),
            Option::None => Option::<Box<Tensor<T>>>::None,
        },
{
    match t {
        Some(t) => Some(Box::new(t)),
        Option::None => Option::None,
    }
}

impl<T: TensorTrait> Tensor<T> {
    /// A tensor assembled from its parts.
    fn from_parts(
        lazy_data: LazyBuffer<T>,
        requires_grad: bool,
        op: Ops,
        left: Option<Tensor<T>>,
        right: Option<Tensor<T>>,
        gradient: Option<LazyBuffer<T>>,
        threshold: Option<T>,
    ) -> (t: Tensor<T>)
        requires
            lazy_data.wf(),
            gradient_fits(gradient, lazy_data.spec_dim()),
            gradient matches Some(g) ==> g.spec_data().len() == lazy_data.spec_data().len(),
            Tensor::operand_inv(left),
            Tensor::operand_inv(right),
            operands_fit(op, lazy_data.spec_dim(), operand_model(left), operand_model(right), threshold),
        ensures
            t.inv(),
            t.model() == (TensorModel {
                data: lazy_data.spec_data(),
                dim: lazy_data.spec_dim(),
                device: lazy_data.spec_device(),
                requires_grad,
                op,
                left: operand_model(left),
                right: operand_model(right),
                gradient: gradient_model(gradient),
                threshold,
            }),
    {
        Tensor { lazy_data, requires_grad, op, left: boxed(left), right: boxed(right), gradient, threshold }
    }

    /// The result of an operation: it asks for a gradient and starts with an
    /// all-zero one.
    pub(crate) fn result_node(
        data: DataArray<T>,
        dim: Dimensions,
        op: Ops,
        left: Option<Tensor<T>>,
        right: Option<Tensor<T>>,
        threshold: Option<T>,
    ) -> (t: Tensor<T>)
        requires
            data@.len() == size_of(dim),
            Tensor::operand_inv(left),
            Tensor::operand_inv(right),
            operands_fit(op, dim, operand_model(left), operand_model(right), threshold),
        ensures
            t.inv(),
            t.model() == result_model(data@, dim, op, operand_model(left), operand_model(right), threshold),
    {
        let n = data.len();
        let lazy_data = LazyBuffer::with_shape(data, dim, Device::CPU);
        let gradient = Some(LazyBuffer::with_shape(filled(T::zero(), n), dim, Device::CPU));
        Tensor::from_parts(lazy_data, true, op, left, right, gradient, threshold)
    }

    /// Same as `new`, from a vector.
    pub fn from_vec(
        data: Vec<T>,
        dimensions: Dimensions,
        device: Option<Device>,
        requires_grad: Option<bool>,
    ) -> (r: Result<Tensor<T>, TensorError>)
        ensures
            r is Ok <==> data@.len() == size_of(dimensions),
            r matches Ok(t) ==> t.inv() && t.model() == leaf_model(data@, dimensions, device, requires_grad),
            r matches Err(e) ==> e == (TensorError::ShapeMismatch {
                expected: dimensions,
                found: (data@.len() as usize, 1),
            }),
    {
        Tensor::new(data, dimensions, device, requires_grad)
    }

    /// A tensor with every field given: its data and shape, device, whether it
    /// asks for a gradient, the operation that made it (`Leaf` if `None`) and
    /// its operands. It has no gradient yet.
    ///
    /// Fails with `ShapeMismatch` exactly when the length of `data` is not
    /// `rows * cols`, or the operands do not fit the operation (see
    /// `operands_fit`; a `MAX` node cannot be built this way, since it needs a
    /// threshold).
    pub fn _build_raw(
        data: DataArray<T>,
        dimensions: Dimensions,
        device: Option<Device>,
        requires_grad: Option<bool>,
        op: Option<Ops>,
        left: Option<Tensor<T>>,
        right: Option<Tensor<T>>,
    ) -> (r: Result<Tensor<T>, TensorError>)
        requires
            Tensor::operand_inv(left),
            Tensor::operand_inv(right),
        ensures
            r is Ok <==> data@.len() == size_of(dimensions) && operands_fit(
                match op {
                    Some(o) => o,
                    Option::None => Ops::Leaf,
                },
                dimensions,
                operand_model(left),
                operand_model(right),
                Option::None,
            ),
            r matches Ok(t) ==> t.inv() && t.model() == (TensorModel {
                data: data@,
                dim: dimensions,
                device: match device {
                    Some(d) => d,
                    Option::None => Device::CPU,
                },
                requires_grad: requires_grad == Some(true),
                op: match op {
                    Some(o) => o,
                    Option::None => Ops::Leaf,
                },
                left: operand_model(left),
                right: operand_model(right),
                gradient: Option::None,
                threshold: Option::None,
            }),
            data@.len() != size_of(dimensions) ==> r == Err::<Tensor<T>, TensorError>(
                TensorError::ShapeMismatch { expected: dimensions, found: (data@.len() as usize, 1) },
            ),
    {
        let op = match op {
            Some(o) => o,
            Option::None => Ops::Leaf,
        };
        let rg = match requires_grad {
            Some(b) => b,
            Option::None => false,
        };
        let lazy_data = LazyBuffer::new(data, dimensions, device)?;
        if !operands_fit_exec(op, dimensions, &left, &right, &Option::None) {
            let found = match &left {
                Some(l) => l.dim(),
                Option::None => (0, 0),
            };
            return Err(TensorError::ShapeMismatch { expected: dimensions, found });
        }
        Ok(Tensor::from_parts(lazy_data, rg, op, left, right, Option::None, Option::None))
    }

    /// The shape.
    pub fn dim(&self) -> (r: Dimensions)
        requires
            self.inv(),
        ensures
            r == self.model().dim,
    {
        self.lazy_data.dim()
    }

    /// Replaces the operation tag; the operands must fit the new operation.
    pub fn set_op(&mut self, op: Ops)
        requires
            old(self).inv(),
            operands_fit(op, old(self).model().dim, old(self).model().left, old(self).model().right, old(self).model().threshold),
        ensures
            final(self).inv(),
            final(self).model() == (TensorModel { op, ..old(self).model() }),
    {
        self.op = op;
    }

    /// Reads the elements under another shape with as many elements; the
    /// gradient, if any, is read under it too. Only a leaf can be reshaped,
    /// since a computed tensor's shape is fixed by its operands.
    pub fn set_dim(&mut self, new_dim: Dimensions)
        requires
            old(self).inv(),
            old(self).model().op == Ops::Leaf,
            size_of(new_dim) == size_of(old(self).model().dim),
        ensures
            final(self).inv(),
            final(self).model() == (TensorModel { dim: new_dim, ..old(self).model() }),
    {
        self.lazy_data.set_dim(new_dim);
        match self.gradient.take() {
            Some(mut g) => {
                g.set_dim(new_dim);
                self.gradient = Some(g);
            },
            Option::None => {},
        }
    }

    /// The elements, in row-major order.
    pub fn data(&self) -> (r: &DataArray<T>)
        requires
            self.inv(),
        ensures
            r@ == self.model().data,
    {
        self.lazy_data.data()
    }

    /// The device.
    pub fn device(&self) -> (r: &Device)
        ensures
            *r == self.model().device,
    {
        self.lazy_data.device()
    }

    /// Whether the tensor asks for a gradient.
    pub fn requires_grad(&self) -> (r: &bool)
        ensures
            *r == self.model().requires_grad,
    {
        &self.requires_grad
    }

    /// The operation that made the tensor.
    pub fn op(&self) -> (r: Ops)
        ensures
            r == self.model().op,
    {
        self.op
    }

    /// The threshold of a `MAX` node.
    pub fn threshold(&self) -> (r: Option<T>)
        ensures
            r == self.model().threshold,
    {
        self.threshold
    }

    /// The first operand, if any.
    pub fn left(&self) -> (r: Option<&Tensor<T>>)
        requires
            self.inv(),
        ensures
            r matches Some(l) ==> l.inv() && self.model().left == Some(Box::new(l.model())),
            r is None <==> self.model().left is None,
    {
        proof {
            self.lemma_children_inv();
        }
        match &self.left {
            Some(l) => Some(&**l),
            Option::None => Option::None,
        }
    }

    /// The second operand, if any.
    pub fn right(&self) -> (r: Option<&Tensor<T>>)
        requires
            self.inv(),
        ensures
            r matches Some(x) ==> x.inv() && self.model().right == Some(Box::new(x.model())),
            r is None <==> self.model().right is None,
    {
        proof {
            self.lemma_children_inv();
        }
        match &self.right {
            Some(x) => Some(&**x),
            Option::None => Option::None,
        }
    }

    /// Takes the tensor apart into its operands, so that a caller can reach
    /// the leaves of a tree (to update parameters after a backward pass).
    pub fn into_operands(self) -> (r: (Option<Tensor<T>>, Option<Tensor<T>>))
        requires
            self.inv(),
        ensures
            Tensor::operand_inv(r.0),
            Tensor::operand_inv(r.1),
            operand_model(r.0) == self.model().left,
            operand_model(r.1) == self.model().right,
    {
        proof {
            self.lemma_children_inv();
        }
        let left = match self.left {
            Some(l) => Some(*l),
            Option::None => Option::None,
        };
        let right = match self.right {
            Some(x) => Some(*x),
            Option::None => Option::None,
        };
        (left, right)
    }

    /// Replaces the gradient. Fails with `ShapeMismatch` exactly when its
    /// shape is not the tensor's.
    pub fn set_gradient(&mut self, gradient: LazyBuffer<T>) -> (r: Result<(), TensorError>)
        requires
            old(self).inv(),
            gradient.wf(),
        ensures
            final(self).inv(),
            r is Ok <==> gradient.spec_dim() == old(self).model().dim,
            r is Ok ==> final(self).model() == old(self).model().with_gradient(Some(gradient.spec_data())),
            r is Ok ==> final(self).spec_gradient() == Some(gradient),
            r is Err ==> final(self).model() == old(self).model(),
            r matches Err(e) ==> e == (TensorError::ShapeMismatch {
                expected: old(self).model().dim,
                found: gradient.spec_dim(),
            }),
    {
        let gd = gradient.dim();
        let d = self.lazy_data.dim();
        if gd.0 != d.0 || gd.1 != d.1 {
            return Err(TensorError::ShapeMismatch { expected: d, found: gd });
        }
        self.gradient = Some(gradient);
        Ok(())
    }

    /// The gradient, if there is one.
    pub fn get_gradient(&self) -> (r: Option<&LazyBuffer<T>>)
        requires
            self.inv(),
        ensures
            r is None <==> self.model().gradient is None,
            r matches Some(g) ==> g.wf() && self.model().gradient == Some(g.spec_data())
                && g.spec_dim() == self.model().dim,
            r matches Some(g) ==> self.spec_gradient() == Some(*g),
    {
        match &self.gradient {
            Some(g) => Some(g),
            Option::None => Option::None,
        }
    }

    /// Removes the gradient.
    pub fn clear_gradient(&mut self)
        requires
            old(self).inv(),
        ensures
            final(self).inv(),
            final(self).model() == old(self).model().with_gradient(Option::None),
    {
        self.gradient = Option::None;
    }
}


/// The model of an optional gradient after a transpose of its tensor.
pub open spec fn transposed_gradient<T>(g: Option<Seq<T>>, rows: nat, cols: nat) -> Option<Seq<T>> {
    match g {
        Some(g) => Some(transpose_seq(g, rows, cols)),
        Option::None => Option::None,
    }
}

/// A tensor with rows and columns exchanged, in its data and its gradient.
pub open spec fn transposed_model<T>(m: TensorModel<T>) -> TensorModel<T> {
    TensorModel {
        data: transpose_seq(m.data, m.dim.0 as nat, m.dim.1 as nat),
        dim: (m.dim.1, m.dim.0),
        gradient: transposed_gradient(m.gradient, m.dim.0 as nat, m.dim.1 as nat),
        ..m
    }
}

impl<T: TensorTrait> Tensor<T> {
    /// A leaf tensor of shape `dim` with every element `fill_value`.
    pub fn full(dim: Dimensions, fill_value: T, device: Option<Device>, requires_grad: Option<bool>) -> (r:
        Tensor<T>)
        requires
            size_of(dim) <= usize::MAX,
        ensures
            r.inv(),
            r.model() == leaf_model(fill_seq(fill_value, size_of(dim)), dim, device, requires_grad),
    {
        let data = filled(fill_value, dim.0 * dim.1);
        Tensor::leaf(data, dim, device, requires_grad)
    }

    /// A leaf tensor of shape `dim` full of zeros.
    pub fn zeros(dim: Dimensions, device: Option<Device>, requires_grad: Option<bool>) -> (r: Tensor<T>)
        requires
            size_of(dim) <= usize::MAX,
        ensures
            r.inv(),
            r.model() == leaf_model(fill_seq(T::spec_zero(), size_of(dim)), dim, device, requires_grad),
    {
        Tensor::full(dim, T::zero(), device, requires_grad)
    }

    /// A leaf tensor of shape `dim` full of ones.
    pub fn ones(dim: Dimensions, device: Option<Device>, requires_grad: Option<bool>) -> (r: Tensor<T>)
        requires
            size_of(dim) <= usize::MAX,
        ensures
            r.inv(),
            r.model() == leaf_model(fill_seq(T::spec_one(), size_of(dim)), dim, device, requires_grad),
    {
        Tensor::full(dim, T::one(), device, requires_grad)
    }

    /// A leaf tensor with the shape, device and gradient request of `other`,
    /// with every element `fill_value`.
    pub fn full_like(other: Tensor<T>, fill_value: T) -> (r: Tensor<T>)
        requires
            other.inv(),
        ensures
            r.inv(),
            r.model() == leaf_model(
                fill_seq(fill_value, other.model().data.len()),
                other.model().dim,
                Some(other.model().device),
                Some(other.model().requires_grad),
            ),
    {
        let dim = other.dim();
        // The buffer's length bounds its size.
        let _len = other.data().len();
        let device = *other.device();
        let requires_grad = *other.requires_grad();
        Tensor::full(dim, fill_value, Some(device), Some(requires_grad))
    }

    /// Like `full_like`, with zeros.
    pub fn zeros_like(other: Tensor<T>) -> (r: Tensor<T>)
        requires
            other.inv(),
        ensures
            r.inv(),
            r.model() == leaf_model(
                fill_seq(T::spec_zero(), other.model().data.len()),
                other.model().dim,
                Some(other.model().device),
                Some(other.model().requires_grad),
            ),
    {
        Tensor::full_like(other, T::zero())
    }

    /// Like `full_like`, with ones.
    pub fn ones_like(other: Tensor<T>) -> (r: Tensor<T>)
        requires
            other.inv(),
        ensures
            r.inv(),
            r.model() == leaf_model(
                fill_seq(T::spec_one(), other.model().data.len()),
                other.model().dim,
                Some(other.model().device),
                Some(other.model().requires_grad),
            ),
    {
        Tensor::full_like(other, T::one())
    }

    /// Exchanges rows and columns of a leaf tensor, and of its gradient.
    pub fn transpose(&mut self)
        requires
            old(self).inv(),
            old(self).model().op == Ops::Leaf,
        ensures
            final(self).inv(),
            final(self).model() == transposed_model(old(self).model()),
    {
        let dim = self.lazy_data.dim();
        let new_data = crate::forward::utils::transpose_data(self.lazy_data.data(), dim);
        proof {
            assert(dim.1 * dim.0 == dim.0 * dim.1) by (nonlinear_arith);
        }
        let device = *self.lazy_data.device();
        self.lazy_data = LazyBuffer::with_shape(new_data, (dim.1, dim.0), device);
        match self.gradient.take() {
            Some(g) => {
                let gd = crate::forward::utils::transpose_data(g.data(), dim);
                self.gradient = Some(LazyBuffer::with_shape(gd, (dim.1, dim.0), *g.device()));
            },
            Option::None => {},
        }
    }

    /// The sum of all elements.
    pub fn sum(&self) -> (r: T)
        requires
            self.inv(),
        ensures
            r == sum_seq(self.model().data),
    {
        let data = self.lazy_data.data();
        let mut total = T::zero();
        let mut i: usize = 0;
        while i < data.len()
            invariant
                0 <= i <= data@.len(),
                total == sum_prefix(data@, i as nat),
            decreases data@.len() - i,
        {
            total = total.plus(data[i]);
            i = i + 1;
        }
        total
    }

    /// Replaces the elements by zeros, with `value` on the main diagonal.
    pub fn fill_diagonal(&mut self, value: T)
        requires
            old(self).inv(),
        ensures
            final(self).inv(),
            final(self).model() == (TensorModel {
                data: diagonal_seq(value, old(self).model().dim.0 as nat, old(self).model().dim.1 as nat),
                ..old(self).model()
            }),
    {
        let dim = self.lazy_data.dim();
        let n = self.lazy_data.data().len();
        let zero = T::zero();
        let ghost spec_d = diagonal_seq(value, dim.0 as nat, dim.1 as nat);
        let mut new_data: Vec<T> = Vec::new();
        let mut p: usize = 0;
        while p < n
            invariant
                n == dim.0 * dim.1,
                spec_d == diagonal_seq(value, dim.0 as nat, dim.1 as nat),
                zero == T::spec_zero(),
                0 <= p <= n,
                new_data@ =~= spec_d.take(p as int),
            decreases n - p,
        {
            let v = if p / dim.1 == p % dim.1 {
                value
            } else {
                zero
            };
            new_data.push(v);
            p = p + 1;
        }
        proof {
            assert(spec_d.take(n as int) =~= spec_d);
        }
        self.lazy_data.set_data(new_data);
    }

    /// Reads a leaf tensor as a single row.
    pub fn flatten(&mut self)
        requires
            old(self).inv(),
            old(self).model().op == Ops::Leaf,
        ensures
            final(self).inv(),
            final(self).model() == (TensorModel {
                dim: (1usize, (old(self).model().dim.0 * old(self).model().dim.1) as usize),
                ..old(self).model()
            }),
    {
        let dim = self.lazy_data.dim();
        let n = self.lazy_data.data().len();
        self.set_dim((1, n));
    }
}

/// The backward pass from `val`, whose gradient becomes `grad`: each operand
/// adds the contribution of `grad` to its own gradient, and the pass goes on
/// from each operand, first then second, with that sum.
pub fn backward_helper<T: TensorTrait>(val: &mut Tensor<T>, grad: DataArray<T>)
    requires
        old(val).inv(),
        old(val).model().supported(),
        grad@.len() == old(val).model().data.len(),
    ensures
        final(val).inv(),
        final(val).model() == propagate(old(val).model(), grad@),
    decreases *old(val),
{
    let ghost m = val.model();
    proof {
        val.lemma_children_inv();
    }
    let (cl, cr) = if val.op == Ops::Leaf {
        (Vec::new(), Vec::new())
    } else {
        crate::backward::backward_by_operation(&*val, &grad)
    };
    let dim = val.lazy_data.dim();
    val.gradient = Some(LazyBuffer::with_shape(grad, dim, Device::CPU));
    match val.left.take() {
        Some(mut l) => {
            let incoming = crate::backward::accumulate_gradient(&l.gradient, cl);
            backward_helper(&mut *l, incoming);
            val.left = Some(l);
        },
        Option::None => {},
    }
    match val.right.take() {
        Some(mut r) => {
            let incoming = crate::backward::accumulate_gradient(&r.gradient, cr);
            backward_helper(&mut *r, incoming);
            val.right = Some(r);
        },
        Option::None => {},
    }
}

impl<T: TensorTrait> Tensor<T> {
    /// The backward pass from this tensor, if it asks for a gradient: its
    /// gradient is set to ones, and every tensor below it receives the sum of
    /// the contributions of its consumers (see `propagate`).
    pub fn backward(&mut self)
        requires
            old(self).inv(),
            old(self).model().requires_grad ==> old(self).model().supported(),
        ensures
            final(self).inv(),
            final(self).model() == backward_result(old(self).model()),
    {
        if !self.requires_grad {
            return;
        }
        let n = self.lazy_data.data().len();
        let ones = filled(T::one(), n);
        backward_helper(self, ones);
    }
}

impl<T: TensorTrait> Tensor<T> {
    /// A leaf tensor of shape `dim` whose elements are independent random
    /// values between `low` and `high` (see `random_number`). Fails with
    /// `RandomUnavailable` when the system's random source fails.
    pub fn uniform(
        dim: Dimensions,
        low: T,
        high: T,
        device: Option<Device>,
        requires_grad: Option<bool>,
    ) -> (r: Result<Tensor<T>, TensorError>)
        requires
            size_of(dim) <= usize::MAX,
        ensures
            r matches Ok(t) ==> t.inv() && t.model() == leaf_model(t.model().data, dim, device, requires_grad)
                && t.model().data.len() == size_of(dim) && forall|p: int|
                0 <= p < t.model().data.len() ==> is_sample(#[trigger] t.model().data[p], low, high),
            r matches Err(e) ==> e == TensorError::RandomUnavailable,
            size_of(dim) == 0 ==> r is Ok,
    {
        let n = dim.0 * dim.1;
        let mut new_data: Vec<T> = Vec::new();
        let mut i: usize = 0;
        while i < n
            invariant
                n == size_of(dim),
                0 <= i <= n,
                new_data@.len() == i,
                forall|p: int| 0 <= p < i ==> is_sample(#[trigger] new_data@[p], low, high),
            decreases n - i,
        {
            let v = random_number(low, high)?;
            new_data.push(v);
            i = i + 1;
        }
        Ok(Tensor::leaf(new_data, dim, device, requires_grad))
    }

    /// Like `uniform`, between zero and one.
    pub fn rand(dim: Dimensions, device: Option<Device>, requires_grad: Option<bool>) -> (r: Result<
        Tensor<T>,
        TensorError,
    >)
        requires
            size_of(dim) <= usize::MAX,
        ensures
            r matches Ok(t) ==> t.inv() && t.model() == leaf_model(t.model().data, dim, device, requires_grad)
                && t.model().data.len() == size_of(dim) && forall|p: int|
                0 <= p < t.model().data.len() ==> is_sample(
                    #[trigger] t.model().data[p],
                    T::spec_zero(),
                    T::spec_one(),
                ),
            r matches Err(e) ==> e == TensorError::RandomUnavailable,
            size_of(dim) == 0 ==> r is Ok,
    {
        Tensor::uniform(dim, T::zero(), T::one(), device, requires_grad)
    }
}

/// The buffer that node `m` computes from its operands' current buffers, for
/// an operation with a forward rule.
pub open spec fn node_forward<T: TensorTrait>(m: TensorModel<T>) -> Seq<T> {
    match (m.op, m.left, m.right) {
        (Ops::BinaryOps(b), Some(l), Some(r)) => match crate::ops::binary_forward(b, l.data, l.dim, r.data, r.dim) {
            Some(d) => d,
            Option::None => m.data,
        },
        (Ops::UnaryOps(_), Some(l), _) => crate::nn::transformation::max_seq(
            l.data,
            match m.threshold {
                Some(c) => c,
                Option::None => T::spec_zero(),
            },
        ),
        (Ops::ReduceOps(_), Some(l), _) => seq![crate::matrix::sum_seq(l.data)],
        _ => m.data,
    }
}

/// Recomputes the buffer of `child` from the current buffers of its operands,
/// by the forward rule of its operation.
pub fn forward_by_operation<T: TensorTrait>(child: &mut Tensor<T>)
    requires
        old(child).inv(),
        has_forward_rule(old(child).model().op),
    ensures
        final(child).inv(),
        final(child).model() == (TensorModel { data: node_forward(old(child).model()), ..old(child).model() }),
{
    proof {
        child.lemma_children_inv();
    }
    let new_data = match (child.op, &child.left, &child.right) {
        (Ops::BinaryOps(b), Some(l), Some(r)) => {
            match crate::forward::forward_binary(b, l.data(), l.dim(), r.data(), r.dim()) {
                Ok(d) => d,
                Err(_) => {
                    proof {
                        assert(false);
                    }
                    return;
                },
            }
        },
        (Ops::UnaryOps(u), Some(l), _) => {
            let c = match child.threshold {
                Some(c) => c,
                Option::None => T::zero(),
            };
            crate::forward::forward_unary(u, l.data(), c)
        },
        (Ops::ReduceOps(rd), Some(l), _) => crate::forward::forward_reduce(rd, l.data()),
        _ => {
            proof {
                assert(false);
            }
            return;
        },
    };
    child.lazy_data.set_data(new_data);
}

/// Each element of `data` plus `factor` times the matching element of `grad`.
pub open spec fn adjusted<T: TensorTrait>(data: Seq<T>, grad: Seq<T>, factor: T) -> Seq<T> {
    Seq::new(data.len(), |p: int| T::spec_add(data[p], T::spec_mul(factor, grad[p])))
}

impl<T: TensorTrait> Tensor<T> {
    /// Moves every element by `factor` times its gradient (a gradient step
    /// when `factor` is minus the learning rate).
    pub fn adjust(&mut self, factor: T)
        requires
            old(self).inv(),
            old(self).model().gradient is Some,
        ensures
            final(self).inv(),
            final(self).model() == (TensorModel {
                data: adjusted(old(self).model().data, old(self).model().gradient->Some_0, factor),
                ..old(self).model()
            }),
    {
        let new_data = match &self.gradient {
            Some(g) => {
                let d = self.lazy_data.data();
                let gd = g.data();
                let mut r: Vec<T> = Vec::new();
                let mut i: usize = 0;
                while i < d.len()
                    invariant
                        gd@.len() == d@.len(),
                        0 <= i <= d@.len(),
                        r@ =~= adjusted(d@, gd@, factor).take(i as int),
                    decreases d@.len() - i,
                {
                    r.push(d[i].plus(factor.times(gd[i])));
                    i = i + 1;
                }
                proof {
                    assert(adjusted(d@, gd@, factor).take(d@.len() as int) =~= adjusted(d@, gd@, factor));
                }
                r
            },
            Option::None => {
                return;
            },
        };
        self.lazy_data.set_data(new_data);
    }
}

} // verus!
