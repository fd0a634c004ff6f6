//! The mathematical model of a computation tree, and the meaning of the
//! backward pass over it.
use vstd::prelude::*;
use crate::matrix::{add_seq, fill_seq, matmul_seq, neg_seq, transpose_seq};
use crate::traits::TensorTrait;
use crate::types::device::Device;
use crate::types::lazy::{Dimensions, size_of};
use crate::types::ops::{BinaryOps, Ops, ReduceOps, UnaryOps};

verus! {

/// What a tensor holds, with the tensors below it.
pub struct TensorModel<T> {
    pub data: Seq<T>,
    pub dim: Dimensions,
    pub device: Device,
    pub requires_grad: bool,
    pub op: Ops,
    pub left: Option<Box<TensorModel<T>>>,
    pub right: Option<Box<TensorModel<T>>>,
    pub gradient: Option<Seq<T>>,
    /// The constant that a `MAX` node compares its operand with.
    pub threshold: Option<T>,
}

impl<T> TensorModel<T> {
    /// The node with its gradient replaced by `g`.
    pub open spec fn with_gradient(self, g: Option<Seq<T>>) -> TensorModel<T> {
        TensorModel { gradient: g, ..self }
    }

    /// The shape rule of the node's own operation, against its operands.
    pub open spec fn node_fits(self) -> bool {
        operands_fit(self.op, self.dim, self.left, self.right, self.threshold)
    }

    /// The elements number `rows * cols`, a gradient has as many, and every node
    /// fits the shape rule of its operation.
    pub open spec fn wf(self) -> bool
        decreases self,
    {
        &&& self.data.len() == size_of(self.dim)
        &&& (self.gradient matches Some(g) ==> g.len() == self.data.len())
        &&& self.node_fits()
        &&& (self.left matches Some(l) ==> l.wf())
        &&& (self.right matches Some(r) ==> r.wf())
    }

    /// Every node's operation has a gradient rule.
    pub open spec fn supported(self) -> bool
        decreases self,
    {
        &&& self.op.has_backward_rule()
        &&& (self.left matches Some(l) ==> l.supported())
        &&& (self.right matches Some(r) ==> r.supported())
    }
}

/// Whether operands `left` and `right` (and a threshold) fit a node of shape
/// `dim` made by `op`: `Leaf` and the operations without rules take no operand,
/// an elementwise operation takes one of the node's shape (a `MAX` also takes a
/// threshold), a reduction one operand and yields 1×1, `ADD` and `SUB` take two
/// of the node's shape, and `MUL` an m×k and a k×n operand for an m×n node.
pub open spec fn operands_fit<T>(
    op: Ops,
    dim: Dimensions,
    left: Option<Box<TensorModel<T>>>,
    right: Option<Box<TensorModel<T>>>,
    threshold: Option<T>,
) -> bool {
    match op {
        Ops::BinaryOps(b) => match (left, right) {
            (Some(l), Some(r)) => match b {
                BinaryOps::MUL => l.dim.1 == r.dim.0 && dim == (l.dim.0, r.dim.1),
                _ => l.dim == dim && r.dim == dim,
            },
            _ => false,
        },
        Ops::UnaryOps(u) => right is None && match left {
            Some(l) => l.dim == dim && (u == UnaryOps::MAX ==> threshold is Some),
            Option::None => false,
        },
        Ops::ReduceOps(_) => right is None && left is Some && dim == (1usize, 1usize),
        _ => left is None && right is None,
    }
}

/// The operations whose buffer this engine computes by ring operations alone.
pub open spec fn has_forward_rule(op: Ops) -> bool {
    match op {
        Ops::BinaryOps(_) => true,
        Ops::UnaryOps(u) => u == UnaryOps::MAX,
        Ops::ReduceOps(r) => r == ReduceOps::SUM,
        _ => false,
    }
}

/// A new contribution `c` added to a gradient that may not exist yet.
pub open spec fn accumulate<T: TensorTrait>(prev: Option<Seq<T>>, c: Seq<T>) -> Seq<T> {
    match prev {
        Some(p) => add_seq(p, c),
        Option::None => c,
    }
}

/// The contributions of an upstream gradient `g` to the two operands `a`
/// (shape `ad`) and `b` (shape `bd`) of a binary operation.
pub open spec fn binary_contribution<T: TensorTrait>(
    op: BinaryOps,
    g: Seq<T>,
    a: Seq<T>,
    ad: Dimensions,
    b: Seq<T>,
    bd: Dimensions,
) -> (Seq<T>, Seq<T>) {
    match op {
        BinaryOps::ADD => (g, g),
        BinaryOps::SUB => (g, neg_seq(g)),
        BinaryOps::MUL => (
            matmul_seq(g, transpose_seq(b, bd.0 as nat, bd.1 as nat), ad.0 as nat, bd.1 as nat, bd.0 as nat),
            matmul_seq(transpose_seq(a, ad.0 as nat, ad.1 as nat), g, ad.1 as nat, ad.0 as nat, bd.1 as nat),
        ),
    }
}

/// The contribution of an upstream gradient `g` to the operand `x` of an
/// elementwise operation with output `y` (and threshold `c` for `MAX`):
/// for `MAX`, `(x > c ? 1 : 0) * g`; for `Sigmoid` and `Softmax`,
/// `g * y * (1 - y)` from the cached output (for softmax, the diagonal of its
/// Jacobian only); for `EXP2`, `g * y`. The derivative of `2^x` is
/// `2^x * ln 2`; ln 2 has no value in an exact element type, so the factor is
/// left out and this rule is the derivative up to that constant.
pub open spec fn unary_contribution<T: TensorTrait>(
    op: UnaryOps,
    g: Seq<T>,
    x: Seq<T>,
    y: Seq<T>,
    c: T,
) -> Seq<T> {
    Seq::new(
        g.len(),
        |p: int|
            match op {
                UnaryOps::MAX => T::spec_mul(
                    if T::spec_gt(x[p], c) {
                        T::spec_one()
                    } else {
                        T::spec_zero()
                    },
                    g[p],
                ),
                UnaryOps::Sigmoid => T::spec_mul(T::spec_mul(g[p], y[p]), T::spec_sub(T::spec_one(), y[p])),
                UnaryOps::Softmax => T::spec_mul(T::spec_mul(g[p], y[p]), T::spec_sub(T::spec_one(), y[p])),
                _ => T::spec_mul(g[p], y[p]),
            },
    )
}

/// The contribution of the upstream gradient `g` of a 1×1 reduction to its
/// operand of `n` elements.
pub open spec fn reduce_contribution<T: TensorTrait>(op: ReduceOps, g: Seq<T>, n: nat) -> Seq<T> {
    fill_seq(g[0], n)
}

/// The contributions of the upstream gradient `g` of node `m` to its first
/// and second operand (empty where there is none).
pub open spec fn contributions<T: TensorTrait>(m: TensorModel<T>, g: Seq<T>) -> (Seq<T>, Seq<T>) {
    match m.op {
        Ops::BinaryOps(b) => match (m.left, m.right) {
            (Some(l), Some(r)) => binary_contribution(b, g, l.data, l.dim, r.data, r.dim),
            _ => (Seq::empty(), Seq::empty()),
        },
        Ops::UnaryOps(u) => match m.left {
            Some(l) => (
                unary_contribution(
                    u,
                    g,
                    l.data,
                    m.data,
                    match m.threshold {
                        Some(c) => c,
                        Option::None => T::spec_zero(),
                    },
                ),
                Seq::empty(),
            ),
            Option::None => (Seq::empty(), Seq::empty()),
        },
        Ops::ReduceOps(rd) => match m.left {
            Some(l) => (reduce_contribution(rd, g, l.data.len()), Seq::empty()),
            Option::None => (Seq::empty(), Seq::empty()),
        },
        _ => (Seq::empty(), Seq::empty()),
    }
}

/// The tree after the backward pass from a node whose gradient is `g`: the node
/// keeps `g`, each operand adds its contribution to its own gradient, and the
/// pass goes on from each operand with that sum.
pub open spec fn propagate<T: TensorTrait>(m: TensorModel<T>, g: Seq<T>) -> TensorModel<T>
    decreases m,
{
    let c = contributions(m, g);
    TensorModel {
        gradient: Some(g),
        left: match m.left {
            Some(l) => Some(Box::new(propagate(*l, accumulate(l.gradient, c.0)))),
            Option::None => Option::None,
        },
        right: match m.right {
            Some(r) => Some(Box::new(propagate(*r, accumulate(r.gradient, c.1)))),
            Option::None => Option::None,
        },
        ..m
    }
}

/// The tree after `backward` on its root: nothing changes unless the root
/// requires a gradient; if it does, the root is seeded with ones.
pub open spec fn backward_result<T: TensorTrait>(m: TensorModel<T>) -> TensorModel<T> {
    if m.requires_grad {
        propagate(m, fill_seq(T::spec_one(), m.data.len()))
    } else {
        m
    }
}

} // verus!
