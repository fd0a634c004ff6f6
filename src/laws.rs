//! Facts about the operations that hold for every input.
use vstd::prelude::*;
use crate::matrix::{
    add_seq, fill_seq, lemma_index, lemma_index_bound, lemma_split_index, sub_seq, sum_seq,
    transpose_seq,
};
use crate::model::{TensorModel, backward_result, propagate};
use crate::ops::{binary_forward, binary_result};
use crate::tensor::{leaf_model, result_model, transposed_model};
use crate::traits::TensorTrait;
use crate::types::lazy::size_of;
use crate::types::ops::{BinaryOps, Ops, ReduceOps, UnaryOps};

verus! {

/// The product of an m×k and a k×n tensor is an m×n tensor, and there is no
/// product when the columns of the first are not the rows of the second.
pub proof fn lemma_matmul_shape<T: TensorTrait>(a: TensorModel<T>, b: TensorModel<T>)
    ensures
        binary_result(BinaryOps::MUL, a, b) is Some <==> a.dim.1 == b.dim.0,
        binary_result(BinaryOps::MUL, a, b) matches Some(c) ==> c.dim == (a.dim.0, b.dim.1)
            && c.data.len() == size_of((a.dim.0, b.dim.1)),
{
}

/// Adding (or subtracting) a tensor of zeros of the same shape, as
/// `zeros_like` makes it, leaves every element as it was.
pub proof fn lemma_add_sub_zeros<T: TensorTrait>(a: TensorModel<T>)
    requires
        a.wf(),
    ensures
        ({
            let z = leaf_model(
                fill_seq(T::spec_zero(), a.data.len()),
                a.dim,
                Some(a.device),
                Some(a.requires_grad),
            );
            &&& binary_forward(BinaryOps::ADD, a.data, a.dim, z.data, z.dim) == Some(a.data)
            &&& binary_forward(BinaryOps::SUB, a.data, a.dim, z.data, z.dim) == Some(a.data)
        }),
{
    let z = fill_seq(T::spec_zero(), a.data.len());
    assert forall|p: int| 0 <= p < a.data.len() implies add_seq(a.data, z)[p] == a.data[p] by {
        T::lemma_add_zero(a.data[p]);
    }
    assert forall|p: int| 0 <= p < a.data.len() implies sub_seq(a.data, z)[p] == a.data[p] by {
        T::lemma_sub_zero(a.data[p]);
    }
    assert(add_seq(a.data, z) =~= a.data);
    assert(sub_seq(a.data, z) =~= a.data);
}

/// Transposing twice restores the elements of a rows×cols matrix.
pub proof fn lemma_transpose_seq_involution<T>(a: Seq<T>, rows: nat, cols: nat)
    requires
        a.len() == rows * cols,
    ensures
        transpose_seq(transpose_seq(a, rows, cols), cols, rows) == a,
{
    let t = transpose_seq(a, rows, cols);
    let tt = transpose_seq(t, cols, rows);
    assert(cols * rows == rows * cols) by (nonlinear_arith);
    assert forall|p: int| 0 <= p < a.len() implies tt[p] == a[p] by {
        // p is (i, j) of the rows×cols matrix; in t it stands at (j, i).
        assert(cols > 0) by (nonlinear_arith)
            requires
                0 <= p < rows * cols,
        ;
        lemma_split_index(p, rows as int, cols as int);
        let i = p / cols as int;
        let j = p % cols as int;
        lemma_index_bound(j, i, cols as int, rows as int);
        lemma_index(j, i, rows as int);
        assert(tt[p] == t[(p % cols as int) * rows + p / cols as int]);
        assert(t[j * rows + i] == a[i * cols + j]);
    }
    assert(tt =~= a);
}

/// Transposing a tensor twice restores its shape, its elements and its gradient.
pub proof fn lemma_transpose_involution<T>(m: TensorModel<T>)
    requires
        m.wf(),
    ensures
        transposed_model(transposed_model(m)) == m,
{
    lemma_transpose_seq_involution(m.data, m.dim.0 as nat, m.dim.1 as nat);
    if let Some(g) = m.gradient {
        lemma_transpose_seq_involution(g, m.dim.0 as nat, m.dim.1 as nat);
    }
}

/// After `backward` on a 1×1 root that asks for a gradient and has none yet,
/// the root's gradient is the single element one.
pub proof fn lemma_gradient_seeding<T: TensorTrait>(m: TensorModel<T>)
    requires
        m.wf(),
        m.dim == (1usize, 1usize),
        m.requires_grad,
        m.gradient is None,
    ensures
        backward_result(m).gradient == Some(seq![T::spec_one()]),
{
    assert(fill_seq(T::spec_one(), m.data.len()) =~= seq![T::spec_one()]);
}

/// For `s = sum(x)`, after `s.backward()` every element of the gradient of `x`
/// is one, when `x` had no gradient or an all-zero one before.
pub proof fn lemma_sum_gradient_broadcast<T: TensorTrait>(x: TensorModel<T>)
    requires
        x.wf(),
        x.gradient is None || x.gradient == Some(fill_seq(T::spec_zero(), x.data.len())),
    ensures
        ({
            let s = result_model(
                seq![sum_seq(x.data)],
                (1usize, 1usize),
                Ops::ReduceOps(ReduceOps::SUM),
                Some(Box::new(x)),
                Option::None,
                Option::None,
            );
            backward_result(s).left matches Some(l) && l.gradient == Some(
                fill_seq(T::spec_one(), x.data.len()),
            )
        }),
{
    let ones = fill_seq(T::spec_one(), x.data.len());
    let zeros = fill_seq(T::spec_zero(), x.data.len());
    let s = result_model(
        seq![sum_seq(x.data)],
        (1usize, 1usize),
        Ops::ReduceOps(ReduceOps::SUM),
        Some(Box::new(x)),
        Option::None,
        Option::None,
    );
    let g = fill_seq(T::spec_one(), s.data.len());
    assert(g[0] == T::spec_one());
    let c = crate::model::contributions(s, g);
    assert(c.0 =~= ones);
    assert forall|p: int| 0 <= p < x.data.len() implies add_seq(zeros, ones)[p] == ones[p] by {
        T::lemma_zero_add(T::spec_one());
    }
    assert(add_seq(zeros, ones) =~= ones);
    let acc = crate::model::accumulate(x.gradient, c.0);
    assert(acc == ones);
    assert(propagate(x, acc).gradient == Some(acc));
    assert(backward_result(s) == propagate(s, g));
}

/// For `y = sigmoid(x)` with a 1×1 output that asks for a gradient, after
/// `y.backward()` the gradient of `x` is `y * (1 - y)`, when `x` had none before.
pub proof fn lemma_sigmoid_derivative<T: TensorTrait>(m: TensorModel<T>)
    requires
        m.wf(),
        m.op == Ops::UnaryOps(UnaryOps::Sigmoid),
        m.dim == (1usize, 1usize),
        m.requires_grad,
        m.left matches Some(x) && x.gradient is None,
    ensures
        backward_result(m).left matches Some(x) && x.gradient == Some(
            seq![T::spec_mul(m.data[0], T::spec_sub(T::spec_one(), m.data[0]))],
        ),
{
    let y = m.data[0];
    T::lemma_one_mul(y);
    let l = *m.left->Some_0;
    assert(m.dim.0 * m.dim.1 == 1) by (nonlinear_arith)
        requires
            m.dim.0 == 1,
            m.dim.1 == 1,
    ;
    assert(m.data.len() == 1);
    let g = fill_seq(T::spec_one(), m.data.len());
    assert(g[0] == T::spec_one());
    let c = crate::model::contributions(m, g).0;
    assert(c =~= seq![T::spec_mul(y, T::spec_sub(T::spec_one(), y))]);
    let acc = crate::model::accumulate(l.gradient, c);
    assert(acc == c);
    assert(propagate(l, acc).gradient == Some(acc));
    assert(backward_result(m) == propagate(m, g));
}

/// For `y = sigmoid(x)`, the backward pass from `y` with upstream gradient
/// `g` adds `g * s * (1 - s)` to the gradient of `x` at every element, where
/// `s` is the cached output of `y` (nothing is recomputed from `x`).
pub proof fn lemma_sigmoid_rule<T: TensorTrait>(m: TensorModel<T>, g: Seq<T>)
    requires
        m.wf(),
        m.op == Ops::UnaryOps(UnaryOps::Sigmoid),
        g.len() == m.data.len(),
    ensures
        propagate(m, g).left matches Some(x) && m.left matches Some(x0) && x.data == x0.data
            && x.gradient == Some(
            crate::model::accumulate(
                x0.gradient,
                Seq::new(
                    g.len(),
                    |i: int| T::spec_mul(T::spec_mul(g[i], m.data[i]), T::spec_sub(T::spec_one(), m.data[i])),
                ),
            ),
        ),
{
    let x0 = *m.left->Some_0;
    let c = crate::model::contributions(m, g).0;
    assert(c =~= Seq::new(
        g.len(),
        |i: int| T::spec_mul(T::spec_mul(g[i], m.data[i]), T::spec_sub(T::spec_one(), m.data[i])),
    ));
    let acc = crate::model::accumulate(x0.gradient, c);
    assert(propagate(x0, acc).gradient == Some(acc));
    assert(propagate(x0, acc).data == x0.data);
}

} // verus!
