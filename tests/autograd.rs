use nanograd::nn::activation::relu;
use nanograd::nn::linear::Linear;
use nanograd::nn::transformation::{max, sum};
use nanograd::types::ops::UnaryOps;
use nanograd::{Ops, Tensor, TensorError};

fn leaf(data: Vec<i64>, dim: (usize, usize)) -> Tensor<i64> {
    Tensor::new(data, dim, None, Some(true)).unwrap()
}

fn grad(t: &Tensor<i64>) -> Vec<i64> {
    t.get_gradient().unwrap().data().clone()
}

#[test]
fn scalar_root_is_seeded_with_one() {
    let mut t: Tensor<i64> = Tensor::new(vec![42], (1, 1), None, Some(true)).unwrap();
    t.clear_gradient();
    t.backward();
    assert_eq!(grad(&t), vec![1]);
}

#[test]
fn root_without_gradient_request_is_untouched() {
    let mut t: Tensor<i64> = Tensor::new(vec![42], (1, 1), None, None).unwrap();
    t.backward();
    assert!(t.get_gradient().is_none());
}

#[test]
fn sum_gradient_is_broadcast() {
    let x = leaf(vec![3, 1, 4, 1, 5, 9], (2, 3));
    let mut s = sum(x);
    s.backward();
    assert_eq!(grad(&s), vec![1]);
    assert_eq!(grad(s.left().unwrap()), vec![1, 1, 1, 1, 1, 1]);
}

#[test]
fn gradients_accumulate_over_backward_calls() {
    let mut s = sum(leaf(vec![3, 1], (1, 2)));
    s.backward();
    s.backward();
    assert_eq!(grad(s.left().unwrap()), vec![2, 2]);
}

#[test]
fn add_and_sub_gradients() {
    let a = leaf(vec![1, 2], (1, 2));
    let b = leaf(vec![3, 4], (1, 2));
    let mut s = sum(nanograd::sub(a, b).unwrap());
    s.backward();
    let d = s.left().unwrap();
    assert_eq!(grad(d), vec![1, 1]);
    assert_eq!(grad(d.left().unwrap()), vec![1, 1]);
    assert_eq!(grad(d.right().unwrap()), vec![-1, -1]);

    let a = leaf(vec![1, 2], (1, 2));
    let b = leaf(vec![3, 4], (1, 2));
    let mut s = sum(nanograd::add(a, b).unwrap());
    s.backward();
    let d = s.left().unwrap();
    assert_eq!(grad(d.left().unwrap()), vec![1, 1]);
    assert_eq!(grad(d.right().unwrap()), vec![1, 1]);
}

#[test]
fn matmul_gradients() {
    // a is 2x3, b is 3x1; with an upstream gradient of ones,
    // da = g . b^T and db = a^T . g.
    let a = leaf(vec![1, 2, 3, 4, 5, 6], (2, 3));
    let b = leaf(vec![7, 8, 9], (3, 1));
    let mut s = sum(nanograd::mul(a, b).unwrap());
    s.backward();
    let p = s.left().unwrap();
    assert_eq!(p.dim(), (2, 1));
    assert_eq!(grad(p.left().unwrap()), vec![7, 8, 9, 7, 8, 9]);
    assert_eq!(grad(p.right().unwrap()), vec![5, 7, 9]);
}

#[test]
fn max_gradient_is_masked() {
    let mut s = sum(max(leaf(vec![-3, 1, 2, 5], (2, 2)), 1));
    s.backward();
    assert_eq!(grad(s.left().unwrap().left().unwrap()), vec![0, 0, 1, 1]);
    let mut s = sum(relu(leaf(vec![-1, 4], (1, 2))));
    s.backward();
    assert_eq!(grad(s.left().unwrap().left().unwrap()), vec![0, 1]);
}

#[test]
fn sigmoid_gradient_uses_cached_output() {
    // The output element stands for sigmoid(x); the gradient is y * (1 - y).
    let x: Tensor<i64> = Tensor::new(vec![0], (1, 1), None, None).unwrap();
    let mut y = Tensor::_build_raw(vec![3], (1, 1), None, Some(true), Some(Ops::UnaryOps(UnaryOps::Sigmoid)), Some(x), None).unwrap();
    y.backward();
    assert_eq!(grad(y.left().unwrap()), vec![-6]);
}

#[test]
fn exp2_and_softmax_gradients() {
    let x: Tensor<i64> = Tensor::new(vec![1, 2], (1, 2), None, None).unwrap();
    let y = Tensor::_build_raw(vec![2, 4], (1, 2), None, Some(true), Some(Ops::UnaryOps(UnaryOps::EXP2)), Some(x), None).unwrap();
    let mut s = sum(y);
    s.backward();
    assert_eq!(grad(s.left().unwrap().left().unwrap()), vec![2, 4]);

    let x: Tensor<i64> = Tensor::new(vec![1, 2], (1, 2), None, None).unwrap();
    let y = Tensor::_build_raw(vec![2, 0], (1, 2), None, Some(true), Some(Ops::UnaryOps(UnaryOps::Softmax)), Some(x), None).unwrap();
    let mut s = sum(y);
    s.backward();
    assert_eq!(grad(s.left().unwrap().left().unwrap()), vec![-2, 0]);
}

#[test]
fn training_step_gradients_are_nonzero() {
    // loss = sum((x . w - t) . (x . w - t)^T) for a single example.
    let x = vec![1, 2];
    let w = vec![1, 1];
    let t = vec![5];
    let pred = nanograd::mul(leaf(x.clone(), (1, 2)), leaf(w.clone(), (2, 1))).unwrap();
    let d1 = nanograd::sub(pred, leaf(t.clone(), (1, 1))).unwrap();
    let pred = nanograd::mul(leaf(x.clone(), (1, 2)), leaf(w.clone(), (2, 1))).unwrap();
    let d2 = nanograd::sub(pred, leaf(t.clone(), (1, 1))).unwrap();
    let mut loss = sum(nanograd::mul(d1, d2).unwrap());
    assert_eq!(loss.data(), &vec![4]);
    loss.backward();
    let sq = loss.left().unwrap();
    let w_grad = grad(sq.left().unwrap().left().unwrap().right().unwrap());
    // d loss / d w along the first copy: (x . w - t) * x = -2 * [1, 2]
    assert_eq!(w_grad, vec![-2, -4]);
}

#[test]
fn random_leaves_stay_in_range() {
    let t: Tensor<i64> = Tensor::uniform((3, 4), 5, 10, None, Some(true)).unwrap();
    assert_eq!(t.dim(), (3, 4));
    assert!(t.data().iter().all(|v| *v >= 5 && *v < 10));
    let r: Tensor<i64> = Tensor::rand((2, 2), None, None).unwrap();
    assert_eq!(r.data(), &vec![0, 0, 0, 0]);
    let v: i64 = nanograd::random_number(-3, 3).unwrap();
    assert!(v >= -3 && v < 3);
}

#[test]
fn linear_layer_forward() {
    let layer: Linear<i64> = Linear::new(2, 3, None).unwrap();
    let out = layer.forward(leaf(vec![1, 2, 3], (1, 3))).unwrap();
    assert_eq!(out.dim(), (1, 2));
    let layer: Linear<i64> = Linear::new(2, 3, Some(true)).unwrap();
    let r = layer.forward(leaf(vec![1, 2, 3], (1, 3)));
    assert_eq!(r.err(), Some(TensorError::ShapeMismatch { expected: (1, 2), found: (2, 3) }));
}

/// Squared error of a one-example linear model, built with two copies of the
/// weight since a tensor has a single consumer.
fn squared_error(w: &[i64]) -> Tensor<i64> {
    let pred = nanograd::mul(leaf(vec![1, 0], (1, 2)), leaf(w.to_vec(), (2, 1))).unwrap();
    let d1 = nanograd::sub(pred, leaf(vec![5], (1, 1))).unwrap();
    let pred = nanograd::mul(leaf(vec![1, 0], (1, 2)), leaf(w.to_vec(), (2, 1))).unwrap();
    let d2 = nanograd::sub(pred, leaf(vec![5], (1, 1))).unwrap();
    sum(nanograd::mul(d1, d2).unwrap())
}

#[test]
fn training_step_lowers_loss() {
    let mut loss = squared_error(&[1, 1]);
    assert_eq!(loss.data(), &vec![16]);
    loss.backward();
    // loss -> product -> first difference -> prediction -> weight
    let (product, _) = loss.into_operands();
    let (d1, _) = product.unwrap().into_operands();
    let (pred, _) = d1.unwrap().into_operands();
    let (_, w) = pred.unwrap().into_operands();
    let mut w = w.unwrap();
    assert_eq!(grad(&w), vec![-4, 0]);
    w.adjust(-1);
    assert_eq!(w.data(), &vec![5, 1]);
    let next = squared_error(w.data());
    assert_eq!(next.data(), &vec![0]);
    assert!(next.data()[0] < 16);
}

#[test]
fn empty_random_leaves_always_succeed() {
    let t: Tensor<i64> = Tensor::uniform((0, 4), 1, 2, None, None).unwrap();
    assert_eq!(t.dim(), (0, 4));
    let r: Tensor<i64> = Tensor::rand((3, 0), None, Some(true)).unwrap();
    assert!(r.data().is_empty());
    assert!(Linear::<i64>::new(0, 5, Some(true)).is_ok());
}

#[test]
fn gradient_buffer_reads_back_as_set() {
    let mut t = leaf(vec![1, 2], (1, 2));
    let g = nanograd::LazyBuffer::new(vec![3i64, 4], (1, 2), Some(nanograd::Device::OPENCL)).unwrap();
    t.set_gradient(g).unwrap();
    let back = t.get_gradient().unwrap();
    assert_eq!(*back.device(), nanograd::Device::OPENCL);
    assert_eq!(back.data(), &vec![3, 4]);
}

#[test]
fn sigmoid_gradient_scales_with_upstream() {
    // y = sigmoid(x) with cached output [2, 3]; s = sum(y) seeds g = 1 into y,
    // and mul_scalar doubles it on the way.
    let x: Tensor<i64> = Tensor::new(vec![0, 0], (1, 2), None, None).unwrap();
    let y = Tensor::_build_raw(vec![2, 3], (1, 2), None, Some(true), Some(Ops::UnaryOps(UnaryOps::Sigmoid)), Some(x), None).unwrap();
    let mut s = sum(y.mul_scalar(2));
    s.backward();
    let y = s.left().unwrap().left().unwrap();
    assert_eq!(grad(y), vec![2, 2]);
    assert_eq!(grad(y.left().unwrap()), vec![-4, -12]);
}
