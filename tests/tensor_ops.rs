use nanograd::nn::activation::relu;
use nanograd::nn::transformation::{max, sum};
use nanograd::types::ops::{BinaryOps, UnaryOps};
use nanograd::{Device, LazyBuffer, Ops, Tensor, TensorError, TensorTrait};

fn leaf(data: Vec<i64>, dim: (usize, usize)) -> Tensor<i64> {
    Tensor::new(data, dim, None, Some(true)).unwrap()
}

#[test]
fn add_two_by_two() {
    let a = leaf(vec![1, 2, 3, 4], (2, 2));
    let b = leaf(vec![10, 20, 30, 40], (2, 2));
    let c = nanograd::add(a, b).unwrap();
    assert_eq!(c.data(), &vec![11, 22, 33, 44]);
    assert_eq!(c.dim(), (2, 2));
    assert_eq!(c.op(), Ops::BinaryOps(BinaryOps::ADD));
    assert!(*c.requires_grad());
}

#[test]
fn matmul_two_by_two() {
    let a = leaf(vec![1, 2, 3, 4], (2, 2));
    let b = leaf(vec![2, 0, 1, 2], (2, 2));
    let c = nanograd::mul(a, b).unwrap();
    assert_eq!(c.data(), &vec![4, 4, 10, 8]);
    assert_eq!(c.dim(), (2, 2));
}

#[test]
fn matmul_rectangular_shape() {
    let a = leaf(vec![1, 2, 3, 4, 5, 6], (2, 3));
    let b = leaf(vec![1, 0, 0, 1, 1, 1], (3, 2));
    let c = a.mul(b).unwrap();
    assert_eq!(c.dim(), (2, 2));
    assert_eq!(c.data(), &vec![4, 5, 10, 11]);
}

#[test]
fn matmul_inner_mismatch_fails() {
    let a = leaf(vec![1, 2, 3, 4, 5, 6], (2, 3));
    let b = leaf(vec![1, 2, 3, 4], (2, 2));
    let r = nanograd::mul(a, b);
    assert_eq!(
        r.err(),
        Some(TensorError::ShapeMismatch { expected: (2, 3), found: (2, 2) })
    );
}

#[test]
fn add_shape_mismatch_fails() {
    let a = leaf(vec![1, 2, 3, 4], (2, 2));
    let b = leaf(vec![1, 2], (1, 2));
    assert!(nanograd::add(a, b).is_err());
    let a = leaf(vec![1, 2, 3, 4], (2, 2));
    let b = leaf(vec![1, 2], (2, 1));
    assert!(nanograd::sub(a, b).is_err());
}

#[test]
fn sub_elementwise() {
    let a = leaf(vec![5, 7, 9], (1, 3));
    let b = leaf(vec![1, 2, 3], (1, 3));
    let c = a.sub(b).unwrap();
    assert_eq!(c.data(), &vec![4, 5, 6]);
}

#[test]
fn new_with_wrong_length_fails() {
    let r: Result<Tensor<i64>, TensorError> = Tensor::new(vec![1, 2, 3], (2, 2), None, None);
    assert_eq!(
        r.err(),
        Some(TensorError::ShapeMismatch { expected: (2, 2), found: (3, 1) })
    );
    let r = Tensor::from_vec(vec![1i64, 2, 3, 4], (2, 2), None, None);
    assert!(r.is_ok());
}

#[test]
fn buffer_with_wrong_length_fails() {
    let r = LazyBuffer::new(vec![1i64, 2, 3, 4, 5], (2, 2), None);
    assert!(r.is_err());
    let b = LazyBuffer::new(vec![1i64, 2, 3, 4, 5, 6], (2, 3), Some(Device::OPENCL)).unwrap();
    assert_eq!(b.dim(), (2, 3));
    assert_eq!(b.data(), &vec![1, 2, 3, 4, 5, 6]);
    assert_eq!(*b.device(), Device::OPENCL);
    assert!(b.is_realized());
}

#[test]
fn buffer_set_data_and_dim() {
    let mut b = LazyBuffer::new(vec![1i64, 2, 3, 4, 5, 6], (2, 3), None).unwrap();
    b.set_dim((3, 2));
    assert_eq!(b.dim(), (3, 2));
    b.set_data(vec![6, 5, 4, 3, 2, 1]);
    assert_eq!(b.data(), &vec![6, 5, 4, 3, 2, 1]);
    assert_eq!(b.realize().dim(), (3, 2));
    assert_eq!(*b.device(), Device::CPU);
}

#[test]
fn leaf_starts_with_zero_gradient() {
    let t = leaf(vec![1, 2, 3, 4], (2, 2));
    assert_eq!(t.get_gradient().unwrap().data(), &vec![0, 0, 0, 0]);
    assert_eq!(t.op(), Ops::Leaf);
    let u: Tensor<i64> = Tensor::new(vec![1, 2], (1, 2), None, None).unwrap();
    assert!(u.get_gradient().is_none());
    assert!(!*u.requires_grad());
}

#[test]
fn add_zeros_like_is_identity() {
    let a = leaf(vec![3, -1, 4, 1, -5, 9], (2, 3));
    let z = Tensor::zeros_like(leaf(vec![3, -1, 4, 1, -5, 9], (2, 3)));
    assert_eq!(z.data(), &vec![0, 0, 0, 0, 0, 0]);
    let c = nanograd::add(a, z).unwrap();
    assert_eq!(c.data(), &vec![3, -1, 4, 1, -5, 9]);
    let a = leaf(vec![3, -1, 4, 1, -5, 9], (2, 3));
    let z = Tensor::zeros_like(leaf(vec![0, 0, 0, 0, 0, 0], (2, 3)));
    let c = nanograd::sub(a, z).unwrap();
    assert_eq!(c.data(), &vec![3, -1, 4, 1, -5, 9]);
}

#[test]
fn transpose_twice_restores() {
    let mut t = leaf(vec![1, 2, 3, 4, 5, 6], (2, 3));
    t.transpose();
    assert_eq!(t.dim(), (3, 2));
    assert_eq!(t.data(), &vec![1, 4, 2, 5, 3, 6]);
    t.transpose();
    assert_eq!(t.dim(), (2, 3));
    assert_eq!(t.data(), &vec![1, 2, 3, 4, 5, 6]);
}

#[test]
fn transpose_square() {
    let mut t = leaf(vec![1, 2, 3, 4], (2, 2));
    t.transpose();
    assert_eq!(t.data(), &vec![1, 3, 2, 4]);
}

#[test]
fn sum_of_elements() {
    let t = leaf(vec![1, 2, 3, 4], (2, 2));
    assert_eq!(t.sum(), 10);
    let s = sum(t);
    assert_eq!(s.dim(), (1, 1));
    assert_eq!(s.data(), &vec![10]);
}

#[test]
fn fill_constructors() {
    let f: Tensor<i64> = Tensor::full((2, 3), 7, None, None);
    assert_eq!(f.data(), &vec![7; 6]);
    let o: Tensor<i64> = Tensor::ones((1, 2), None, Some(true));
    assert_eq!(o.data(), &vec![1, 1]);
    let z: Tensor<i64> = Tensor::zeros((2, 1), Some(Device::OPENCL), None);
    assert_eq!(z.data(), &vec![0, 0]);
    assert_eq!(*z.device(), Device::OPENCL);
    let l = Tensor::full_like(leaf(vec![1, 2, 3], (3, 1)), 4);
    assert_eq!(l.dim(), (3, 1));
    assert_eq!(l.data(), &vec![4, 4, 4]);
    assert!(*l.requires_grad());
    let ol = Tensor::ones_like(leaf(vec![1, 2], (1, 2)));
    assert_eq!(ol.data(), &vec![1, 1]);
}

#[test]
fn fill_diagonal_rectangular() {
    let mut t: Tensor<i64> = Tensor::ones((2, 3), None, None);
    t.fill_diagonal(5);
    assert_eq!(t.data(), &vec![5, 0, 0, 0, 5, 0]);
}

#[test]
fn flatten_to_one_row() {
    let mut t = leaf(vec![1, 2, 3, 4, 5, 6], (3, 2));
    t.flatten();
    assert_eq!(t.dim(), (1, 6));
    assert_eq!(t.data(), &vec![1, 2, 3, 4, 5, 6]);
    assert_eq!(t.get_gradient().unwrap().dim(), (1, 6));
}

#[test]
fn scalar_operations() {
    let t = leaf(vec![1, 2, 3, 4, 5, 6], (2, 3)).mul_scalar(3);
    assert_eq!(t.dim(), (2, 3));
    assert_eq!(t.data(), &vec![3, 6, 9, 12, 15, 18]);
    let t = leaf(vec![1, 2, 3], (1, 3)).add_scalar(10);
    assert_eq!(t.data(), &vec![11, 12, 13]);
    let t = leaf(vec![1, 2, 3], (1, 3)).sub_scalar(1);
    assert_eq!(t.data(), &vec![0, 1, 2]);
    let t = leaf(vec![1, -2, 3, 0], (2, 2)).neg();
    assert_eq!(t.data(), &vec![-1, 2, -3, 0]);
}

#[test]
fn max_and_relu() {
    let t = max(leaf(vec![-3, 0, 2, 5], (2, 2)), 1);
    assert_eq!(t.data(), &vec![1, 1, 2, 5]);
    assert_eq!(t.op(), Ops::UnaryOps(UnaryOps::MAX));
    assert_eq!(t.threshold(), Some(1));
    let r = relu(leaf(vec![-3, 0, 2, -5], (1, 4)));
    assert_eq!(r.data(), &vec![0, 0, 2, 0]);
}

#[test]
fn build_raw_checks_operands() {
    let x = leaf(vec![1, 2], (1, 2));
    let node = Tensor::_build_raw(vec![5, 6], (1, 2), None, Some(true), Some(Ops::UnaryOps(UnaryOps::Sigmoid)), Some(x), None).unwrap();
    assert!(node.get_gradient().is_none());
    assert_eq!(node.left().unwrap().data(), &vec![1, 2]);
    assert!(node.right().is_none());
    let x = leaf(vec![1, 2, 3], (1, 3));
    let bad = Tensor::_build_raw(vec![5, 6], (1, 2), None, Some(true), Some(Ops::UnaryOps(UnaryOps::Sigmoid)), Some(x), None);
    assert!(bad.is_err());
    let bad: Result<Tensor<i64>, TensorError> = Tensor::_build_raw(vec![5, 6], (1, 2), None, None, Some(Ops::BinaryOps(BinaryOps::ADD)), None, None);
    assert!(bad.is_err());
    let lone: Tensor<i64> = Tensor::_build_raw(vec![5, 6], (2, 1), None, None, None, None, None).unwrap();
    assert_eq!(lone.op(), Ops::Leaf);
}

#[test]
fn set_gradient_checks_shape() {
    let mut t = leaf(vec![1, 2, 3, 4], (2, 2));
    let g = LazyBuffer::new(vec![9i64, 8, 7, 6], (2, 2), None).unwrap();
    assert!(t.set_gradient(g).is_ok());
    assert_eq!(t.get_gradient().unwrap().data(), &vec![9, 8, 7, 6]);
    let g = LazyBuffer::new(vec![9i64, 8, 7, 6], (4, 1), None).unwrap();
    assert!(t.set_gradient(g).is_err());
    t.clear_gradient();
    assert!(t.get_gradient().is_none());
}

#[test]
fn set_op_and_dim() {
    let mut t = leaf(vec![1, 2, 3, 4, 5, 6], (2, 3));
    t.set_dim((3, 2));
    assert_eq!(t.dim(), (3, 2));
    t.set_op(Ops::Leaf);
    assert_eq!(t.op(), Ops::Leaf);
}

#[test]
fn integer_scalar_arithmetic_wraps() {
    assert_eq!(i64::MAX.plus(1), i64::MIN);
    assert_eq!(i64::MIN.minus(1), i64::MAX);
    assert_eq!(6i64.times(-7), -42);
    assert!(3i64.greater_than(2));
    assert!(!2i64.greater_than(2));
    assert_eq!(<i64 as TensorTrait>::zero(), 0);
    assert_eq!(<i64 as TensorTrait>::one(), 1);
}

#[test]
fn sample_scaling() {
    assert_eq!(i64::scale_sample(0, 10, 0), 0);
    assert_eq!(i64::scale_sample(0, 10, u32::MAX), 9);
    assert_eq!(i64::scale_sample(-4, 4, 1 << 31), 0);
    assert_eq!(i64::scale_sample(5, 5, 123), 5);
}

#[test]
fn features_and_labels() {
    let f = nanograd::FeaturesAndLabels::new(leaf(vec![1, 2], (1, 2)), leaf(vec![1], (1, 1)));
    let _ = f;
}

#[test]
fn empty_tensors() {
    let e: Tensor<i64> = Tensor::new(vec![], (0, 3), None, Some(true)).unwrap();
    assert_eq!(e.sum(), 0);
    let mut s = sum(e);
    assert_eq!(s.data(), &vec![0]);
    s.backward();
    assert_eq!(s.left().unwrap().get_gradient().unwrap().data(), &Vec::<i64>::new());
    let a: Tensor<i64> = Tensor::new(vec![], (2, 0), None, None).unwrap();
    let b: Tensor<i64> = Tensor::new(vec![], (0, 3), None, None).unwrap();
    let c = nanograd::mul(a, b).unwrap();
    assert_eq!(c.dim(), (2, 3));
    assert_eq!(c.data(), &vec![0; 6]);
}
