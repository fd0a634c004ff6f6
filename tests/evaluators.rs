use nanograd::backward::{accumulate_gradient, backward_binary, backward_reduce, backward_unary};
use nanograd::forward::utils::{add_data, mul_data, subtract_data, transpose_data};
use nanograd::forward::{forward_binary, forward_by_operation, forward_reduce, forward_unary};
use nanograd::helpers::{is_valid_matrix_multiplication, new_dimensions_after_matrix_multiplication};
use nanograd::types::ops::{BinaryOps, ReduceOps, UnaryOps};
use nanograd::{default_device, Device, LazyBuffer, Ops, Tensor};

#[test]
fn matrix_helpers() {
    assert!(is_valid_matrix_multiplication((2, 3), (3, 4)));
    assert!(!is_valid_matrix_multiplication((2, 3), (2, 3)));
    assert_eq!(new_dimensions_after_matrix_multiplication((2, 3), (3, 4)), (2, 4));
    assert_eq!(default_device(), Device::CPU);
}

#[test]
fn buffer_arithmetic() {
    let a: Vec<i64> = vec![1, 2, 3, 4, 5, 6];
    let b: Vec<i64> = vec![6, 5, 4, 3, 2, 1];
    assert_eq!(add_data(&a, (2, 3), &b, (2, 3)).unwrap(), vec![7; 6]);
    assert_eq!(subtract_data(&a, (2, 3), &b, (2, 3)).unwrap(), vec![-5, -3, -1, 1, 3, 5]);
    assert!(add_data(&a, (2, 3), &b, (3, 2)).is_err());
    assert_eq!(mul_data(&a, (2, 3), &b, (3, 2)).unwrap(), vec![20, 14, 56, 41]);
    assert!(mul_data(&a, (2, 3), &b, (2, 3)).is_err());
    assert_eq!(transpose_data(&a, (2, 3)), vec![1, 4, 2, 5, 3, 6]);
}

#[test]
fn forward_dispatch() {
    let a: Vec<i64> = vec![1, 2, 3, 4];
    let b: Vec<i64> = vec![2, 0, 1, 2];
    assert_eq!(forward_binary(BinaryOps::MUL, &a, (2, 2), &b, (2, 2)).unwrap(), vec![4, 4, 10, 8]);
    assert_eq!(forward_binary(BinaryOps::SUB, &a, (2, 2), &b, (2, 2)).unwrap(), vec![-1, 2, 2, 2]);
    assert!(forward_binary(BinaryOps::ADD, &a, (2, 2), &b, (1, 4)).is_err());
    assert_eq!(forward_unary(UnaryOps::MAX, &a, 2), vec![2, 2, 3, 4]);
    assert_eq!(forward_reduce(ReduceOps::SUM, &a), vec![10]);
}

#[test]
fn forward_recomputes_a_node() {
    let a: Tensor<i64> = Tensor::new(vec![1, 2], (1, 2), None, None).unwrap();
    let b: Tensor<i64> = Tensor::new(vec![10, 20], (1, 2), None, None).unwrap();
    let mut node = Tensor::_build_raw(vec![0, 0], (1, 2), None, Some(true), Some(Ops::BinaryOps(BinaryOps::ADD)), Some(a), Some(b)).unwrap();
    forward_by_operation(&mut node);
    assert_eq!(node.data(), &vec![11, 22]);
}

#[test]
fn backward_rules() {
    let g: Vec<i64> = vec![1, 2];
    let a: Vec<i64> = vec![3, 4];
    let b: Vec<i64> = vec![5, 6];
    assert_eq!(backward_binary(BinaryOps::ADD, &g, &a, (1, 2), &b, (1, 2)), (vec![1, 2], vec![1, 2]));
    assert_eq!(backward_binary(BinaryOps::SUB, &g, &a, (1, 2), &b, (1, 2)), (vec![1, 2], vec![-1, -2]));
    // a is 1x2, b is 2x1, g is 1x1
    let g1: Vec<i64> = vec![3];
    assert_eq!(backward_binary(BinaryOps::MUL, &g1, &a, (1, 2), &b, (2, 1)), (vec![15, 18], vec![9, 12]));
    let x: Vec<i64> = vec![-1, 7];
    let y: Vec<i64> = vec![2, 3];
    assert_eq!(backward_unary(UnaryOps::MAX, &g, &x, &y, 0), vec![0, 2]);
    assert_eq!(backward_unary(UnaryOps::Sigmoid, &g, &x, &y, 0), vec![-2, -12]);
    assert_eq!(backward_unary(UnaryOps::EXP2, &g, &x, &y, 0), vec![2, 6]);
    assert_eq!(backward_reduce(ReduceOps::SUM, &vec![4i64], 3), vec![4, 4, 4]);
}

#[test]
fn accumulation() {
    let prev = Some(LazyBuffer::new(vec![1i64, 1], (1, 2), None).unwrap());
    assert_eq!(accumulate_gradient(&prev, vec![2, 3]), vec![3, 4]);
    assert_eq!(accumulate_gradient(&None, vec![2, 3]), vec![2, 3]);
}
