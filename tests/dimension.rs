use std::cell::Cell;

use vector_metrics::{check_dimensions, with_matching_dimensions, DimensionMismatch};

#[test]
fn equal_lengths_give_the_shared_length() {
    let left: Vec<f32> = vec![0.0, 1.0];
    let right: Vec<f32> = vec![3.0, 2.0];
    assert_eq!(check_dimensions(&left, &right), Ok(2));
}

#[test]
fn empty_vectors_are_accepted() {
    let left: Vec<f32> = vec![];
    let right: Vec<f32> = vec![];
    assert_eq!(check_dimensions(&left, &right), Ok(0));
}

#[test]
fn mismatch_reports_both_lengths_in_order() {
    let left: Vec<f32> = vec![1.0, 2.0, 3.0];
    let right: Vec<f32> = vec![1.0];
    assert_eq!(
        check_dimensions(&left, &right),
        Err(DimensionMismatch { left_len: 3, right_len: 1 })
    );
    assert_eq!(
        check_dimensions(&right, &left),
        Err(DimensionMismatch { left_len: 1, right_len: 3 })
    );
}

#[test]
fn mismatch_against_empty_vector() {
    let left: Vec<f32> = vec![];
    let right: Vec<f32> = vec![4.0, 4.0];
    assert_eq!(
        check_dimensions(&left, &right),
        Err(DimensionMismatch { left_len: 0, right_len: 2 })
    );
}

#[test]
fn guarded_kernel_runs_on_matching_lengths() {
    let left: Vec<f32> = vec![5.0, 1.0];
    let right: Vec<f32> = vec![1.0, 2.0];
    let r = with_matching_dimensions(&left, &right, |a: &[f32], b: &[f32]| a.len() + b.len());
    assert_eq!(r, Ok(4));
}

#[test]
fn guarded_kernel_is_not_run_on_mismatch() {
    let calls = Cell::new(0u32);
    let left: Vec<f32> = vec![5.0, 1.0];
    let right: Vec<f32> = vec![1.0, 2.0, 3.0];
    let r = with_matching_dimensions(&left, &right, |a: &[f32], _b: &[f32]| {
        calls.set(calls.get() + 1);
        a.len()
    });
    assert_eq!(r, Err(DimensionMismatch { left_len: 2, right_len: 3 }));
    assert_eq!(calls.get(), 0);
}

#[test]
fn mismatch_message_names_both_lengths() {
    let e = DimensionMismatch { left_len: 3, right_len: 2 };
    assert_eq!(e.message(), "wrong dimension: left(3) != right(2)");
}

#[test]
fn mismatch_message_with_multi_digit_lengths() {
    let e = DimensionMismatch { left_len: 0, right_len: 1536 };
    assert_eq!(e.message(), "wrong dimension: left(0) != right(1536)");
}

#[test]
fn mismatch_message_with_largest_length() {
    let e = DimensionMismatch { left_len: usize::MAX, right_len: 10 };
    assert_eq!(
        e.message(),
        format!("wrong dimension: left({}) != right(10)", usize::MAX)
    );
}
