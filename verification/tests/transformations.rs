//! End-to-end tests of the numeric transform and the adaptive dispatcher.

use myapp::apply_transformations;
use myapp::apply_transformations_with_defaults;
use myapp::parallel_process;
use myapp::transform_number;
use myapp::uses_parallel;

#[test]
fn test_parallel_process() {
    let input = vec![1, 2, 3, 4, 5];
    let result = parallel_process(input, 3, |x| x * 2);
    assert_eq!(result, vec![2, 4, 6, 8, 10]);
}

#[test]
fn test_transform_number() {
    assert_eq!(transform_number(1, 8), 0);
    assert_eq!(transform_number(2, 8), 1);
    assert_eq!(transform_number(3, 8), 7);
    assert_eq!(transform_number(100, 8), 88);
}

#[test]
fn test_apply_transformations_empty_input() {
    let input = vec![];
    let max_iterations = 10;
    let threshold = 3;
    assert_eq!(
        apply_transformations(input, max_iterations, threshold),
        vec![]
    );
}

#[test]
fn test_apply_transformations_single_element() {
    let input = vec![1];
    let max_iterations = 10;
    let threshold = 1;
    assert_eq!(
        apply_transformations(input, max_iterations, threshold),
        vec![0]
    );
}

#[test]
fn test_apply_transformations_multiple_elements() {
    let input = vec![1, 2, 3];
    let max_iterations = 8;
    let threshold = 2;
    assert_eq!(
        apply_transformations(input, max_iterations, threshold),
        vec![0, 1, 7]
    );
}

#[test]
fn test_apply_transformations_threshold_effect() {
    let input = vec![1, 2, 3, 4, 5, 6, 7, 8, 9, 10];
    let max_iterations = 8;
    let threshold = 5;
    let expected_results = vec![0, 1, 7, 2, 5, 8, 40, 3, 52, 6];
    assert_eq!(
        apply_transformations(input, max_iterations, threshold),
        expected_results
    );
}

#[test]
fn test_apply_transformations_macros() {
    let input = vec![1, 2, 3, 100];
    let result = apply_transformations_with_defaults(input);
    assert_eq!(result, vec![0, 1, 7, 88]);
}

#[test]
fn transform_of_one_ignores_budget() {
    assert_eq!(transform_number(1, 0), 0);
    assert_eq!(transform_number(1, 1), 0);
    assert_eq!(transform_number(1, 1000), 0);
}

#[test]
fn transform_zero_budget_returns_input() {
    assert_eq!(transform_number(0, 0), 0);
    assert_eq!(transform_number(7, 0), 7);
    assert_eq!(transform_number(u64::MAX, 0), u64::MAX);
}

#[test]
fn transform_zero_never_converges() {
    // 0 is even and stays 0 forever, so the residual value 0 comes back.
    assert_eq!(transform_number(0, 5), 0);
}

#[test]
fn transform_odd_step_wraps() {
    // u64::MAX is odd; 3 * MAX + 1 wraps modulo 2^64 to MAX - 1.
    assert_eq!(transform_number(u64::MAX, 1), u64::MAX - 1);
}

#[test]
fn dispatch_decision_boundary() {
    assert!(!uses_parallel(4, 5));
    assert!(uses_parallel(5, 5));
    assert!(uses_parallel(6, 5));
    assert!(uses_parallel(0, 0));
    assert!(!uses_parallel(0, 1));
}

#[test]
fn both_strategies_agree() {
    let input: Vec<u64> = vec![1, 2, 3, 4, 5, 6, 7, 8, 9, 10];
    let sequential = apply_transformations(input.clone(), 8, usize::MAX);
    let parallel = apply_transformations(input, 8, 0);
    assert_eq!(sequential, parallel);
    assert_eq!(sequential, vec![0, 1, 7, 2, 5, 8, 40, 3, 52, 6]);
}

#[test]
fn parallel_branch_transforms_elements() {
    // Threshold 0 forces the worker-pool branch even for one element; the
    // result differs from the input, so the work really happened there.
    assert_eq!(apply_transformations(vec![3], 8, 0), vec![7]);
}

#[test]
fn parallel_process_preserves_order_of_large_input() {
    let input: Vec<u64> = (0..1000).collect();
    let result = parallel_process(input, 0, |x| x + 1);
    let expected: Vec<u64> = (1..1001).collect();
    assert_eq!(result, expected);
}
