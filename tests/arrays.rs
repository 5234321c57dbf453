use native_compute::constant_matrix;
use native_compute::matrix_multiplication;
use native_compute::multiply_matrices;
use native_compute::multiply_row;
use native_compute::random_values;
use native_compute::sort_large_array;
use native_compute::sort_values;

fn ascending(v: &[i32]) -> bool {
    v.windows(2).all(|w| w[0] <= w[1])
}

#[test]
fn sort_values_orders_input() {
    let r = sort_values(vec![5, -3, 9, 0, -3, 2]);
    assert_eq!(r, vec![-3, -3, 0, 2, 5, 9]);
}

#[test]
fn sort_values_empty_and_single() {
    assert_eq!(sort_values(Vec::new()), Vec::<i32>::new());
    assert_eq!(sort_values(vec![4]), vec![4]);
}

#[test]
fn sort_values_extremes() {
    let r = sort_values(vec![i32::MAX, 0, i32::MIN, i32::MAX]);
    assert_eq!(r, vec![i32::MIN, 0, i32::MAX, i32::MAX]);
}

#[test]
fn sort_values_is_permutation() {
    let input = vec![3, 1, 2, 3, 1, 7, -1];
    let r = sort_values(input.clone());
    let mut a = input;
    a.sort();
    assert_eq!(r, a);
}

#[test]
fn random_values_length() {
    assert_eq!(random_values(100).len(), 100);
    assert_eq!(random_values(0).len(), 0);
    assert_eq!(random_values(-5).len(), 0);
}

#[test]
fn sort_large_array_is_sorted() {
    let r = sort_large_array(10000);
    assert_eq!(r.len(), 10000);
    assert!(ascending(&r));
}

#[test]
fn sort_large_array_empty_sizes() {
    assert!(sort_large_array(0).is_empty());
    assert!(sort_large_array(-1).is_empty());
}

#[test]
fn matrix_multiplication_of_ones_and_twos() {
    let r = matrix_multiplication(3);
    assert_eq!(r, vec![vec![6, 6, 6], vec![6, 6, 6], vec![6, 6, 6]]);
}

#[test]
fn matrix_multiplication_cells_are_twice_size() {
    let size = 64;
    let r = matrix_multiplication(size);
    assert_eq!(r.len(), size as usize);
    for row in &r {
        assert_eq!(row.len(), size as usize);
        assert!(row.iter().all(|&x| x == 2 * size));
    }
}

#[test]
fn matrix_multiplication_empty_and_single() {
    assert!(matrix_multiplication(0).is_empty());
    assert_eq!(matrix_multiplication(1), vec![vec![2]]);
}

#[test]
fn multiply_matrices_general() {
    let a = vec![vec![1, 2], vec![3, 4]];
    let b = vec![vec![5, 6], vec![7, 8]];
    assert_eq!(multiply_matrices(&a, &b), vec![vec![19, 22], vec![43, 50]]);
}

#[test]
fn multiply_matrices_negative_entries() {
    let a = vec![vec![0, -1, 2], vec![4, 0, 1], vec![-2, 3, 0]];
    let b = vec![vec![1, 0, 0], vec![0, 1, 0], vec![0, 0, 1]];
    assert_eq!(multiply_matrices(&a, &b), a);
    assert_eq!(
        multiply_matrices(&a, &a),
        vec![vec![-8, 6, -1], vec![-2, -1, 8], vec![12, 2, -1]]
    );
}

#[test]
fn multiply_row_single() {
    let b = vec![vec![1, 2], vec![3, 4]];
    assert_eq!(multiply_row(&vec![2, -1], &b), vec![-1, 0]);
}

#[test]
fn constant_matrix_fills_cells() {
    assert_eq!(constant_matrix(2, 7), vec![vec![7, 7], vec![7, 7]]);
    assert!(constant_matrix(0, 1).is_empty());
}
