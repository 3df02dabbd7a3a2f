use nalgebra::DMatrix;
use nalgebra_linsys::elem_row_ops::{RowAdd, RowMul};
use nalgebra_linsys::matrix::IntMatrix;

fn int_matrix(nrows: usize, ncols: usize, entries: &[i64]) -> IntMatrix {
    IntMatrix(DMatrix::from_row_slice(nrows, ncols, entries))
}

#[test]
fn an_addition_of_small_numbers_fits() {
    let m = int_matrix(2, 3, &[1, 2, 3, 4, 5, 6]);
    let add = RowAdd {
        inout_row_zbi: 1,
        in_row_zbi: 0,
        factor: &-4,
    };
    assert!(add.fits_in(&m));
}

#[test]
fn an_addition_fits_up_to_the_limits() {
    let m = int_matrix(2, 2, &[i64::MAX - 2, i64::MIN + 2, 1, -1]);
    let two = RowAdd {
        inout_row_zbi: 0,
        in_row_zbi: 1,
        factor: &2,
    };
    assert!(two.fits_in(&m));
    let three = RowAdd {
        inout_row_zbi: 0,
        in_row_zbi: 1,
        factor: &3,
    };
    assert!(!three.fits_in(&m));
}

#[test]
fn an_addition_does_not_fit_if_a_sum_is_too_large() {
    let m = int_matrix(2, 2, &[0, i64::MAX, 0, 1]);
    let add = RowAdd {
        inout_row_zbi: 0,
        in_row_zbi: 1,
        factor: &1,
    };
    assert!(!add.fits_in(&m));
}

#[test]
fn an_addition_does_not_fit_if_a_sum_is_too_small() {
    let m = int_matrix(2, 1, &[i64::MIN, 1]);
    let add = RowAdd {
        inout_row_zbi: 0,
        in_row_zbi: 1,
        factor: &-1,
    };
    assert!(!add.fits_in(&m));
}

#[test]
fn an_addition_does_not_fit_if_a_product_is_too_large() {
    let m = int_matrix(2, 1, &[-i64::MAX, i64::MAX]);
    let add = RowAdd {
        inout_row_zbi: 0,
        in_row_zbi: 1,
        factor: &2,
    };
    assert!(!add.fits_in(&m));
}

#[test]
fn an_addition_is_judged_by_every_column() {
    let first = int_matrix(2, 3, &[i64::MAX, 0, 0, 1, 1, 1]);
    let last = int_matrix(2, 3, &[0, 0, i64::MAX, 1, 1, 1]);
    let none = int_matrix(2, 3, &[0, 0, i64::MAX - 1, 1, 1, 1]);
    let add = RowAdd {
        inout_row_zbi: 0,
        in_row_zbi: 1,
        factor: &1,
    };
    assert!(!add.fits_in(&first));
    assert!(!add.fits_in(&last));
    assert!(add.fits_in(&none));
}

#[test]
fn an_addition_to_the_same_row_is_judged_by_that_row() {
    let m = int_matrix(2, 1, &[i64::MAX / 2 + 1, 0]);
    let doubling = RowAdd {
        inout_row_zbi: 0,
        in_row_zbi: 0,
        factor: &1,
    };
    assert!(!doubling.fits_in(&m));
    let other = RowAdd {
        inout_row_zbi: 1,
        in_row_zbi: 1,
        factor: &1,
    };
    assert!(other.fits_in(&m));
}

#[test]
fn an_addition_that_misses_the_matrix_fits() {
    let m = int_matrix(1, 1, &[i64::MAX]);
    let add = RowAdd {
        inout_row_zbi: 0,
        in_row_zbi: 1,
        factor: &i64::MAX,
    };
    assert!(add.fits_in(&m));
    let add = RowAdd {
        inout_row_zbi: 1,
        in_row_zbi: 0,
        factor: &i64::MAX,
    };
    assert!(add.fits_in(&m));
}

#[test]
fn a_multiplication_fits_up_to_the_limits() {
    let m = int_matrix(2, 2, &[i64::MAX, i64::MIN + 1, i64::MIN, 0]);
    let negate_first = RowMul {
        row_zbi: 0,
        factor: &-1,
    };
    assert!(negate_first.fits_in(&m));
    let negate_second = RowMul {
        row_zbi: 1,
        factor: &-1,
    };
    assert!(!negate_second.fits_in(&m));
    let keep_second = RowMul {
        row_zbi: 1,
        factor: &1,
    };
    assert!(keep_second.fits_in(&m));
}

#[test]
fn a_multiplication_is_judged_by_every_column() {
    let m = int_matrix(1, 3, &[1, 2, i64::MAX / 2 + 1]);
    let double = RowMul {
        row_zbi: 0,
        factor: &2,
    };
    assert!(!double.fits_in(&m));
    let clear = RowMul {
        row_zbi: 0,
        factor: &0,
    };
    assert!(clear.fits_in(&m));
}

#[test]
fn a_multiplication_that_misses_the_matrix_fits() {
    let m = int_matrix(1, 1, &[i64::MAX]);
    let mul = RowMul {
        row_zbi: 1,
        factor: &i64::MAX,
    };
    assert!(mul.fits_in(&m));
}

#[test]
fn everything_fits_a_matrix_without_columns() {
    let m = int_matrix(2, 0, &[]);
    let add = RowAdd {
        inout_row_zbi: 0,
        in_row_zbi: 1,
        factor: &i64::MIN,
    };
    assert!(add.fits_in(&m));
    let mul = RowMul {
        row_zbi: 1,
        factor: &i64::MIN,
    };
    assert!(mul.fits_in(&m));
}
