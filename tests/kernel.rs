use simple_simplex::kernel::{corner_hashes, fast_floor, gradient, modulo};
use simple_simplex::permutation::{default_permutation, set_seed};

#[test]
fn floor_of_positive_is_truncation() {
    assert_eq!(fast_floor(2, true), 2);
    assert_eq!(fast_floor(0, true), 0);
    assert_eq!(fast_floor(i32::MAX, true), i32::MAX as i64);
}

#[test]
fn floor_of_non_positive_is_truncation_minus_one() {
    assert_eq!(fast_floor(-2, false), -3);
    assert_eq!(fast_floor(0, false), -1);
    assert_eq!(fast_floor(i32::MIN, false), i32::MIN as i64 - 1);
}

#[test]
fn modulo_is_never_negative() {
    assert_eq!(modulo(300, 256), 44);
    assert_eq!(modulo(-1, 256), 255);
    assert_eq!(modulo(-256, 256), 0);
    assert_eq!(modulo(-257, 256), 255);
    assert_eq!(modulo(0, 256), 0);
    assert_eq!(modulo(i64::MIN, 256), 0);
    assert_eq!(modulo(-7, 3), 2);
}

#[test]
fn gradient_directions() {
    assert_eq!(gradient(0), (1, 2));
    assert_eq!(gradient(1), (-1, 2));
    assert_eq!(gradient(2), (1, -2));
    assert_eq!(gradient(3), (-1, -2));
    assert_eq!(gradient(4), (2, 1));
    assert_eq!(gradient(5), (2, -1));
    assert_eq!(gradient(6), (-2, 1));
    assert_eq!(gradient(7), (-2, -1));
    assert_eq!(gradient(8), gradient(0));
    assert_eq!(gradient(255), gradient(7));
}

#[test]
fn corner_hashes_on_default_table() {
    let t = default_permutation();
    assert_eq!(corner_hashes(&t, 0, 0, true), (17, 182, 248));
    assert_eq!(corner_hashes(&t, 0, 0, false), (17, 119, 248));
    assert_eq!(corner_hashes(&t, -1, 3, true), (245, 40, 245));
    assert_eq!(corner_hashes(&t, 255, 255, false), (253, 58, 17));
    assert_eq!(corner_hashes(&t, 300, -700, true), (110, 79, 102));
}

#[test]
fn corner_hashes_repeat_with_period_256() {
    let t = set_seed(42);
    assert_eq!(corner_hashes(&t, 5, 9, true), corner_hashes(&t, 5 + 256, 9 - 512, true));
    assert_eq!(corner_hashes(&t, 5, 9, false), corner_hashes(&t, 5, 9, false));
}
