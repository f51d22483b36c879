use apllib::{abs, ceiling, floor, idenity, map_each, map_n_and_n, map_n_and_one, negate, not, sign, sign_map};

#[test]
fn sign_examples() {
    assert_eq!(-1, sign(-8));
    assert_eq!(-1, sign(-128));
    assert_eq!(-1, sign(-123456789));
    assert_eq!(1, sign(123456789));
    assert_eq!(vec![1, 1, 1, -1], sign_map(vec![1, 2, 3, -4]));
}

#[test]
fn sign_of_zero_is_one() {
    assert_eq!(1, sign(0));
    assert_eq!(1, sign(0i64));
    assert_eq!(-1, sign(i64::MIN));
}

#[test]
fn abs_examples() {
    assert_eq!(8, abs(-8));
    assert_eq!(128, abs(-128));
    assert_eq!(123456789, abs(-123456789));
    assert_eq!(0, abs(0));
    assert_eq!(i64::MAX, abs(-i64::MAX));
}

#[test]
fn abs_is_value_times_sign_on_values() {
    for x in [-5i64, -1, 0, 1, 42] {
        assert!(abs(x) >= 0);
        assert_eq!(abs(x), x * sign(x));
    }
}

#[test]
fn floor_and_ceiling_of_integers() {
    assert_eq!(8, floor(8));
    assert_eq!(-3, floor(-3i64));
    assert_eq!(129, ceiling(129));
    assert_eq!(-3, ceiling(-3i64));
    for x in [-7i32, 0, 9] {
        assert!(floor(x) <= x && x <= ceiling(x));
    }
}

#[test]
fn idenity_examples() {
    assert_eq!(8.0, idenity(8.0));
    assert_eq!(128, idenity(128));
}

#[test]
fn negate_examples() {
    assert_eq!(-8, negate(8));
    assert_eq!(128, negate(-128));
    assert_eq!(0, negate(0i64));
}

#[test]
fn not_examples() {
    assert_eq!(false, not(8));
    assert_eq!(false, not(-128));
    assert_eq!(false, not(i64::MIN));
    assert_eq!(true, not(0));
    for x in [-3i64, 0, 3] {
        assert_eq!(not(x), abs(x) == 0);
    }
}

#[test]
fn engine_with_float_closures() {
    assert_eq!(vec![2.5, 4.0], map_n_and_n(vec![1.0, 2.0], vec![1.5, 2.0, 9.0], |a, b| a + b));
    assert_eq!(vec![0.5, 1.0], map_n_and_one(vec![1.0, 2.0], 2.0, |a: f64, b| a / b));
    assert_eq!(vec![-1.0, 2.0], map_each(vec![1.0, -2.0], |a: f64| -a));
}
