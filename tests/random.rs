use apllib::{divide_map, reshape, roll, roll_map};

#[test]
fn dyadic_apl_rand_in_range_0_1() {
    // 8 reshaped copies of 10000, rolled, then divided by themselves
    let tenthousands: Vec<i64> = reshape(8, 10000);
    let res = divide_map(roll_map(tenthousands.clone()), tenthousands);
    assert_eq!(res.len(), 8);
    for r in res {
        assert!(r < 1);
    }
}

#[test]
fn arithmetical_apl_rand_in_range_0_1() {
    let tenthousands: Vec<i64> = reshape(8, 10000);
    let res = divide_map(roll_map(tenthousands.clone()), tenthousands);
    assert_eq!(res.len(), 8);
    for r in res {
        assert!(r < 1);
    }
}

#[test]
fn roll_positive_stays_in_zero_to_x() {
    for _ in 0..1000 {
        let r = roll(8i64);
        assert!(0 <= r && r < 8);
    }
    for _ in 0..1000 {
        let r = roll(1i32);
        assert_eq!(r, 0);
    }
}

#[test]
fn roll_negative_stays_in_x_to_zero() {
    for _ in 0..1000 {
        let r = roll(-4i64);
        assert!(-4 < r && r <= 0);
    }
    for _ in 0..1000 {
        let r = roll(-1i32);
        assert_eq!(r, 0);
    }
}

#[test]
fn roll_reaches_more_than_one_value() {
    let mut seen = std::collections::HashSet::new();
    for _ in 0..1000 {
        seen.insert(roll(3i64));
    }
    assert!(seen.len() > 1);
}

#[test]
fn roll_map_example() {
    let rolls = roll_map(vec![1, 1, 1, -4]);
    assert_eq!(rolls.len(), 4);
    assert_eq!(&rolls[..3], &[0, 0, 0]);
    assert!(-4 < rolls[3] && rolls[3] <= 0);
}

#[test]
fn roll_bounds_by_sign() {
    assert_eq!(apllib::roll_bounds(10i64), (0, 10));
    assert_eq!(apllib::roll_bounds(-10i64), (-9, 1));
}

#[test]
fn reshape_float_values() {
    let t: Vec<f64> = reshape(8, 10000.0);
    assert_eq!(t.len(), 8);
    for v in t {
        assert_eq!(v, 10000.0);
    }
    let empty: Vec<i32> = reshape(0, 5);
    assert!(empty.is_empty());
}
