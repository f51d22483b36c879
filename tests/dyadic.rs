use apllib::{
    add, add_all, add_map, divide, divide_all, divide_map, multiply, multiply_all, multiply_map,
    power, power_all, power_map, residue, residue_all, residue_map, subtract, subtract_all,
    subtract_map,
};

#[test]
fn add_examples() {
    assert_eq!(8, add(3, 5));
    assert_eq!(vec![15, 25, 35], add_map(vec![10, 20, 30], vec![5, 5, 5]));
    assert_eq!(vec![15, 25, 35], add_all(vec![10, 20, 30], 5));
}

#[test]
fn subtract_examples() {
    assert_eq!(-2, subtract(3, 5));
    assert_eq!(vec![5, 15, 25], subtract_map(vec![10, 20, 30], vec![5, 5, 5]));
    assert_eq!(vec![5, 15, 25], subtract_all(vec![10, 20, 30], 5));
}

#[test]
fn multiply_examples() {
    assert_eq!(15, multiply(3, 5));
    assert_eq!(vec![50, 100, 150], multiply_map(vec![10, 20, 30], vec![5, 5, 5]));
    assert_eq!(vec![50, 100, 150], multiply_all(vec![10, 20, 30], 5));
}

#[test]
fn divide_examples() {
    assert_eq!(6, divide(30, 5));
    assert_eq!(vec![2, 4, 6], divide_map(vec![10, 20, 30], vec![5, 5, 5]));
    assert_eq!(vec![2, 4, 6], divide_all(vec![10, 20, 30], 5));
}

#[test]
fn divide_rounds_toward_zero() {
    assert_eq!(-3, divide(-7, 2));
    assert_eq!(-3, divide(7, -2));
    assert_eq!(3, divide(-7i64, -2));
    assert_eq!(i64::MIN, divide(i64::MIN, 1));
}

#[test]
fn residue_examples() {
    assert_eq!(1, residue(31, 5));
    assert_eq!(vec![1, 2, 3], residue_map(vec![11, 22, 33], vec![5, 5, 5]));
    assert_eq!(vec![1, 2, 3], residue_all(vec![11, 22, 33], 5));
}

#[test]
fn residue_signs_and_zero_divisor() {
    assert_eq!(-1, residue(-7, 2));
    assert_eq!(1, residue(7, -2));
    assert_eq!(0, residue(31, 0));
    assert_eq!(0, residue(i64::MIN, -1));
    assert_eq!(vec![0, 2], residue_map(vec![11, 22], vec![0, 5]));
    assert_eq!(vec![0, 0], residue_all(vec![11i32, -4], 0));
}

#[test]
fn power_examples() {
    assert_eq!(100, power(10, 2));
    assert_eq!(1, power(7i64, 0));
    assert_eq!(-8, power(-2, 3));
    assert_eq!(vec![100, 400, 900], power_map(vec![10, 20, 30], vec![2, 2, 2]));
    assert_eq!(vec![100, 400, 900], power_all(vec![10i64, 20, 30], 2));
}

#[test]
fn pairwise_map_truncates_to_shorter() {
    assert_eq!(vec![15, 25], add_map(vec![10, 20, 30], vec![5, 5]));
    assert_eq!(vec![15], subtract_map(vec![20], vec![5, 5, 5]));
    assert!(multiply_map(Vec::<i64>::new(), vec![1, 2]).is_empty());
}

#[test]
fn broadcast_over_empty() {
    assert!(add_all(Vec::<i32>::new(), 5).is_empty());
    assert!(residue_map(Vec::<i64>::new(), Vec::new()).is_empty());
}

#[test]
fn largest_values_stay_exact() {
    assert_eq!(i64::MAX, add(i64::MAX - 1, 1));
    assert_eq!(i32::MIN, subtract(i32::MIN + 5, 5));
}
