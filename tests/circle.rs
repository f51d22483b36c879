use apllib::{circle_function, CircleFunction};

#[test]
fn circle_codes_select_functions() {
    assert_eq!(Some(CircleFunction::SqrtOneMinusSquare), circle_function(0));
    assert_eq!(Some(CircleFunction::Sin), circle_function(1));
    assert_eq!(Some(CircleFunction::Tanh), circle_function(7));
    assert_eq!(Some(CircleFunction::Arctan), circle_function(-3));
    assert_eq!(Some(CircleFunction::SqrtSquareMinusOne), circle_function(-4));
    assert_eq!(Some(CircleFunction::Arccosh), circle_function(-6));
    assert_eq!(Some(CircleFunction::Arctanh), circle_function(-7));
}

#[test]
fn circle_codes_out_of_range_select_none() {
    assert_eq!(None, circle_function(8));
    assert_eq!(None, circle_function(-8));
    assert_eq!(None, circle_function(i8::MAX));
    assert_eq!(None, circle_function(i8::MIN));
}

#[test]
fn circle_code_round_trip() {
    for code in -7i8..=7 {
        let f = circle_function(code).unwrap();
        assert_eq!(code, f.code());
    }
}
