//! The circle dispatcher: which trigonometric, hyperbolic or inverse function
//! a circle code selects.
use vstd::prelude::*;

verus! {

/// The functions a circle code can select, named by what they compute on `x`.
#[derive(Clone, Copy, Debug, PartialEq, Eq, Structural)]
pub enum CircleFunction {
    /// `sqrt(1 - x²)`
    SqrtOneMinusSquare,
    Sin,
    Cos,
    Tan,
    /// `sqrt(1 + x²)`
    SqrtOnePlusSquare,
    Sinh,
    Cosh,
    Tanh,
    Arcsin,
    Arccos,
    Arctan,
    /// `sqrt(-1 + x²)`
    SqrtSquareMinusOne,
    /// `ln(x + sqrt(1 + x²))`, with minus infinity kept as it is
    Arcsinh,
    /// `ln(x + sqrt(x - 1)·sqrt(x + 1))`
    Arccosh,
    /// `(ln(1 + x) - ln(1 - x)) / 2`
    Arctanh,
}

/// The code that selects each function.
pub open spec fn code_of(f: CircleFunction) -> int {
    match f {
        CircleFunction::SqrtOneMinusSquare => 0,
        CircleFunction::Sin => 1,
        CircleFunction::Cos => 2,
        CircleFunction::Tan => 3,
        CircleFunction::SqrtOnePlusSquare => 4,
        CircleFunction::Sinh => 5,
        CircleFunction::Cosh => 6,
        CircleFunction::Tanh => 7,
        CircleFunction::Arcsin => -1,
        CircleFunction::Arccos => -2,
        CircleFunction::Arctan => -3,
        CircleFunction::SqrtSquareMinusOne => -4,
        CircleFunction::Arcsinh => -5,
        CircleFunction::Arccosh => -6,
        CircleFunction::Arctanh => -7,
    }
}

impl CircleFunction {
    /// The code that selects this function.
    pub fn code(self) -> (r: i8)
        ensures
            r == code_of(self),
    {
        match self {
            CircleFunction::SqrtOneMinusSquare => 0,
            CircleFunction::Sin => 1,
            CircleFunction::Cos => 2,
            CircleFunction::Tan => 3,
            CircleFunction::SqrtOnePlusSquare => 4,
            CircleFunction::Sinh => 5,
            CircleFunction::Cosh => 6,
            CircleFunction::Tanh => 7,
            CircleFunction::Arcsin => -1,
            CircleFunction::Arccos => -2,
            CircleFunction::Arctan => -3,
            CircleFunction::SqrtSquareMinusOne => -4,
            CircleFunction::Arcsinh => -5,
            CircleFunction::Arccosh => -6,
            CircleFunction::Arctanh => -7,
        }
    }
}

/// The function that `code` selects: the one whose code it is. Codes outside
/// `-7..=7` select none; a circle application then yields the not-a-number
/// sentinel.
pub fn circle_function(code: i8) -> (r: Option<CircleFunction>)
    ensures
        r.is_some() <==> -7 <= code <= 7,
        r matches Some(f) ==> code_of(f) == code,
{
    match code {
        0 => Some(CircleFunction::SqrtOneMinusSquare),
        1 => Some(CircleFunction::Sin),
        2 => Some(CircleFunction::Cos),
        3 => Some(CircleFunction::Tan),
        4 => Some(CircleFunction::SqrtOnePlusSquare),
        5 => Some(CircleFunction::Sinh),
        6 => Some(CircleFunction::Cosh),
        7 => Some(CircleFunction::Tanh),
        -1 => Some(CircleFunction::Arcsin),
        -2 => Some(CircleFunction::Arccos),
        -3 => Some(CircleFunction::Arctan),
        -4 => Some(CircleFunction::SqrtSquareMinusOne),
        -5 => Some(CircleFunction::Arcsinh),
        -6 => Some(CircleFunction::Arccosh),
        -7 => Some(CircleFunction::Arctanh),
        _ => None,
    }
}

/// Each function has its own code: the code of a function selects that function
/// and no other.
pub proof fn code_selects_its_function(f: CircleFunction, g: CircleFunction)
    ensures
        -7 <= code_of(f) <= 7,
        code_of(f) == code_of(g) ==> f == g,
{
}

} // verus!
