//! APL-style primitive numeric functions and their elementwise extensions.
//!
//! Each scalar primitive works on any representation implementing
//! [`scalar::Scalar`], whose values are described by mathematical integers;
//! the `_map` forms pair two sequences by position, and the `_all` forms pair
//! every element of one sequence with a single value.
pub mod broadcast;
pub mod circle;
pub mod dyadic;
pub mod monadic;
pub mod nonscalar;
pub mod scalar;

pub use broadcast::{map_each, map_n_and_n, map_n_and_one};
pub use circle::{circle_function, CircleFunction};
pub use dyadic::{
    add, add_all, add_map, divide, divide_all, divide_map, multiply, multiply_all, multiply_map,
    power, power_all, power_map, residue, residue_all, residue_map, subtract, subtract_all,
    subtract_map,
};
pub use monadic::{
    abs, ceiling, floor, idenity, negate, not, roll, roll_bounds, roll_map, sign, sign_map,
};
pub use nonscalar::reshape;
pub use scalar::Scalar;
