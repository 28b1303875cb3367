//! Signed integer arithmetic on unary numerals.

pub mod conversions;
pub mod laws;
pub mod numeral;
pub mod types;

pub use numeral::{ArithError, Numeral};
pub use types::{
    Add, Decr, Div, Halve, Incr, Mul, N1, N2, N3, N4, N5, N6, N7, N8, N9, Neg, NegType, NumType, P1, P2,
    P3, P4, P5, P6, P7, P8, P9, PosType, Pred, QuotientStep, Sub, Succ, Zero,
};
