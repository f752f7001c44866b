//! Conversion between integers in `[1, 3999]` and their Roman-numeral
//! strings, in both directions, with input validation.

pub mod convert;
pub mod decimal;
pub mod error;
pub mod model;
pub mod output;
