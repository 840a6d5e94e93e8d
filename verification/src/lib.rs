//! Fibonacci numbers in 32-bit signed integers, with a greeting and a
//! rectangle's area beside them.

pub mod greeting;
pub mod rectangle;
pub mod sequence;

pub use crate::greeting::greet;
pub use crate::rectangle::area;
pub use crate::sequence::fib_num;
pub use crate::sequence::MAX_INDEX;
