//! Core of an attribute that turns an annotated function into a
//! property-based test case.
//!
//! The transformation works on a plain token model: an annotated function
//! is rewritten into a zero-parameter test function whose body draws random
//! values for each original parameter from a bound strategy expression and
//! runs the original body once per drawn combination.

pub mod args;
pub mod ast;
pub mod bind;
pub mod expand;
pub mod synth;
pub mod token;

pub use token::Delim;
pub use token::Token;
pub use token::TokenView;
