//! A lexical scanner for a small scripting language.
//!
//! The scanner walks an immutable source buffer once, producing a stream of
//! positioned tokens and structured, recoverable errors for malformed input.
//! Its behaviour is pinned to the spec-level tokenizer in [`model`], and the
//! guarantees it makes are proved in [`laws`].

pub mod cursor;
pub mod errors;
pub mod laws;
pub mod model;
pub mod scanner;
pub mod text;
pub mod token;
