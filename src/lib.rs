//! Classifiers for the scalar and composite values of a CI workflow document.
//!
//! Every text value is sorted into one of three disjoint grammars: plain text
//! (no `${{` marker), a fully wrapped expression, or text with an embedded
//! expression. Composite fields combine those grammars with a mapping path,
//! and every value is checked again before it is written back out.

pub mod codec;
pub mod concurrency;
pub mod defaults;
pub mod env;
pub mod error;
pub mod expression;
pub mod grammar;
pub mod jobs;
pub mod node;
pub mod on;
pub mod scalar;
pub mod spanned;
pub mod table;
pub mod text;
