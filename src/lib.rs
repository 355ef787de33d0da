//! Lowering of ES2015 arrow functions to ES5 function expressions.
//!
//! `ast` holds the syntax tree the pass works on, `model` its mathematical
//! view, `semantics` what the pass means over that view, `probe` the search
//! for a surrounding `this`, `lower` the pass itself, and `laws` what is
//! proved of it for every input.
pub mod ast;
pub mod model;
pub mod semantics;
pub mod probe;
pub mod lower;
pub mod laws;
