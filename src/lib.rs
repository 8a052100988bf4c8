//! Turns LaTeX or MathML into spoken English.
//!
//! The library holds the decisions of the conversion layer: which rules
//! directory to use, when the speech engine is initialized and when only its
//! speech style is updated, which engine call comes next for each expression,
//! and how a failed or aborted engine call becomes a typed error. The host
//! performs each call it is told to make and hands back what came of it.
use vstd::prelude::*;

pub mod boundary;
pub mod error;
pub mod engine;
pub mod pipeline;
pub mod rules;
pub mod text;

verus! {

/// The library's version.
pub const VERSION: &'static str = "0.1.0";

/// What the library does, in one line.
pub const DESCRIPTION: &'static str =
    "High-performance Python library for converting LaTeX and MathML to verbalized English text";

} // verus!
