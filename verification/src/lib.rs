//! Common values used in CSS: custom, dashed and keyframes identifiers and
//! strings stored as atoms, the CSS-wide keywords, and the serialization of
//! numbers and dimensions, each with its contract.
//!
//! <https://drafts.csswg.org/css-values/>

pub mod atom;
pub mod dimension;
pub mod keyword;
pub mod parsing;
pub mod serialize;
pub mod text;
pub mod values;
