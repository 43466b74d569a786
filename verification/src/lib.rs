//! The rule layer of an impedance-matching and Smith-chart toolkit.
//!
//! Matching-network synthesis and arc plotting are numeric work on complex
//! floating-point values, which lives outside this crate. What stands here
//! is everything those calculators decide discretely, each function with a
//! contract that pins its result down exactly: the engineering-unit scales
//! with their parsing, display and exponent tables; the closed set of
//! circuit element kinds with their orientation and label tables and the
//! tags that select them; the impedance-representation selectors and the
//! planning of representation changes; the realizability gate and the root
//! selection of the synthesis solvers; and the text lines the calculators
//! hand to the clipboard.

pub mod clipboard;
pub mod element;
pub mod matching;
pub mod rf_utils;
pub mod smith;
pub mod strutil;
pub mod unit;
