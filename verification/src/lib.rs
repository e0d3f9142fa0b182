//! Parsing and rendering of the result pages of an online dictionary.

pub mod android;
pub mod cli;
pub mod fonts;
pub mod html;
pub mod laws;
pub mod legacy;
pub mod lookup;
pub mod model;
pub mod parse;
pub mod rdict;
pub mod render;
pub mod telegram;
pub mod text;

use vstd::prelude::*;

verus! {

/// Why a lookup gave no translation.
#[derive(Debug, Clone, PartialEq, Eq)]
pub enum Error {
    /// The text to look up is empty.
    EmptyInput,
    /// The page holds no translation of a kind this library reads.
    NoTranslationResults,
    /// The page is not a dictionary result page.
    Parse(String),
}

} // verus!
