//! Selectors shared by all pages.

use vstd::prelude::*;

verus! {

/// The element that holds the dictionary results of a page.
pub const BODY: &'static str = "div.search_result-dict";

} // verus!
