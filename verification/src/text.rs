//! Optional text as it appears in contracts.
use vstd::prelude::*;

verus! {

/// The characters of an optional piece of text.
pub open spec fn text_view(text: Option<&str>) -> Option<Seq<char>> {
    match text {
        Some(t) => Some(t@),
        None => None,
    }
}

} // verus!
