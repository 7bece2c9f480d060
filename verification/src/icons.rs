//! How an icon is named.

use vstd::prelude::*;

verus! {

/// An icon of the theme at one size: what an icon is looked up and cached by.
#[derive(Clone, Copy, Debug, Eq, Hash, PartialEq)]
pub struct IconCacheKey {
    pub name: &'static str,
    pub size: u16,
}

} // verus!
