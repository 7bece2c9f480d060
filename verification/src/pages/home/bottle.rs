//! Bottles as the home page lists them.

use vstd::prelude::*;

use crate::icons::IconCacheKey;

verus! {

/// A bottle as the grid of bottles lists it.
#[derive(Debug, PartialEq, Eq)]
pub struct Bottle {
    pub title: String,
    pub caption: String,
    /// The icon shown beside the caption.
    pub icon: IconCacheKey,
}

impl Bottle {
    /// A bottle with the given title, caption and icon.
    pub fn new(title: String, caption: String, icon: IconCacheKey) -> (bottle: Self)
        ensures
            bottle.title == title,
            bottle.caption == caption,
            bottle.icon == icon,
    {
        Self { title, caption, icon }
    }
}

impl Clone for Bottle {
    fn clone(&self) -> (copy: Self)
        ensures
            copy == *self,
    {
        Self { title: self.title.clone(), caption: self.caption.clone(), icon: self.icon }
    }
}

} // verus!
