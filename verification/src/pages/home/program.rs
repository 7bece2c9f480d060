//! Programs as the library lists them.

use vstd::prelude::*;

verus! {

/// A program as the library lists it.
#[derive(Debug, PartialEq, Eq)]
pub struct Program {
    pub title: String,
    pub caption: String,
    /// Name of the cover image shown on the program's card.
    pub icon: String,
}

impl Program {
    /// A program with the given title, caption and cover.
    pub fn new(title: String, caption: String, icon: String) -> (program: Self)
        ensures
            program.title == title,
            program.caption == caption,
            program.icon == icon,
    {
        Self { title, caption, icon }
    }
}

impl Clone for Program {
    fn clone(&self) -> (copy: Self)
        ensures
            copy == *self,
    {
        Self { title: self.title.clone(), caption: self.caption.clone(), icon: self.icon.clone() }
    }
}

} // verus!
