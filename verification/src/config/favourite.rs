//! The watermark of an account: the newest favourite already archived.

use vstd::prelude::*;

verus! {

/// The last seen favourite. The empty identifier stands for "none yet":
/// everything is still to be archived.
#[derive(Debug, PartialEq, Eq)]
pub struct Favourite {
    pub last: String,
}

impl View for Favourite {
    type V = Seq<char>;

    open spec fn view(&self) -> Seq<char> {
        self.last@
    }
}

impl Favourite {
    /// No favourite seen yet.
    pub fn new() -> (favourite: Self)
        ensures
            favourite@ == Seq::<char>::empty(),
    {
        Favourite { last: String::new() }
    }

    /// The favourite `new_last` was the last one seen.
    pub fn new_with_value(new_last: &str) -> (favourite: Self)
        ensures
            favourite@ == new_last@,
    {
        Favourite { last: new_last.to_owned() }
    }

    /// Return the last favourite; empty where none was seen yet.
    pub fn last(&self) -> (last: String)
        ensures
            last@ == self@,
    {
        self.last.clone()
    }

    /// Makes `favourite` the last one seen.
    pub fn set(&mut self, favourite: &str)
        ensures
            final(self)@ == favourite@,
    {
        self.last = favourite.to_owned();
    }
}

impl Default for Favourite {
    fn default() -> (favourite: Self)
        ensures
            favourite@ == Seq::<char>::empty(),
    {
        Favourite::new()
    }
}

} // verus!
