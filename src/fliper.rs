//! A single boolean flag that can be read and flipped.

use vstd::prelude::*;

verus! {

/// Holds one boolean value.
pub struct Fliper {
    value: bool,
}

impl Fliper {
    /// The value held.
    pub closed spec fn value_spec(self) -> bool {
        self.value
    }

    /// A flag holding `init_value`.
    pub fn new(init_value: bool) -> (r: Self)
        ensures
            r.value_spec() == init_value,
    {
        Fliper { value: init_value }
    }

    /// A flag holding `false`.
    pub fn default() -> (r: Self)
        ensures
            r.value_spec() == false,
    {
        Self::new(false)
    }

    /// Negates the value held.
    pub fn flip(&mut self)
        ensures
            final(self).value_spec() == !old(self).value_spec(),
    {
        self.value = !self.value;
    }

    /// The value held.
    pub fn get(&self) -> (r: bool)
        ensures
            r == self.value_spec(),
    {
        self.value
    }
}

} // verus!
