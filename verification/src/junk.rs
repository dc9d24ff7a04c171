//! Telling the contacts that count as junk striking a planet.

use vstd::prelude::*;

verus! {

/// What is known of the two bodies of one contact.
#[derive(Clone, Copy, Debug, PartialEq, Eq, Structural)]
pub struct ContactPair {
    pub first_is_planet: bool,
    pub first_is_junk: bool,
    pub second_is_planet: bool,
    pub second_is_junk: bool,
}

impl ContactPair {
    /// One body is a planet and the other is junk, in either order.
    pub open spec fn junk_meets_planet(self) -> bool {
        (self.first_is_planet && self.second_is_junk) || (self.first_is_junk
            && self.second_is_planet)
    }

    /// Tells whether the contact is one of junk with a planet, and so worth
    /// an event of its own.
    pub fn is_junk_collision(&self) -> (reported: bool)
        ensures
            reported == self.junk_meets_planet(),
    {
        (self.first_is_planet && self.second_is_junk) || (self.first_is_junk
            && self.second_is_planet)
    }

    /// The same contact with its bodies named in the other order.
    pub open spec fn swapped(self) -> ContactPair {
        ContactPair {
            first_is_planet: self.second_is_planet,
            first_is_junk: self.second_is_junk,
            second_is_planet: self.first_is_planet,
            second_is_junk: self.first_is_junk,
        }
    }

    /// Which body of a contact is called the first does not matter.
    pub proof fn lemma_order_does_not_matter(self)
        ensures
            self.swapped().junk_meets_planet() == self.junk_meets_planet(),
    {
    }
}

} // verus!
