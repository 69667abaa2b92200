use vstd::prelude::*;

use crate::primitives::Balance;

verus! {

/// A price source holding one price that its owner sets.
pub struct Oracle {
    price: Balance,
}

impl View for Oracle {
    type V = Balance;

    closed spec fn view(&self) -> Balance {
        self.price
    }
}

impl Oracle {
    /// An oracle quoting `price`.
    pub fn new(price: Balance) -> (r: Oracle)
        ensures
            r@ == price,
    {
        Oracle { price }
    }

    /// Replaces the quoted price.
    pub fn change_price(&mut self, new_price: Balance)
        ensures
            final(self)@ == new_price,
    {
        self.price = new_price;
    }

    /// The quoted price.
    pub fn get_price(&self) -> (r: Balance)
        ensures
            r == self@,
    {
        self.price
    }
}

} // verus!
