use vstd::prelude::*;

verus! {

/// The number of indivisible badges a dispenser starts with.
pub const INITIAL_BADGE_SUPPLY: u64 = 100;

/// A dispenser of indivisible fungible badges, filled once at creation.
#[derive(Debug)]
pub struct BadgeContract {
    remaining: u64,
}

impl View for BadgeContract {
    type V = nat;

    closed spec fn view(&self) -> nat {
        self.remaining as nat
    }
}

impl BadgeContract {
    /// A dispenser holding the initial supply.
    pub fn new() -> (c: BadgeContract)
        ensures
            c@ == INITIAL_BADGE_SUPPLY,
    {
        BadgeContract { remaining: INITIAL_BADGE_SUPPLY }
    }

    /// How many badges are left.
    pub fn remaining(&self) -> (n: u64)
        ensures
            n == self@,
    {
        self.remaining
    }

    /// Hands out one badge, returning how many were handed out; `None`, with
    /// nothing changed, once the dispenser is empty.
    pub fn get_badge(&mut self) -> (r: Option<u64>)
        ensures
            old(self)@ > 0 ==> r == Some(1u64) && final(self)@ == old(self)@ - 1,
            old(self)@ == 0 ==> r == None::<u64> && final(self)@ == old(self)@,
    {
        if self.remaining == 0 {
            None
        } else {
            self.remaining = self.remaining - 1;
            Some(1)
        }
    }
}

} // verus!
