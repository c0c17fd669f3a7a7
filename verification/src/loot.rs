//! The currency of the game.

use crate::number_text::{append_decimal, decimal};
use vstd::prelude::*;

verus! {

/// The main currency: earned when a boop enters a hoop, spent on boops, hoops and planets.
#[derive(Clone, Copy, Debug)]
pub struct Loot {
    amount: i32,
}

impl View for Loot {
    type V = int;

    /// The amount held.
    closed spec fn view(&self) -> int {
        self.amount as int
    }
}

impl Loot {
    /// A purse that holds nothing: every game starts with it.
    pub fn new() -> (loot: Loot)
        ensures
            loot@ == 0,
    {
        Loot { amount: 0 }
    }

    /// A purse that holds `amount`.
    pub fn holding(amount: i32) -> (loot: Loot)
        ensures
            loot@ == amount,
    {
        Loot { amount }
    }

    /// The amount held.
    pub fn amount(&self) -> (amount: i32)
        ensures
            amount == self@,
    {
        self.amount
    }

    /// Adds the one piece of loot that a boop earns by entering a hoop.
    pub fn earn(&mut self)
        requires
            old(self)@ < i32::MAX,
        ensures
            final(self)@ == old(self)@ + 1,
    {
        self.amount = self.amount + 1;
    }

    /// Takes `price` out of the purse.
    pub fn spend(&mut self, price: i32)
        requires
            i32::MIN <= old(self)@ - price <= i32::MAX,
        ensures
            final(self)@ == old(self)@ - price,
    {
        self.amount = self.amount - price;
    }

    /// The text of the loot counter: the amount in decimal.
    pub fn display_text(&self) -> (text: String)
        ensures
            text@ == decimal(self@),
    {
        let mut text = String::new();
        append_decimal(&mut text, self.amount);
        assert(text@ =~= decimal(self@));
        text
    }
}

} // verus!
