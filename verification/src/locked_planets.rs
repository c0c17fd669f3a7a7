//! The planets that are still locked, each for sale at its price.

use crate::hoops_boops_loops::Planet;
use crate::loot::Loot;
use crate::number_text::{decimal, i32_to_string};
use vstd::prelude::*;

verus! {

/// A planet that has not been bought yet.
#[derive(Clone, Copy, Debug)]
pub struct LockedPlanet {
    planet: Planet,
}

impl View for LockedPlanet {
    type V = Planet;

    /// The planet that is for sale.
    closed spec fn view(&self) -> Planet {
        self.planet
    }
}

impl LockedPlanet {
    /// The locked form of `planet`.
    pub fn new(planet: Planet) -> (locked: LockedPlanet)
        ensures
            locked@ == planet,
    {
        LockedPlanet { planet }
    }

    /// The planet that is for sale.
    pub fn planet(&self) -> (planet: Planet)
        ensures
            planet == self@,
    {
        self.planet
    }

    /// The text of the planet's price tag: the price in decimal.
    pub fn price_text(&self) -> (text: String)
        ensures
            text@ == decimal(self@.price()),
    {
        i32_to_string(self.planet.get_price())
    }
}

/// A click on a locked planet. With more loot than the planet's price the price is taken from
/// `loot` and the planet is bought; otherwise the loot stays as it is.
pub fn buy_loop_on_click(locked: &LockedPlanet, loot: &mut Loot) -> (bought: bool)
    ensures
        bought == (old(loot)@ > locked@.price()),
        final(loot)@ == if bought {
            old(loot)@ - locked@.price()
        } else {
            old(loot)@
        },
{
    let price = locked.planet.get_price();
    if loot.amount() > price {
        loot.spend(price);
        true
    } else {
        false
    }
}

} // verus!
