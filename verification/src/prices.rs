//! The prices of the game.

use crate::number_text::displayable;
use vstd::prelude::*;

verus! {

/// The price of each planet, in the order of their numbers.
pub const PLANET_PRICES: [i32; 6] = [0, 100, 500, 2000, 10000, 50000];

/// The prices on the first planet's button for boops, in the order in which they are asked.
pub const FIRST_PLANET_BOOP_PRICES: [i32; 15] = [
    10,
    20,
    30,
    50,
    80,
    100,
    200,
    300,
    500,
    800,
    1000,
    2000,
    3000,
    5000,
    8000,
];

/// The prices on the first planet's button for hoops, in the order in which they are asked.
pub const FIRST_PLANET_HOOP_PRICES: [i32; 8] = [50, 100, 200, 500, 1000, 2000, 5000, 10000];

/// Every price that a moon button of the first planet can show has a label.
pub proof fn lemma_button_prices_displayable()
    ensures
        forall|i: int| 0 <= i < 15 ==> displayable(#[trigger] FIRST_PLANET_BOOP_PRICES@[i] as int),
        forall|i: int| 0 <= i < 8 ==> displayable(#[trigger] FIRST_PLANET_HOOP_PRICES@[i] as int),
{
}

} // verus!
