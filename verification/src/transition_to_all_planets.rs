//! The one transition from the first planet to the view of all planets.

use crate::hoops_boops_loops::Planet;
use vstd::prelude::*;

verus! {

/// The number of planets.
pub const PLANET_COUNT: i32 = 6;

/// Remembers whether the view of all planets has been opened.
#[derive(Clone, Copy, Debug)]
pub struct Transitioned {
    done: bool,
}

impl View for Transitioned {
    type V = bool;

    /// Whether the view of all planets has been opened.
    closed spec fn view(&self) -> bool {
        self.done
    }
}

impl Transitioned {
    /// The state at the start of a game: the view has not been opened.
    pub fn new() -> (state: Transitioned)
        ensures
            !state@,
    {
        Transitioned { done: false }
    }

    /// Whether the view of all planets has been opened.
    pub fn is_done(&self) -> (done: bool)
        ensures
            done == self@,
    {
        self.done
    }
}

/// Called whenever a loop has got all its hoops. Tells whether the view of all planets is to
/// be opened now, which is so the first time only.
pub fn transition_to_all_planets_on_all_hoops_bought(transitioned: &mut Transitioned) -> (open:
    bool)
    ensures
        open == !old(transitioned)@,
        final(transitioned)@,
{
    if !transitioned.done {
        transitioned.done = true;
        true
    } else {
        false
    }
}

/// The planets that appear locked when the view of all planets opens, each with the number of
/// its place on the screen: every planet but the first, at the place before its number.
pub fn locked_planets() -> (planets: Vec<(usize, Planet)>)
    ensures
        planets@.len() == PLANET_COUNT - 1,
        forall|k: int|
            0 <= k < planets@.len() ==> (#[trigger] planets@[k]).0 == k + 1 && planets@[k].1.number()
                == k + 2,
{
    let mut planets: Vec<(usize, Planet)> = Vec::new();
    let mut i: i32 = 1;
    while i < PLANET_COUNT
        invariant
            1 <= i <= PLANET_COUNT,
            planets@.len() == i - 1,
            forall|k: int|
                0 <= k < planets@.len() ==> (#[trigger] planets@[k]).0 == k + 1
                    && planets@[k].1.number() == k + 2,
        decreases PLANET_COUNT - i,
    {
        planets.push((i as usize, Planet::from_i32(i + 1)));
        i = i + 1;
    }
    planets
}

} // verus!
