//! The pacing of the sound that a boop makes when it goes through a hoop.

use vstd::prelude::*;

verus! {

/// The shortest time between two sounds, in nanoseconds.
pub const BOOP_INTERVAL: u128 = 150_000_000;

/// The longest time that the clock of the sounds can hold, in nanoseconds: what
/// `std::time::Duration` can hold.
pub const LONGEST_TIME: u128 = 18_446_744_073_709_551_615_999_999_999;

/// The mathematical content of the pacing: the nanoseconds since the last sound, and whether
/// a boop has gone through a hoop since.
pub ghost struct Pacing {
    pub time_since_last_boop: nat,
    pub is_ready_to_boop: bool,
}

impl Pacing {
    /// The pacing after `delta` more nanoseconds in which `heard` boops went through hoops,
    /// before a sound is played.
    pub open spec fn waited(self, delta: nat, heard: nat) -> Pacing {
        Pacing {
            time_since_last_boop: self.time_since_last_boop + delta,
            is_ready_to_boop: self.is_ready_to_boop || heard > 0,
        }
    }

    /// Whether a sound is due: the interval has passed and a boop is waiting to be heard.
    pub open spec fn due(self) -> bool {
        self.time_since_last_boop > BOOP_INTERVAL && self.is_ready_to_boop
    }
}

/// Paces the sounds of boops that go through hoops, so that they do not pile up.
#[derive(Clone, Copy, Debug)]
pub struct BoopSounds {
    time_since_last_boop: u128,
    is_ready_to_boop: bool,
}

impl View for BoopSounds {
    type V = Pacing;

    closed spec fn view(&self) -> Pacing {
        Pacing {
            time_since_last_boop: self.time_since_last_boop as nat,
            is_ready_to_boop: self.is_ready_to_boop,
        }
    }
}

impl BoopSounds {
    /// The pacing at the start: no time has passed and no boop is waiting.
    pub fn new() -> (sounds: BoopSounds)
        ensures
            sounds@ == (Pacing { time_since_last_boop: 0, is_ready_to_boop: false }),
    {
        BoopSounds { time_since_last_boop: 0, is_ready_to_boop: false }
    }

    /// The nanoseconds since the last sound.
    pub fn time_since_last_boop(&self) -> (time: u128)
        ensures
            time == self@.time_since_last_boop,
    {
        self.time_since_last_boop
    }

    /// Whether a boop has gone through a hoop since the last sound.
    pub fn is_ready_to_boop(&self) -> (ready: bool)
        ensures
            ready == self@.is_ready_to_boop,
    {
        self.is_ready_to_boop
    }
}

/// One tick of the pacing: `delta` nanoseconds have passed, in which `heard` boops went
/// through hoops. Tells whether the sound is to be played now. It is when more than the
/// interval has passed since the last sound and a boop has gone through a hoop since; the
/// pacing then starts anew.
pub fn play_hoop_through_boop_sounds(sounds: &mut BoopSounds, delta: u128, heard: usize) -> (play:
    bool)
    requires
        old(sounds)@.time_since_last_boop + delta <= LONGEST_TIME,
    ensures
        play == old(sounds)@.waited(delta as nat, heard as nat).due(),
        final(sounds)@ == if play {
            Pacing { time_since_last_boop: 0, is_ready_to_boop: false }
        } else {
            old(sounds)@.waited(delta as nat, heard as nat)
        },
{
    sounds.time_since_last_boop = sounds.time_since_last_boop + delta;
    sounds.is_ready_to_boop = sounds.is_ready_to_boop || heard > 0;
    if sounds.time_since_last_boop > BOOP_INTERVAL && sounds.is_ready_to_boop {
        sounds.time_since_last_boop = 0;
        sounds.is_ready_to_boop = false;
        true
    } else {
        false
    }
}

} // verus!
