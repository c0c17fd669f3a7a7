use hoops_and_boops::play_hoop_through_boop_sounds::{
    play_hoop_through_boop_sounds, BoopSounds, BOOP_INTERVAL, LONGEST_TIME,
};
use std::time::Duration;

const MILLI: u128 = 1_000_000;

#[test]
fn interval_is_150_milliseconds() {
    assert_eq!(BOOP_INTERVAL, Duration::from_millis(150).as_nanos());
    assert_eq!(LONGEST_TIME, Duration::MAX.as_nanos());
}

#[test]
fn no_sound_without_a_boop() {
    let mut sounds = BoopSounds::new();
    for _ in 0..100 {
        assert!(!play_hoop_through_boop_sounds(&mut sounds, 16 * MILLI, 0));
    }
    assert_eq!(sounds.time_since_last_boop(), 1600 * MILLI);
    assert!(!sounds.is_ready_to_boop());
}

#[test]
fn sound_waits_for_the_interval() {
    let mut sounds = BoopSounds::new();
    assert!(!play_hoop_through_boop_sounds(&mut sounds, 100 * MILLI, 3));
    assert!(sounds.is_ready_to_boop());
    assert!(!play_hoop_through_boop_sounds(&mut sounds, 50 * MILLI, 0));
    assert_eq!(sounds.time_since_last_boop(), BOOP_INTERVAL);
    assert!(play_hoop_through_boop_sounds(&mut sounds, 1, 0));
    assert_eq!(sounds.time_since_last_boop(), 0);
    assert!(!sounds.is_ready_to_boop());
}

#[test]
fn sound_plays_at_once_after_a_long_silence() {
    let mut sounds = BoopSounds::new();
    assert!(!play_hoop_through_boop_sounds(&mut sounds, 1000 * MILLI, 0));
    assert!(play_hoop_through_boop_sounds(&mut sounds, 16 * MILLI, 1));
    assert!(!play_hoop_through_boop_sounds(&mut sounds, 16 * MILLI, 1));
    assert!(sounds.is_ready_to_boop());
}

#[test]
fn many_boops_make_one_sound_per_interval() {
    let mut sounds = BoopSounds::new();
    let mut played = 0;
    for _ in 0..100 {
        if play_hoop_through_boop_sounds(&mut sounds, 16 * MILLI, 2) {
            played += 1;
        }
    }
    assert_eq!(played, 10);
}
