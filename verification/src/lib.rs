//! The rules of a small clicker game: boops orbit a loop and earn loot when they pass through
//! its hoops, and moon buttons sell further boops and hoops at rising prices.

pub mod buy_boops_and_hoops;
pub mod entity;
pub mod hoops_boops_loops;
pub mod locked_planets;
pub mod loot;
pub mod number_text;
pub mod play_hoop_through_boop_sounds;
pub mod prices;
pub mod transition_to_all_planets;
