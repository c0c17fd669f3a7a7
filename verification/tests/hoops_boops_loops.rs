use bevy::prelude::Entity;
use hoops_and_boops::hoops_boops_loops::{Boop, Loop, Planet, MAX_BOOPS, MAX_HOOPS};
use hoops_and_boops::loot::Loot;

const NOWHERE: [bool; 8] = [false; 8];

fn at(hoop: usize) -> [bool; 8] {
    let mut overlaps = [false; 8];
    overlaps[hoop] = true;
    overlaps
}

fn loop_with_hoops(count: u32) -> Loop {
    let mut new_loop = Loop::new(Planet::One);
    for i in 0..count {
        new_loop.add_hoop(Entity::from_raw(100 + i), Entity::from_raw(200 + i));
    }
    new_loop
}

#[test]
fn planets_are_numbered_from_one_to_six() {
    assert_eq!(Planet::from_i32(1), Planet::One);
    assert_eq!(Planet::from_i32(2), Planet::Two);
    assert_eq!(Planet::from_i32(3), Planet::Three);
    assert_eq!(Planet::from_i32(4), Planet::Four);
    assert_eq!(Planet::from_i32(5), Planet::Five);
    assert_eq!(Planet::from_i32(6), Planet::Six);
    assert_eq!(Planet::One.get_number(), "1");
    assert_eq!(Planet::Four.get_number(), "4");
    assert_eq!(Planet::Six.get_number(), "6");
}

#[test]
fn planet_paths_carry_the_planet_number() {
    assert_eq!(Planet::One.get_sprite_path(), "loops/1.png");
    assert_eq!(Planet::Five.get_sprite_path(), "loops/5.png");
    assert_eq!(Planet::Two.get_hoop_showcase_path(), "buy-hoop-showcase/2.png");
    assert_eq!(Planet::Three.get_inner_hoop_path(1), "hoops/loop-3/inner-half-1.png");
    assert_eq!(Planet::Three.get_outer_hoop_path(8), "hoops/loop-3/outer-half-8.png");
    assert_eq!(Planet::Six.get_outer_hoop_path(12), "hoops/loop-6/outer-half-12.png");
}

#[test]
fn planet_prices_come_from_the_price_list() {
    let planets =
        [Planet::One, Planet::Two, Planet::Three, Planet::Four, Planet::Five, Planet::Six];
    for (i, planet) in planets.iter().enumerate() {
        assert_eq!(planet.get_price(), hoops_and_boops::prices::PLANET_PRICES[i]);
    }
}

#[test]
fn new_loop_is_empty() {
    let new_loop = Loop::new(Planet::Three);
    assert_eq!(new_loop.get_planet(), Planet::Three);
    assert_eq!(new_loop.get_hoop_count(), 0);
    assert!(new_loop.get_boops().is_empty());
    assert!(new_loop.get_hoop_sprites().is_empty());
    assert!(new_loop.has_room_for_hoop());
    assert!(new_loop.has_room_for_boop());
}

#[test]
fn next_hoop_paths_count_from_one() {
    let mut new_loop = Loop::new(Planet::Two);
    assert_eq!(
        new_loop.next_hoop_paths(),
        (
            "hoops/loop-2/outer-half-1.png".to_string(),
            "hoops/loop-2/inner-half-1.png".to_string()
        )
    );
    new_loop.add_hoop(Entity::from_raw(1), Entity::from_raw(2));
    assert_eq!(
        new_loop.next_hoop_paths(),
        (
            "hoops/loop-2/outer-half-2.png".to_string(),
            "hoops/loop-2/inner-half-2.png".to_string()
        )
    );
}

#[test]
fn eighth_hoop_is_the_last() {
    let mut new_loop = Loop::new(Planet::One);
    for i in 0..8 {
        assert!(new_loop.has_room_for_hoop());
        let all = new_loop.add_hoop(Entity::from_raw(2 * i), Entity::from_raw(2 * i + 1));
        assert_eq!(all, i == 7);
        assert_eq!(new_loop.get_hoop_count(), i as i32 + 1);
    }
    assert_eq!(new_loop.get_hoop_count(), MAX_HOOPS);
    assert!(!new_loop.has_room_for_hoop());
    assert_eq!(new_loop.get_hoop_sprites().len(), 8);
    assert_eq!(new_loop.get_hoop_sprites()[3], (Entity::from_raw(6), Entity::from_raw(7)));
}

#[test]
fn boops_are_kept_in_order_up_to_the_maximum() {
    let mut new_loop = Loop::new(Planet::One);
    for i in 0..MAX_BOOPS {
        assert!(new_loop.has_room_for_boop());
        new_loop.add_boop(Entity::from_raw(i as u32));
    }
    assert!(!new_loop.has_room_for_boop());
    assert_eq!(new_loop.get_boops().len(), 16);
    assert_eq!(new_loop.get_boops()[0], Entity::from_raw(0));
    assert_eq!(new_loop.get_boops()[15], Entity::from_raw(15));
}

#[test]
fn first_overlapped_hoop_is_found() {
    let new_loop = loop_with_hoops(4);
    assert_eq!(new_loop.first_hoop_entered(&NOWHERE), None);
    assert_eq!(new_loop.first_hoop_entered(&at(0)), Some(0));
    assert_eq!(new_loop.first_hoop_entered(&at(3)), Some(3));
    let mut two = at(1);
    two[2] = true;
    assert_eq!(new_loop.first_hoop_entered(&two), Some(1));
}

#[test]
fn places_without_a_hoop_do_not_count() {
    let new_loop = loop_with_hoops(4);
    assert_eq!(new_loop.first_hoop_entered(&at(4)), None);
    assert_eq!(new_loop.first_hoop_entered(&at(7)), None);
    assert_eq!(Loop::new(Planet::One).first_hoop_entered(&[true; 8]), None);
}

#[test]
fn boop_starts_outside_every_hoop() {
    assert!(!Boop::default().in_hoop());
}

#[test]
fn entering_a_hoop_earns_one_loot_however_long_the_stay() {
    let new_loop = loop_with_hoops(2);
    let mut boop = Boop::default();
    let mut loot = Loot::new();

    let lit = new_loop.get_loot_on_boop_in_hoop(&mut boop, &at(1), &mut loot);
    assert_eq!(lit, Some((Entity::from_raw(101), Entity::from_raw(201))));
    assert_eq!(loot.amount(), 1);
    assert!(boop.in_hoop());

    for _ in 0..25 {
        let lit = new_loop.get_loot_on_boop_in_hoop(&mut boop, &at(1), &mut loot);
        assert_eq!(lit, None);
        assert_eq!(loot.amount(), 1);
        assert!(boop.in_hoop());
    }
}

#[test]
fn leaving_and_entering_again_earns_again() {
    let new_loop = loop_with_hoops(2);
    let mut boop = Boop::default();
    let mut loot = Loot::new();

    new_loop.get_loot_on_boop_in_hoop(&mut boop, &at(0), &mut loot);
    new_loop.get_loot_on_boop_in_hoop(&mut boop, &at(0), &mut loot);
    assert_eq!(loot.amount(), 1);

    let lit = new_loop.get_loot_on_boop_in_hoop(&mut boop, &NOWHERE, &mut loot);
    assert_eq!(lit, None);
    assert!(!boop.in_hoop());
    assert_eq!(loot.amount(), 1);

    let lit = new_loop.get_loot_on_boop_in_hoop(&mut boop, &at(0), &mut loot);
    assert_eq!(lit, Some((Entity::from_raw(100), Entity::from_raw(200))));
    assert_eq!(loot.amount(), 2);
}

#[test]
fn passing_from_hoop_to_hoop_without_leaving_earns_nothing() {
    let new_loop = loop_with_hoops(2);
    let mut boop = Boop::default();
    let mut loot = Loot::new();
    new_loop.get_loot_on_boop_in_hoop(&mut boop, &at(0), &mut loot);
    let lit = new_loop.get_loot_on_boop_in_hoop(&mut boop, &at(1), &mut loot);
    assert_eq!(lit, None);
    assert_eq!(loot.amount(), 1);
}

#[test]
fn overlap_with_a_place_without_hoop_earns_nothing() {
    let new_loop = loop_with_hoops(2);
    let mut boop = Boop::default();
    let mut loot = Loot::new();
    let lit = new_loop.get_loot_on_boop_in_hoop(&mut boop, &at(5), &mut loot);
    assert_eq!(lit, None);
    assert_eq!(loot.amount(), 0);
    assert!(!boop.in_hoop());
}
