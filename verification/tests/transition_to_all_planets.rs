use hoops_and_boops::hoops_boops_loops::Planet;
use hoops_and_boops::transition_to_all_planets::{
    locked_planets, transition_to_all_planets_on_all_hoops_bought, Transitioned, PLANET_COUNT,
};

#[test]
fn view_of_all_planets_opens_once() {
    let mut transitioned = Transitioned::new();
    assert!(!transitioned.is_done());
    assert!(transition_to_all_planets_on_all_hoops_bought(&mut transitioned));
    assert!(transitioned.is_done());
    for _ in 0..5 {
        assert!(!transition_to_all_planets_on_all_hoops_bought(&mut transitioned));
        assert!(transitioned.is_done());
    }
}

#[test]
fn every_planet_but_the_first_appears_locked() {
    assert_eq!(PLANET_COUNT, 6);
    assert_eq!(
        locked_planets(),
        vec![
            (1, Planet::Two),
            (2, Planet::Three),
            (3, Planet::Four),
            (4, Planet::Five),
            (5, Planet::Six)
        ]
    );
}
