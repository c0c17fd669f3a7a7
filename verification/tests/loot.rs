use hoops_and_boops::loot::Loot;

#[test]
fn loot_starts_at_zero() {
    assert_eq!(Loot::new().amount(), 0);
}

#[test]
fn loot_is_earned_one_by_one() {
    let mut loot = Loot::new();
    loot.earn();
    loot.earn();
    loot.earn();
    assert_eq!(loot.amount(), 3);
}

#[test]
fn loot_is_spent_by_the_price() {
    let mut loot = Loot::holding(60);
    loot.spend(10);
    assert_eq!(loot.amount(), 50);
    loot.spend(50);
    assert_eq!(loot.amount(), 0);
}

#[test]
fn loot_counter_shows_the_amount_in_decimal() {
    assert_eq!(Loot::new().display_text(), "0");
    assert_eq!(Loot::holding(1234).display_text(), "1234");
    assert_eq!(Loot::holding(100).display_text(), "100");
}
