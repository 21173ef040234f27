use inventory::Item;
use inventory::ItemStack;

#[test]
fn new_starts_without_damage() {
    let s = ItemStack::new(Item::IronPickaxe, 7);
    assert_eq!(s.item(), Item::IronPickaxe);
    assert_eq!(s.count(), 7);
    assert_eq!(s.damage, None);
}

#[test]
fn add_returns_new_count() {
    let mut s = ItemStack::new(Item::Stone, 10);
    let c = s.add(5);
    assert_eq!(c, 15);
    assert_eq!(s.count(), 15);
    assert_eq!(s.item(), Item::Stone);
}

#[test]
fn add_then_remove_round_trips() {
    let mut s = ItemStack::new(Item::Diamond, 4);
    s.add(6);
    assert!(s.remove(10));
    assert_eq!(s.count(), 0);
}

#[test]
fn remove_of_too_many_leaves_stack_unchanged() {
    let mut s = ItemStack::new(Item::Stick, 3);
    assert!(!s.remove(4));
    assert_eq!(s.count(), 3);
    assert_eq!(s.item(), Item::Stick);
    assert_eq!(s.damage, None);
}

#[test]
fn remove_exact_count_succeeds() {
    let mut s = ItemStack::new(Item::Stick, 3);
    assert!(s.remove(3));
    assert_eq!(s.count(), 0);
}

#[test]
fn set_item_overwrites_item_only() {
    let mut s = ItemStack::new(Item::Stone, 9);
    s.set_item(Item::Diamond);
    assert_eq!(s.item(), Item::Diamond);
    assert_eq!(s.count(), 9);
}

#[test]
fn set_count_overwrites_count_only() {
    let mut s = ItemStack::new(Item::Stone, 9);
    s.set_count(2);
    assert_eq!(s.count(), 2);
    assert_eq!(s.item(), Item::Stone);
}

#[test]
fn damage_reports_broken_at_durability() {
    // Wooden sword durability is 59: unit damage stays unbroken for the
    // first 58 calls, reports broken on the 59th, and ever after.
    let mut s = ItemStack::new(Item::WoodenSword, 1);
    s.damage = Some(0);
    for _ in 0..58 {
        assert!(!s.damage(1));
    }
    assert!(s.damage(1));
    assert_eq!(s.damage, Some(59));
    assert!(s.damage(1));
    assert_eq!(s.damage, Some(60));
}

#[test]
fn damage_in_one_blow_reports_broken() {
    let mut s = ItemStack::new(Item::LeatherHelmet, 1);
    s.damage = Some(0);
    assert!(!s.damage(54));
    assert!(s.damage(1));
}

#[test]
fn damage_untracked_stack_never_mutates() {
    let mut s = ItemStack::new(Item::Stone, 5);
    assert!(!s.damage(1000));
    assert_eq!(s.damage, None);
    assert_eq!(s.count(), 5);
    assert_eq!(s.item(), Item::Stone);
}

#[test]
fn damage_tracked_on_nondamageable_item_accumulates_unbroken() {
    let mut s = ItemStack::new(Item::Stone, 1);
    s.damage = Some(3);
    assert!(!s.damage(4));
    assert_eq!(s.damage, Some(7));
}

#[test]
fn durability_of_catalog_items() {
    assert_eq!(Item::WoodenSword.durability(), Some(59));
    assert_eq!(Item::IronPickaxe.durability(), Some(250));
    assert_eq!(Item::Stone.durability(), None);
    assert_eq!(Item::Diamond.durability(), None);
}
