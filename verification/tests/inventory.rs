use inventory::Area;
use inventory::Inventory;
use inventory::InventoryBacking;
use inventory::Item;
use inventory::ItemStack;

fn player_inventory() -> Inventory {
    let layout = vec![(Area::Storage, 27), (Area::Hotbar, 9), (Area::Helmet, 1)];
    Inventory::new(InventoryBacking::new(&layout).unwrap())
}

#[test]
fn backing_rejects_duplicate_areas() {
    let layout = vec![(Area::Hotbar, 9), (Area::Storage, 27), (Area::Hotbar, 1)];
    assert!(InventoryBacking::new(&layout).is_none());
}

#[test]
fn empty_layout_defines_no_area() {
    let backing = InventoryBacking::new(&vec![]).unwrap();
    let inv = Inventory::new(backing);
    assert!(inv.item(Area::Storage, 0).is_none());
    assert!(inv.item(Area::Hotbar, 0).is_none());
}

#[test]
fn slots_start_empty() {
    let inv = player_inventory();
    for i in 0..9 {
        assert_eq!(inv.item(Area::Hotbar, i).unwrap().get(), None);
    }
    assert_eq!(inv.item(Area::Storage, 26).unwrap().get(), None);
}

#[test]
fn lookup_past_area_len_is_absent() {
    let inv = player_inventory();
    assert!(inv.item(Area::Hotbar, 8).is_some());
    assert!(inv.item(Area::Hotbar, 9).is_none());
    assert!(inv.item(Area::Hotbar, 100).is_none());
    assert!(inv.item(Area::Helmet, 0).is_some());
    assert!(inv.item(Area::Helmet, 1).is_none());
}

#[test]
fn lookup_of_undefined_area_is_absent() {
    let inv = player_inventory();
    assert!(inv.item(Area::Offhand, 0).is_none());
    assert!(inv.item(Area::CraftingInput, 0).is_none());
}

#[test]
fn slot_write_reads_back() {
    let inv = player_inventory();
    {
        let mut guard = inv.item(Area::Hotbar, 4).unwrap();
        guard.set(Some(ItemStack::new(Item::Diamond, 12)));
        assert_eq!(guard.get(), Some(ItemStack::new(Item::Diamond, 12)));
    }
    let guard = inv.item(Area::Hotbar, 4).unwrap();
    assert_eq!(guard.get(), Some(ItemStack::new(Item::Diamond, 12)));
}

#[test]
fn slot_can_be_cleared() {
    let inv = player_inventory();
    {
        let mut guard = inv.item(Area::Storage, 3).unwrap();
        guard.set(Some(ItemStack::new(Item::Stick, 2)));
    }
    {
        let mut guard = inv.item(Area::Storage, 3).unwrap();
        guard.set(None);
    }
    assert_eq!(inv.item(Area::Storage, 3).unwrap().get(), None);
}

#[test]
fn writes_leave_all_other_slots_alone() {
    let inv = player_inventory();
    {
        let mut guard = inv.item(Area::Hotbar, 0).unwrap();
        guard.set(Some(ItemStack::new(Item::Stone, 1)));
    }
    // Same area, different index.
    for i in 1..9 {
        assert_eq!(inv.item(Area::Hotbar, i).unwrap().get(), None);
    }
    // Different areas, including the indices flanking the hotbar's range in
    // the flat array.
    for i in 0..27 {
        assert_eq!(inv.item(Area::Storage, i).unwrap().get(), None);
    }
    assert_eq!(inv.item(Area::Helmet, 0).unwrap().get(), None);
    assert_eq!(
        inv.item(Area::Hotbar, 0).unwrap().get(),
        Some(ItemStack::new(Item::Stone, 1))
    );
}

#[test]
fn handles_alias_the_same_slots() {
    let h1 = player_inventory();
    let h2 = h1.new_handle();
    assert!(h1.ptr_eq(&h2));
    assert!(h2.ptr_eq(&h1));
    {
        let mut guard = h2.item(Area::Hotbar, 7).unwrap();
        guard.set(Some(ItemStack::new(Item::Diamond, 64)));
    }
    assert_eq!(
        h1.item(Area::Hotbar, 7).unwrap().get(),
        Some(ItemStack::new(Item::Diamond, 64))
    );
}

#[test]
fn distinct_inventories_are_not_identical() {
    let h1 = player_inventory();
    let h2 = player_inventory();
    assert!(!h1.ptr_eq(&h2));
    assert!(h1.ptr_eq(&h1));
}

#[test]
fn cloning_is_the_same_as_new_handle() {
    let h1 = player_inventory();
    let h2 = h1.clone();
    assert!(h1.ptr_eq(&h2));
}

#[test]
fn hotbar_scenario() {
    // Inventory with a 9-slot hotbar: put 3 of an item into slot 0, add 2,
    // fail to remove 10, then remove all 5.
    let inv = Inventory::new(InventoryBacking::new(&vec![(Area::Hotbar, 9)]).unwrap());
    {
        let mut guard = inv.item(Area::Hotbar, 0).unwrap();
        guard.set(Some(ItemStack::new(Item::Stone, 3)));
    }
    {
        let mut guard = inv.item(Area::Hotbar, 0).unwrap();
        let mut stack = guard.get().unwrap();
        assert_eq!(stack.add(2), 5);
        guard.set(Some(stack));
    }
    {
        let guard = inv.item(Area::Hotbar, 0).unwrap();
        assert_eq!(guard.get().unwrap().count(), 5);
    }
    {
        let mut guard = inv.item(Area::Hotbar, 0).unwrap();
        let mut stack = guard.get().unwrap();
        assert!(!stack.remove(10));
        guard.set(Some(stack));
    }
    {
        let guard = inv.item(Area::Hotbar, 0).unwrap();
        assert_eq!(guard.get().unwrap().count(), 5);
    }
    {
        let mut guard = inv.item(Area::Hotbar, 0).unwrap();
        let mut stack = guard.get().unwrap();
        assert!(stack.remove(5));
        guard.set(Some(stack));
    }
    let guard = inv.item(Area::Hotbar, 0).unwrap();
    assert_eq!(guard.get().unwrap().count(), 0);
}
