use bt_hci::registry::{remove_first, PendingEntry, PendingRegistry};

fn entry(opcode: u16, reply: &'static str) -> PendingEntry<&'static str> {
    PendingEntry { opcode, reply }
}

#[test]
fn remove_first_takes_the_first_accepted_item() {
    let mut items = vec![3, 8, 5, 8, 9];
    let removed = remove_first(&mut items, |item: &i32| *item == 8);
    assert_eq!(removed, Some(8));
    assert_eq!(items, vec![3, 5, 8, 9]);
}

#[test]
fn remove_first_takes_the_head_when_it_is_accepted() {
    let mut items = vec!["a", "b"];
    let removed = remove_first(&mut items, |_item: &&str| true);
    assert_eq!(removed, Some("a"));
    assert_eq!(items, vec!["b"]);
}

#[test]
fn remove_first_takes_the_last_item_when_only_it_is_accepted() {
    let mut items = vec![1u8, 2, 3];
    let removed = remove_first(&mut items, |item: &u8| *item > 2);
    assert_eq!(removed, Some(3));
    assert_eq!(items, vec![1, 2]);
}

#[test]
fn remove_first_leaves_the_items_when_none_is_accepted() {
    let mut items = vec![3, 5, 9];
    let removed = remove_first(&mut items, |item: &i32| *item == 8);
    assert_eq!(removed, None);
    assert_eq!(items, vec![3, 5, 9]);
}

#[test]
fn remove_first_on_nothing_gives_nothing() {
    let mut items: Vec<u16> = Vec::new();
    let removed = remove_first(&mut items, |_item: &u16| true);
    assert_eq!(removed, None);
    assert!(items.is_empty());
}

#[test]
fn remove_first_asks_in_order_and_stops_at_the_first_hit() {
    let mut items = vec![10, 20, 30, 40];
    let mut asked = Vec::new();
    let removed = remove_first(&mut items, |item: &i32| {
        asked.push(*item);
        *item >= 20
    });
    assert_eq!(removed, Some(20));
    assert_eq!(asked, vec![10, 20]);
    assert_eq!(items, vec![10, 30, 40]);
}

#[test]
fn new_registry_holds_nothing() {
    let registry: PendingRegistry<u8> = PendingRegistry::new();
    assert_eq!(registry.len(), 0);
    assert!(registry.is_empty());
}

#[test]
fn register_appends_in_the_order_of_the_calls() {
    let mut registry = PendingRegistry::new();
    registry.register(entry(0x0C03, "reset"));
    registry.register(entry(0x1001, "version"));
    registry.register(entry(0x0C03, "reset again"));
    assert_eq!(registry.len(), 3);
    assert!(!registry.is_empty());
    assert_eq!(registry.try_resolve(0x0C03), Some(entry(0x0C03, "reset")));
    assert_eq!(registry.try_resolve(0x0C03), Some(entry(0x0C03, "reset again")));
    assert_eq!(registry.try_resolve(0x1001), Some(entry(0x1001, "version")));
    assert!(registry.is_empty());
}

#[test]
fn try_resolve_takes_only_the_oldest_of_equal_opcodes() {
    let mut registry = PendingRegistry::new();
    registry.register(entry(0x2005, "other"));
    registry.register(entry(0x0405, "first"));
    registry.register(entry(0x0405, "second"));
    assert_eq!(registry.try_resolve(0x0405), Some(entry(0x0405, "first")));
    assert_eq!(registry.len(), 2);
    assert_eq!(registry.try_resolve(0x0405), Some(entry(0x0405, "second")));
    assert_eq!(registry.try_resolve(0x0405), None);
    assert_eq!(registry.len(), 1);
}

#[test]
fn try_resolve_without_a_waiter_changes_nothing() {
    let mut registry = PendingRegistry::new();
    registry.register(entry(0x0C03, "reset"));
    assert_eq!(registry.try_resolve(0x0C04), None);
    assert_eq!(registry.len(), 1);
    assert_eq!(registry.try_resolve(0x0C03), Some(entry(0x0C03, "reset")));
}

#[test]
fn try_resolve_on_an_empty_registry_gives_nothing() {
    let mut registry: PendingRegistry<&'static str> = PendingRegistry::new();
    assert_eq!(registry.try_resolve(0), None);
    assert_eq!(registry.try_resolve(u16::MAX), None);
    assert!(registry.is_empty());
}

#[test]
fn try_resolve_tells_the_extreme_opcodes_apart() {
    let mut registry = PendingRegistry::new();
    registry.register(entry(u16::MAX, "max"));
    registry.register(entry(0, "zero"));
    assert_eq!(registry.try_resolve(0), Some(entry(0, "zero")));
    assert_eq!(registry.try_resolve(u16::MAX), Some(entry(u16::MAX, "max")));
}
