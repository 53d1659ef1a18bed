use fswitcher::binding::BindingTable;
use fswitcher::binding::PRIMARY_SLOT;
use fswitcher::binding::SECONDARY_SLOT;

#[test]
fn default_slots_are_the_deployment_product_ids() {
    let table = BindingTable::new();
    assert_eq!(table.primary_slot(), 1);
    assert_eq!(table.secondary_slot(), 8195);
    assert_eq!(PRIMARY_SLOT, 1);
    assert_eq!(SECONDARY_SLOT, 8195);
    assert_eq!(table.snapshot(), (None, None));
}

#[test]
fn slots_are_configurable() {
    let table = BindingTable::with_slots(5, 6);
    assert_eq!(table.primary_slot(), 5);
    assert_eq!(table.secondary_slot(), 6);
}

#[test]
fn repeated_identical_input_from_empty_fills_secondary_then_primary() {
    let mut table = BindingTable::new();
    // Both slots empty: the first path lands in the secondary slot only.
    let first = table.update("X".to_owned());
    assert_eq!(first, (None, Some("X".to_owned())));
    // One slot occupied: the identical path now lands in the primary slot.
    let second = table.update("X".to_owned());
    assert_eq!(second, (Some("X".to_owned()), Some("X".to_owned())));
}

#[test]
fn three_paths_walk_all_branches() {
    let mut table = BindingTable::new();
    assert_eq!(table.update("A".to_owned()), (None, Some("A".to_owned())));
    assert_eq!(
        table.update("B".to_owned()),
        (Some("B".to_owned()), Some("A".to_owned()))
    );
    assert_eq!(
        table.update("C".to_owned()),
        (Some("C".to_owned()), Some("B".to_owned()))
    );
    assert_eq!(
        table.snapshot(),
        (Some("C".to_owned()), Some("B".to_owned()))
    );
}

#[test]
fn both_occupied_discards_old_secondary() {
    let mut table = BindingTable::new();
    table.update("A".to_owned());
    table.update("B".to_owned());
    table.update("C".to_owned());
    let snapshot = table.update("D".to_owned());
    // "A" cascaded out long ago; "B" is discarded now.
    assert_eq!(snapshot, (Some("D".to_owned()), Some("C".to_owned())));
}
