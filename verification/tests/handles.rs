use vdex_bridge::dataset::{Dataset, PalaceTable};
use vdex_bridge::efficacy::vdex_efficacy;
use vdex_bridge::handles::HandleTable;

#[test]
fn handle_insert_access_free() {
    let mut table: HandleTable<u32> = HandleTable::new();
    let h = table.insert(7);
    assert_eq!(table.access(h).copied(), Some(7));
    assert!(table.free(h));
    assert!(table.access(h).is_none());
}

#[test]
fn handle_double_free_is_detected() {
    let mut table: HandleTable<u32> = HandleTable::new();
    let h = table.insert(7);
    assert!(table.free(h));
    // The second free of the same handle is a detected no-op.
    assert!(!table.free(h));
}

#[test]
fn handle_stale_after_slot_reuse() {
    let mut table: HandleTable<u32> = HandleTable::new();
    let h = table.insert(7);
    assert!(table.free(h));
    let h2 = table.insert(9);
    // The freed slot may be reused, but under a fresh generation: the
    // stale handle stays dead and never aliases the new value.
    assert!(table.access(h).is_none());
    assert_eq!(table.access(h2).copied(), Some(9));
}

#[test]
fn handle_init_releases_previous_value() {
    let mut table: HandleTable<u32> = HandleTable::new();
    let mut h = table.insert(1);
    let stale = h;
    table.init(&mut h, 2);
    assert_eq!(table.access(h).copied(), Some(2));
    assert!(table.access(stale).is_none());
}

#[test]
fn handle_independent_values() {
    let mut table: HandleTable<u32> = HandleTable::new();
    let a = table.insert(1);
    let b = table.insert(2);
    assert!(table.free(a));
    assert_eq!(table.access(b).copied(), Some(2));
}

#[test]
fn dataset_lifecycle_through_handles() {
    // Instance-based dataset lifecycle: the caller creates a dataset
    // behind an owning handle, queries through it, and destroys it.
    let dex = Dataset {
        efficacy: vec![vec![4]],
        items: vec![],
        moves: vec![],
        species: vec![],
        palace: PalaceTable {
            low_attack: vec![],
            low_defense: vec![],
            high_attack: vec![],
            high_defense: vec![],
        },
        version_group_count: 0,
    };
    let mut table: HandleTable<Dataset> = HandleTable::new();
    let h = table.insert(dex);
    let held = table.access(h).unwrap();
    assert_eq!(vdex_efficacy(held, 0, 0), 4);
    assert!(table.free(h));
    assert!(table.access(h).is_none());
}
