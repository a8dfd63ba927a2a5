use vdex_bridge::cursor::{
    vdex_free_item_iter, vdex_item_iter, vdex_item_next, VDEX_ITEM_ITER_END,
};
use vdex_bridge::dataset::{BerryRecord, Dataset, ItemRecord, PalaceTable};
use vdex_bridge::items::{
    vdex_item_details, vdex_item_name, VDEX_ITEM_FLAG_CONSUMABLE, VDEX_ITEM_FLAG_COUNTABLE,
    VDEX_ITEM_FLAG_UNDERGROUND, VDEX_ITEM_FLAG_USABLE_IN_BATTLE, VDEX_NO_DOMINANT_FLAVOR,
};
use vdex_bridge::VdexError;

fn empty_palace() -> PalaceTable {
    PalaceTable { low_attack: vec![], low_defense: vec![], high_attack: vec![], high_defense: vec![] }
}

fn potion(id: u16) -> ItemRecord {
    ItemRecord {
        id,
        name: b"Potion".to_vec(),
        category: 5,
        unused: false,
        pocket: 2,
        cost: 200,
        fling_power: Some(30),
        fling_effect: 1,
        countable: true,
        consumable: true,
        usable_overworld: false,
        usable_in_battle: true,
        holdable: false,
        holdable_passive: false,
        holdable_active: false,
        underground: true,
        berry: None,
    }
}

fn oran_berry(id: u16) -> ItemRecord {
    ItemRecord {
        id,
        name: b"Oran Berry".to_vec(),
        category: 7,
        unused: true,
        pocket: 4,
        cost: 0,
        fling_power: None,
        fling_effect: 0,
        countable: false,
        consumable: false,
        usable_overworld: false,
        usable_in_battle: false,
        holdable: false,
        holdable_passive: false,
        holdable_active: false,
        underground: false,
        berry: Some(BerryRecord { natural_gift_power: 60, natural_gift_type: 10, flavor: None }),
    }
}

fn item_dex() -> Dataset {
    Dataset {
        efficacy: vec![],
        items: vec![potion(12), oran_berry(5), potion(999)],
        moves: vec![],
        species: vec![],
        palace: empty_palace(),
        version_group_count: 0,
    }
}

#[test]
fn item_details_plain() {
    let dex = item_dex();
    let d = vdex_item_details(&dex, 12).unwrap();
    assert_eq!(d.category, 5);
    assert_eq!(d.unused, 0);
    assert_eq!(d.pocket, 2);
    assert_eq!(d.cost, 200);
    assert_eq!(d.fling_power, 30);
    assert_eq!(d.fling_effect, 1);
    let expected_flags = VDEX_ITEM_FLAG_COUNTABLE | VDEX_ITEM_FLAG_CONSUMABLE
        | VDEX_ITEM_FLAG_USABLE_IN_BATTLE | VDEX_ITEM_FLAG_UNDERGROUND;
    assert_eq!(d.flags, expected_flags);
    assert_eq!(d.flags, 0x8B);
}

#[test]
fn item_details_berry_sentinels() {
    let dex = item_dex();
    // An item with no berry sub-record: power 0, type 0, no dominant flavor.
    let d = vdex_item_details(&dex, 12).unwrap();
    assert_eq!(d.natural_gift_power, 0);
    assert_eq!(d.natural_gift_type, 0);
    assert_eq!(d.flavor, VDEX_NO_DOMINANT_FLAVOR);
    // A berry without a dominant flavor still carries the flavor sentinel.
    let b = vdex_item_details(&dex, 5).unwrap();
    assert_eq!(b.natural_gift_power, 60);
    assert_eq!(b.natural_gift_type, 10);
    assert_eq!(b.flavor, VDEX_NO_DOMINANT_FLAVOR);
    assert_eq!(b.unused, 1);
    assert_eq!(b.fling_power, 0);
}

#[test]
fn item_details_unknown_id() {
    let dex = item_dex();
    assert_eq!(vdex_item_details(&dex, 1000).err(), Some(VdexError::UnknownItem));
    assert_eq!(vdex_item_name(&dex, 1000).err(), Some(VdexError::UnknownItem));
}

#[test]
fn item_name_bytes() {
    let dex = item_dex();
    let buf = vdex_item_name(&dex, 12).unwrap();
    assert_eq!(buf.as_bytes(), &b"Potion\0".to_vec());
}

#[test]
fn item_cursor_completeness() {
    let dex = item_dex();
    let mut it = vdex_item_iter(&dex);
    let mut yielded = vec![
        vdex_item_next(&mut it),
        vdex_item_next(&mut it),
        vdex_item_next(&mut it),
    ];
    // Exactly N distinct elements, each a member of the source collection.
    yielded.sort();
    assert_eq!(yielded, vec![5, 12, 999]);
    // After exhaustion, only the end sentinel, on every later call.
    assert_eq!(vdex_item_next(&mut it), VDEX_ITEM_ITER_END);
    assert_eq!(vdex_item_next(&mut it), VDEX_ITEM_ITER_END);
}

#[test]
fn item_cursor_free_is_idempotent() {
    let dex = item_dex();
    let mut slot = Some(vdex_item_iter(&dex));
    vdex_free_item_iter(&mut slot);
    assert!(slot.is_none());
    vdex_free_item_iter(&mut slot);
    assert!(slot.is_none());
}

#[test]
fn item_cursor_empty_collection() {
    let dex = Dataset {
        efficacy: vec![],
        items: vec![],
        moves: vec![],
        species: vec![],
        palace: empty_palace(),
        version_group_count: 0,
    };
    let mut it = vdex_item_iter(&dex);
    assert_eq!(vdex_item_next(&mut it), VDEX_ITEM_ITER_END);
}
