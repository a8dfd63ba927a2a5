use vdex_bridge::dataset::{Dataset, MoveMetaRecord, MoveRecord, PalaceTable};
use vdex_bridge::moves::{
    vdex_move_count, vdex_move_details, vdex_move_name, VDEX_MOVE_FLAG_CONTACT,
    VDEX_MOVE_FLAG_MIRROR, VDEX_MOVE_FLAG_PROTECT, VDEX_NEVER_MISSES, VDEX_STAT_CHANGE_SPEED,
};
use vdex_bridge::VdexError;

fn empty_palace() -> PalaceTable {
    PalaceTable { low_attack: vec![], low_defense: vec![], high_attack: vec![], high_defense: vec![] }
}

fn meta() -> MoveMetaRecord {
    MoveMetaRecord {
        category: 0,
        ailment: 5,
        ailment_volatile: true,
        hits: None,
        turns: None,
        recoil: -25,
        healing: 0,
        critical_rate: 1,
        ailment_chance: 10,
        flinch_chance: 0,
        stat_chance: 30,
        stat_changes: [0, 0, -1, 0, 0, 0, 0],
        contact: true,
        charge: false,
        recharge: false,
        protect: true,
        reflectable: false,
        snatch: false,
        mirror: true,
        punch: false,
        sound: false,
        gravity: false,
        defrost: false,
        distance: false,
        heal: false,
        authentic: false,
    }
}

fn tackle() -> MoveRecord {
    MoveRecord {
        name: b"Tackle".to_vec(),
        generation: 1,
        typ: 0,
        power: 40,
        pp: 35,
        accuracy: Some(95),
        priority: 0,
        target: 10,
        damage_class: 2,
        effect: 1,
        effect_chance: None,
        meta: meta(),
    }
}

fn swift() -> MoveRecord {
    let mut m = tackle();
    m.name = b"Swift".to_vec();
    m.accuracy = None;
    m.meta.hits = Some((2, 5));
    m.meta.turns = Some((1, 3));
    m
}

fn move_dex() -> Dataset {
    Dataset {
        efficacy: vec![],
        items: vec![],
        moves: vec![tackle(), swift()],
        species: vec![],
        palace: empty_palace(),
        version_group_count: 0,
    }
}

#[test]
fn move_count() {
    assert_eq!(vdex_move_count(&move_dex()), 2);
}

#[test]
fn move_details_values() {
    let dex = move_dex();
    let d = vdex_move_details(&dex, 0).unwrap();
    assert_eq!(d.generation, 1);
    assert_eq!(d.power, 40);
    assert_eq!(d.pp, 35);
    assert_eq!(d.accuracy, 95);
    assert_eq!(d.effect_chance, 0);
    assert_eq!(d.ailment_volatile, 1);
    assert_eq!(d.recoil, -25);
    assert_eq!(d.stat_changes[VDEX_STAT_CHANGE_SPEED], -1);
    assert_eq!(
        d.flags,
        VDEX_MOVE_FLAG_CONTACT | VDEX_MOVE_FLAG_PROTECT | VDEX_MOVE_FLAG_MIRROR
    );
    assert_eq!(d.flags, 0x0049);
}

#[test]
fn move_details_sentinels() {
    let dex = move_dex();
    // Absent hit and turn ranges collapse to 1..1.
    let d = vdex_move_details(&dex, 0).unwrap();
    assert_eq!((d.min_hits, d.max_hits), (1, 1));
    assert_eq!((d.min_turns, d.max_turns), (1, 1));
    // An absent accuracy marshals to the never-misses sentinel.
    let s = vdex_move_details(&dex, 1).unwrap();
    assert_eq!(s.accuracy, VDEX_NEVER_MISSES);
    assert_eq!((s.min_hits, s.max_hits), (2, 5));
    assert_eq!((s.min_turns, s.max_turns), (1, 3));
}

#[test]
fn move_unknown_id() {
    let dex = move_dex();
    assert_eq!(vdex_move_details(&dex, 2).err(), Some(VdexError::UnknownMove));
    assert_eq!(vdex_move_name(&dex, 2).err(), Some(VdexError::UnknownMove));
}

#[test]
fn move_name_bytes() {
    let dex = move_dex();
    assert_eq!(vdex_move_name(&dex, 1).unwrap().as_bytes(), &b"Swift\0".to_vec());
}
