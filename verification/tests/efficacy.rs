use vdex_bridge::dataset::{Dataset, PalaceTable};
use vdex_bridge::efficacy::{
    efficacy, vdex_efficacy, VDEX_INVALID_DAMAGE_TYPE, VDEX_INVALID_TARGET_TYPE,
};

fn empty_palace() -> PalaceTable {
    PalaceTable { low_attack: vec![], low_defense: vec![], high_attack: vec![], high_defense: vec![] }
}

// Three declared types: Normal = 0, Fire = 1, Water = 2. The host encodes
// "regular" as 4, "not very effective" as 2 and "super effective" as 8.
fn three_type_dex() -> Dataset {
    Dataset {
        efficacy: vec![vec![4, 4, 4], vec![4, 2, 2], vec![4, 8, 4]],
        items: vec![],
        moves: vec![],
        species: vec![],
        palace: empty_palace(),
        version_group_count: 0,
    }
}

#[test]
fn efficacy_scenario() {
    let dex = three_type_dex();
    // Fire -> Water is not very effective, Water -> Fire is super effective.
    assert_eq!(vdex_efficacy(&dex, 1, 2), 2);
    assert_eq!(vdex_efficacy(&dex, 2, 1), 8);
    // Damage index 3 is out of range for a 3-variant enumeration.
    assert_eq!(vdex_efficacy(&dex, 3, 0), VDEX_INVALID_DAMAGE_TYPE);
}

#[test]
fn efficacy_validation_order() {
    let dex = three_type_dex();
    // Both invalid: the damage sentinel wins, never the target sentinel.
    assert_eq!(vdex_efficacy(&dex, 9, 9), VDEX_INVALID_DAMAGE_TYPE);
    // Valid damage beside an invalid target: the target sentinel.
    assert_eq!(vdex_efficacy(&dex, 0, 9), VDEX_INVALID_TARGET_TYPE);
}

#[test]
fn efficacy_self_match() {
    let dex = three_type_dex();
    let diagonal = [4i8, 2, 4];
    for t in 0..3u8 {
        assert_eq!(vdex_efficacy(&dex, t, t), diagonal[t as usize]);
    }
}

#[test]
fn efficacy_error_channel() {
    let dex = three_type_dex();
    assert_eq!(efficacy(&dex, 1, 2), Ok(2));
    assert_eq!(efficacy(&dex, 3, 0), Err(VDEX_INVALID_DAMAGE_TYPE));
    assert_eq!(efficacy(&dex, 0, 3), Err(VDEX_INVALID_TARGET_TYPE));
}
