use vdex_bridge::dataset::{Dataset, PalaceTable};
use vdex_bridge::palace::{
    vdex_palace_count, vdex_palace_high_attack, vdex_palace_high_defense, vdex_palace_low_attack,
    vdex_palace_low_defense,
};
use vdex_bridge::VdexError;

fn palace_dex() -> Dataset {
    Dataset {
        efficacy: vec![],
        items: vec![],
        moves: vec![],
        species: vec![],
        palace: PalaceTable {
            low_attack: vec![61, 40, 25],
            low_defense: vec![7, 10, 30],
            high_attack: vec![30, 50, 70],
            high_defense: vec![20, 15, 5],
        },
        version_group_count: 0,
    }
}

#[test]
fn palace_count() {
    assert_eq!(vdex_palace_count(&palace_dex()), 3);
}

#[test]
fn palace_lookups() {
    let dex = palace_dex();
    assert_eq!(vdex_palace_low_attack(&dex, 0), Ok(61));
    assert_eq!(vdex_palace_low_defense(&dex, 1), Ok(10));
    assert_eq!(vdex_palace_high_attack(&dex, 2), Ok(70));
    assert_eq!(vdex_palace_high_defense(&dex, 2), Ok(5));
}

#[test]
fn palace_rejects_bad_nature() {
    let dex = palace_dex();
    assert_eq!(vdex_palace_low_attack(&dex, 3).err(), Some(VdexError::BadRepr));
    assert_eq!(vdex_palace_high_defense(&dex, 200).err(), Some(VdexError::BadRepr));
}
