use vdex_bridge::dataset::{
    Dataset, FormRecord, ItemRecord, MovesetRecord, PalaceTable, PokemonRecord, SpeciesRecord,
};

fn item(id: u16, name: &[u8]) -> ItemRecord {
    ItemRecord {
        id,
        name: name.to_vec(),
        category: 0,
        unused: false,
        pocket: 0,
        cost: 0,
        fling_power: None,
        fling_effect: 0,
        countable: false,
        consumable: false,
        usable_overworld: false,
        usable_in_battle: false,
        holdable: false,
        holdable_passive: false,
        holdable_active: false,
        underground: false,
        berry: None,
    }
}

fn pokemon() -> PokemonRecord {
    PokemonRecord {
        ability1: 0,
        ability2: None,
        hidden_ability: None,
        stats: [1, 1, 1, 1, 1, 1],
        type1: 0,
        type2: None,
        forms: vec![FormRecord { id: 0, battle_only: false, name: None }],
        movesets: vec![
            MovesetRecord { version_group: 0, entries: vec![] },
            MovesetRecord { version_group: 1, entries: vec![] },
        ],
    }
}

fn good_dex() -> Dataset {
    Dataset {
        efficacy: vec![vec![4, 2], vec![8, 4]],
        items: vec![item(1, b"Potion"), item(2, b"Antidote")],
        moves: vec![],
        species: vec![SpeciesRecord {
            name: b"Bulbasaur".to_vec(),
            generation: 0,
            egg_group1: 0,
            egg_group2: None,
            evolves_from: None,
            pokemon: vec![pokemon()],
        }],
        palace: PalaceTable {
            low_attack: vec![1, 2],
            low_defense: vec![3, 4],
            high_attack: vec![5, 6],
            high_defense: vec![7, 8],
        },
        version_group_count: 2,
    }
}

#[test]
fn dataset_check_accepts_well_formed() {
    assert!(good_dex().check());
}

#[test]
fn dataset_check_rejects_ragged_efficacy() {
    let mut dex = good_dex();
    dex.efficacy[1] = vec![8];
    assert!(!dex.check());
}

#[test]
fn dataset_check_rejects_sentinel_cell() {
    let mut dex = good_dex();
    dex.efficacy[0][1] = 126;
    assert!(!dex.check());
    dex.efficacy[0][1] = -1;
    assert!(!dex.check());
}

#[test]
fn dataset_check_rejects_duplicate_item_ids() {
    let mut dex = good_dex();
    dex.items[1].id = 1;
    assert!(!dex.check());
}

#[test]
fn dataset_check_rejects_reserved_item_id() {
    let mut dex = good_dex();
    dex.items[0].id = u16::MAX;
    assert!(!dex.check());
}

#[test]
fn dataset_check_rejects_interior_nul_name() {
    let mut dex = good_dex();
    dex.items[0].name = b"Po\0tion".to_vec();
    assert!(!dex.check());
}

#[test]
fn dataset_check_rejects_duplicate_version_groups() {
    let mut dex = good_dex();
    dex.species[0].pokemon[0].movesets[1].version_group = 0;
    assert!(!dex.check());
}

#[test]
fn dataset_check_rejects_out_of_range_version_group() {
    let mut dex = good_dex();
    dex.species[0].pokemon[0].movesets[1].version_group = 2;
    assert!(!dex.check());
}

#[test]
fn dataset_check_rejects_uneven_palace() {
    let mut dex = good_dex();
    dex.palace.high_defense = vec![7];
    assert!(!dex.check());
}
