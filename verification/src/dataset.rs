//! The immutable dataset root and its domain records.
//!
//! The dataset is constructed once by the host, as plain values, and never
//! mutated afterwards; every query of the boundary takes a shared reference
//! to it. Optional domain fields stay explicit `Option`s here; the
//! marshalling modules flatten them into sentinel values and presence flags
//! at the boundary. Enumeration-valued fields are carried as their encoded
//! reprs.

use vstd::prelude::*;

use crate::cursor::VDEX_ITEM_ITER_END;
use crate::efficacy::VDEX_INVALID_TARGET_TYPE;
use crate::names::{check_terminatable, terminatable};

verus! {

/// The berry sub-record of an item.
#[derive(Clone, Copy)]
pub struct BerryRecord {
    pub natural_gift_power: u8,
    pub natural_gift_type: u8,
    /// Dominant flavor, if the berry has one.
    pub flavor: Option<u8>,
}

/// One item of the dataset, keyed by its id.
pub struct ItemRecord {
    pub id: u16,
    pub name: Vec<u8>,
    pub category: u8,
    /// Whether the category marks the item as unused.
    pub unused: bool,
    /// The pocket associated with the category.
    pub pocket: u8,
    pub cost: u16,
    pub fling_power: Option<u8>,
    pub fling_effect: u8,
    pub countable: bool,
    pub consumable: bool,
    pub usable_overworld: bool,
    pub usable_in_battle: bool,
    pub holdable: bool,
    pub holdable_passive: bool,
    pub holdable_active: bool,
    pub underground: bool,
    pub berry: Option<BerryRecord>,
}

impl ItemRecord {
    pub open spec fn wf(self) -> bool {
        &&& self.id != VDEX_ITEM_ITER_END
        &&& terminatable(self.name@)
    }

    /// Decides well-formedness.
    pub fn check(&self) -> (r: bool)
        ensures
            r == self.wf(),
    {
        self.id != VDEX_ITEM_ITER_END && check_terminatable(&self.name)
    }
}

/// The meta sub-record of a move.
#[derive(Clone, Copy)]
pub struct MoveMetaRecord {
    pub category: u8,
    pub ailment: u8,
    /// Whether the ailment is volatile.
    pub ailment_volatile: bool,
    /// Hit-count range `(min, max)`, if the move hits a variable number of
    /// times.
    pub hits: Option<(u8, u8)>,
    /// Turn-count range `(min, max)`, if the effect spans several turns.
    pub turns: Option<(u8, u8)>,
    pub recoil: i8,
    pub healing: i8,
    pub critical_rate: i8,
    pub ailment_chance: u8,
    pub flinch_chance: u8,
    pub stat_chance: u8,
    /// Signed delta per changeable stat, in the published stat order.
    pub stat_changes: [i8; 7],
    pub contact: bool,
    pub charge: bool,
    pub recharge: bool,
    pub protect: bool,
    pub reflectable: bool,
    pub snatch: bool,
    pub mirror: bool,
    pub punch: bool,
    pub sound: bool,
    pub gravity: bool,
    pub defrost: bool,
    pub distance: bool,
    pub heal: bool,
    pub authentic: bool,
}

/// One move of the dataset; a move's id is its index in the move table.
pub struct MoveRecord {
    pub name: Vec<u8>,
    pub generation: u8,
    pub typ: u8,
    pub power: u8,
    pub pp: u8,
    /// Accuracy percentage; absent when the move never misses.
    pub accuracy: Option<u8>,
    pub priority: i8,
    pub target: u8,
    pub damage_class: u8,
    pub effect: u16,
    pub effect_chance: Option<u8>,
    pub meta: MoveMetaRecord,
}

impl MoveRecord {
    pub open spec fn wf(self) -> bool {
        terminatable(self.name@)
    }

    /// Decides well-formedness.
    pub fn check(&self) -> (r: bool)
        ensures
            r == self.wf(),
    {
        check_terminatable(&self.name)
    }
}

/// One form of a pokemon variant.
pub struct FormRecord {
    /// Veekun-style numeric form id.
    pub id: u16,
    pub battle_only: bool,
    /// Display name, if the form has one of its own.
    pub name: Option<Vec<u8>>,
}

impl FormRecord {
    pub open spec fn wf(self) -> bool {
        self.name matches Some(n) ==> terminatable(n@)
    }

    /// Decides well-formedness.
    pub fn check(&self) -> (r: bool)
        ensures
            r == self.wf(),
    {
        match &self.name {
            Some(n) => check_terminatable(n),
            None => true,
        }
    }
}

/// One marshalled moveset entry: a move id, how it is learned, and at what
/// level.
#[derive(Clone, Copy, Debug, PartialEq, Eq, Structural)]
pub struct VDexMovesetEntry {
    pub mov: u16,
    pub learn_method: u8,
    pub level: u8,
}

/// The ordered moveset a pokemon has in one version group.
pub struct MovesetRecord {
    pub version_group: u8,
    pub entries: Vec<VDexMovesetEntry>,
}

/// One pokemon variant, owned by its species.
pub struct PokemonRecord {
    pub ability1: u8,
    pub ability2: Option<u8>,
    pub hidden_ability: Option<u8>,
    /// The six permanent stat values, in the published stat order.
    pub stats: [u8; 6],
    pub type1: u8,
    pub type2: Option<u8>,
    pub forms: Vec<FormRecord>,
    /// Movesets by version group; version groups are unique.
    pub movesets: Vec<MovesetRecord>,
}

impl PokemonRecord {
    pub open spec fn wf(self, version_group_count: u8) -> bool {
        &&& forall|i: int, j: int|
            #![auto]
            0 <= i < j < self.movesets@.len() ==> self.movesets@[i].version_group
                != self.movesets@[j].version_group
        &&& forall|i: int|
            #![auto]
            0 <= i < self.movesets@.len() ==> self.movesets@[i].version_group
                < version_group_count
        &&& forall|i: int| #![auto] 0 <= i < self.forms@.len() ==> self.forms@[i].wf()
    }

    /// Whether this pokemon has a moveset for the version group.
    pub open spec fn has_moveset(self, version_group: u8) -> bool {
        exists|i: int|
            0 <= i < self.movesets@.len() && self.movesets@[i].version_group == version_group
    }

    /// The ordered moveset entries for the version group; empty when the
    /// pokemon has no moveset there.
    pub open spec fn moveset_entries(self, version_group: u8) -> Seq<VDexMovesetEntry> {
        if self.has_moveset(version_group) {
            let i = choose|i: int|
                0 <= i < self.movesets@.len() && self.movesets@[i].version_group == version_group;
            self.movesets@[i].entries@
        } else {
            Seq::empty()
        }
    }

    /// Decides well-formedness against the declared version-group count.
    #[verifier::loop_isolation(false)]
    pub fn check(&self, version_group_count: u8) -> (r: bool)
        ensures
            r == self.wf(version_group_count),
    {
        let n = self.movesets.len();
        let mut i: usize = 0;
        while i < n
            invariant
                i <= n,
                forall|a: int, b: int|
                    #![auto]
                    0 <= a < b < n && a < i ==> self.movesets@[a].version_group
                        != self.movesets@[b].version_group,
                forall|a: int|
                    #![auto]
                    0 <= a < i ==> self.movesets@[a].version_group < version_group_count,
            decreases n - i,
        {
            if self.movesets[i].version_group >= version_group_count {
                assert(self.movesets@[i as int].version_group >= version_group_count);
                return false;
            }
            let mut j: usize = i + 1;
            while j < n
                invariant
                    i < j <= n,
                    forall|b: int|
                        #![auto]
                        i < b < j ==> self.movesets@[i as int].version_group
                            != self.movesets@[b].version_group,
                decreases n - j,
            {
                if self.movesets[i].version_group == self.movesets[j].version_group {
                    assert(self.movesets@[i as int].version_group == self.movesets@[
                        j as int
                    ].version_group);
                    return false;
                }
                j = j + 1;
            }
            i = i + 1;
        }
        let m = self.forms.len();
        let mut k: usize = 0;
        while k < m
            invariant
                k <= m,
                forall|a: int| #![auto] 0 <= a < k ==> self.forms@[a].wf(),
            decreases m - k,
        {
            if !self.forms[k].check() {
                assert(!self.forms@[k as int].wf());
                return false;
            }
            k = k + 1;
        }
        true
    }
}

/// The source record of an evolution, when a species evolved from another.
#[derive(Clone, Copy)]
pub struct EvolvesFromRecord {
    pub from: u16,
    pub trigger: u8,
    pub level: u8,
    pub gender: u8,
    pub mov: u16,
    /// Relative-physical-stats dependence, if the trigger depends on it.
    pub relative_physical_stats: Option<i8>,
}

/// One species; a species' id is its index in the species table.
pub struct SpeciesRecord {
    pub name: Vec<u8>,
    pub generation: u8,
    pub egg_group1: u8,
    /// Second egg group, if the species has two.
    pub egg_group2: Option<u8>,
    /// Evolution source, if the species evolved from another.
    pub evolves_from: Option<EvolvesFromRecord>,
    /// The ordered pokemon variants this species exclusively owns.
    pub pokemon: Vec<PokemonRecord>,
}

impl SpeciesRecord {
    pub open spec fn wf(self, version_group_count: u8) -> bool {
        &&& terminatable(self.name@)
        &&& forall|i: int|
            #![auto]
            0 <= i < self.pokemon@.len() ==> self.pokemon@[i].wf(version_group_count)
    }

    /// Decides well-formedness against the declared version-group count.
    #[verifier::loop_isolation(false)]
    pub fn check(&self, version_group_count: u8) -> (r: bool)
        ensures
            r == self.wf(version_group_count),
    {
        if !check_terminatable(&self.name) {
            return false;
        }
        let n = self.pokemon.len();
        let mut i: usize = 0;
        while i < n
            invariant
                i <= n,
                forall|a: int| #![auto] 0 <= a < i ==> self.pokemon@[a].wf(version_group_count),
            decreases n - i,
        {
            if !self.pokemon[i].check(version_group_count) {
                assert(!self.pokemon@[i as int].wf(version_group_count));
                return false;
            }
            i = i + 1;
        }
        true
    }
}

/// The minigame ("palace") table: four fixed-length numeric arrays indexed
/// by nature id.
pub struct PalaceTable {
    pub low_attack: Vec<u8>,
    pub low_defense: Vec<u8>,
    pub high_attack: Vec<u8>,
    pub high_defense: Vec<u8>,
}

impl PalaceTable {
    /// The number of natures each array is indexed by.
    pub open spec fn nature_count(self) -> nat {
        self.low_attack@.len()
    }

    pub open spec fn wf(self) -> bool {
        &&& self.low_defense@.len() == self.nature_count()
        &&& self.high_attack@.len() == self.nature_count()
        &&& self.high_defense@.len() == self.nature_count()
    }

    /// Decides well-formedness.
    pub fn check(&self) -> (r: bool)
        ensures
            r == self.wf(),
    {
        let n = self.low_attack.len();
        self.low_defense.len() == n && self.high_attack.len() == n && self.high_defense.len() == n
    }
}

/// The immutable dataset root. Loaded once by the host, never mutated;
/// every handle and cursor derived from it is valid as long as the dataset
/// is.
pub struct Dataset {
    /// Effectiveness table indexed by `(damage type, target type)`; square,
    /// with one row per declared type.
    pub efficacy: Vec<Vec<i8>>,
    /// Items, with unique ids and no order guarantee.
    pub items: Vec<ItemRecord>,
    /// Moves, indexed by move id.
    pub moves: Vec<MoveRecord>,
    /// Species, indexed by species id.
    pub species: Vec<SpeciesRecord>,
    /// The minigame table.
    pub palace: PalaceTable,
    /// Element count of the version-group enumeration.
    pub version_group_count: u8,
}

impl Dataset {
    /// Element count of the type enumeration the effectiveness table is
    /// indexed by.
    pub open spec fn type_count(self) -> int {
        self.efficacy@.len() as int
    }

    pub open spec fn wf(self) -> bool {
        &&& forall|i: int|
            #![auto]
            0 <= i < self.efficacy@.len() ==> self.efficacy@[i]@.len() == self.efficacy@.len()
        &&& forall|i: int, j: int|
            0 <= i < self.efficacy@.len() && 0 <= j < self.efficacy@.len() ==> 0 <= #[trigger] (
            self.efficacy@[i]@[j]) < VDEX_INVALID_TARGET_TYPE
        &&& forall|i: int, j: int|
            #![auto]
            0 <= i < j < self.items@.len() ==> self.items@[i].id != self.items@[j].id
        &&& forall|i: int| #![auto] 0 <= i < self.items@.len() ==> self.items@[i].wf()
        &&& forall|i: int| #![auto] 0 <= i < self.moves@.len() ==> self.moves@[i].wf()
        &&& forall|i: int|
            #![auto]
            0 <= i < self.species@.len() ==> self.species@[i].wf(self.version_group_count)
        &&& self.palace.wf()
    }

    /// The item ids, in the order the item table holds them.
    pub open spec fn item_ids(self) -> Seq<u16> {
        self.items@.map_values(|r: ItemRecord| r.id)
    }

    /// Whether some item of the dataset carries this id.
    pub open spec fn has_item(self, id: u16) -> bool {
        exists|i: int| 0 <= i < self.items@.len() && self.items@[i].id == id
    }

    /// The item carrying this id.
    pub open spec fn item_at(self, id: u16) -> ItemRecord {
        self.items@[choose|i: int| 0 <= i < self.items@.len() && self.items@[i].id == id]
    }

    /// Whether this move id indexes the move table.
    pub open spec fn has_move(self, id: u16) -> bool {
        (id as int) < self.moves@.len()
    }

    /// The move at this id.
    pub open spec fn move_at(self, id: u16) -> MoveRecord {
        self.moves@[id as int]
    }

    /// Whether this species id indexes the species table.
    pub open spec fn has_species(self, id: u16) -> bool {
        (id as int) < self.species@.len()
    }

    /// The species at this id.
    pub open spec fn species_at(self, id: u16) -> SpeciesRecord {
        self.species@[id as int]
    }

    /// Decides well-formedness of the whole dataset, so an unverified host
    /// can validate what it loaded before handing it to the boundary.
    #[verifier::loop_isolation(false)]
    pub fn check(&self) -> (r: bool)
        ensures
            r == self.wf(),
    {
        let n = self.efficacy.len();
        let mut i: usize = 0;
        while i < n
            invariant
                i <= n,
                forall|a: int| #![auto] 0 <= a < i ==> self.efficacy@[a]@.len() == n,
                forall|a: int, b: int|
                    0 <= a < i && 0 <= b < n ==> 0 <= #[trigger] (self.efficacy@[a]@[b])
                        < VDEX_INVALID_TARGET_TYPE,
            decreases n - i,
        {
            let row = &self.efficacy[i];
            if row.len() != n {
                assert(self.efficacy@[i as int]@.len() != n);
                return false;
            }
            let mut j: usize = 0;
            while j < n
                invariant
                    j <= n,
                    forall|b: int|
                        0 <= b < j ==> 0 <= #[trigger] (self.efficacy@[i as int]@[b])
                            < VDEX_INVALID_TARGET_TYPE,
                decreases n - j,
            {
                let v = row[j];
                if v < 0 || v >= VDEX_INVALID_TARGET_TYPE {
                    assert(!(0 <= self.efficacy@[i as int]@[j as int]
                        < VDEX_INVALID_TARGET_TYPE));
                    return false;
                }
                j = j + 1;
            }
            i = i + 1;
        }
        let m = self.items.len();
        let mut k: usize = 0;
        while k < m
            invariant
                k <= m,
                forall|a: int, b: int|
                    #![auto]
                    0 <= a < b < m && a < k ==> self.items@[a].id != self.items@[b].id,
                forall|a: int| #![auto] 0 <= a < k ==> self.items@[a].wf(),
            decreases m - k,
        {
            if !self.items[k].check() {
                assert(!self.items@[k as int].wf());
                return false;
            }
            let mut l: usize = k + 1;
            while l < m
                invariant
                    k < l <= m,
                    forall|b: int| #![auto] k < b < l ==> self.items@[k as int].id != self.items@[b].id,
                decreases m - l,
            {
                if self.items[k].id == self.items[l].id {
                    assert(self.items@[k as int].id == self.items@[l as int].id);
                    return false;
                }
                l = l + 1;
            }
            k = k + 1;
        }
        let mc = self.moves.len();
        let mut q: usize = 0;
        while q < mc
            invariant
                q <= mc,
                forall|a: int| #![auto] 0 <= a < q ==> self.moves@[a].wf(),
            decreases mc - q,
        {
            if !self.moves[q].check() {
                assert(!self.moves@[q as int].wf());
                return false;
            }
            q = q + 1;
        }
        let sc = self.species.len();
        let mut s: usize = 0;
        while s < sc
            invariant
                s <= sc,
                forall|a: int| #![auto] 0 <= a < s ==> self.species@[a].wf(self.version_group_count),
            decreases sc - s,
        {
            if !self.species[s].check(self.version_group_count) {
                assert(!self.species@[s as int].wf(self.version_group_count));
                return false;
            }
            s = s + 1;
        }
        self.palace.check()
    }
}

} // verus!
