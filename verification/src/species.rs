//! Species, pokemon, form and moveset queries.
//!
//! A species' id is its index in the species table; its pokemon variants
//! are reached through a borrowing handle that names the owning species
//! and the variant's index, and is validated on every use. Pair-shaped
//! fields (egg groups, abilities, types) flatten to two scalars and a
//! presence flag for the second; an absent evolution source marshals to a
//! default-valued record behind a presence flag.

use vstd::prelude::*;

use crate::dataset::{Dataset, EvolvesFromRecord, PokemonRecord, SpeciesRecord, VDexMovesetEntry};
use crate::names::{allocate_name, NameBuffer};
use crate::VdexError;

verus! {

/// Marshalled in place of a relative-physical-stats dependence the
/// evolution does not have.
pub const VDEX_NO_STAT_DEPENDENCE: i8 = 127;

/// How many permanent stat values a pokemon carries.
pub const VDEX_PERMANENT_STATS: usize = 6;

pub const VDEX_STAT_PERMANENT_HP: usize = 0;

pub const VDEX_STAT_PERMANENT_ATTACK: usize = 1;

pub const VDEX_STAT_PERMANENT_DEFENSE: usize = 2;

pub const VDEX_STAT_PERMANENT_SPECIAL_ATTACK: usize = 3;

pub const VDEX_STAT_PERMANENT_SPECIAL_DEFENSE: usize = 4;

pub const VDEX_STAT_PERMANENT_SPEED: usize = 5;

/// The fixed-layout record of a species' evolution source.
#[derive(Clone, Copy, Debug, PartialEq, Eq, Structural)]
pub struct VDexEvolvesFrom {
    pub from: u16,
    pub trigger: u8,
    pub level: u8,
    pub gender: u8,
    pub mov: u16,
    pub relative_physical_stats: i8,
}

/// The default-valued evolution record marshalled when a species did not
/// evolve from another.
pub open spec fn spec_default_evolves_from() -> VDexEvolvesFrom {
    VDexEvolvesFrom { from: 0, trigger: 0, level: 0, gender: 0, mov: 0, relative_physical_stats: 0 }
}

impl Default for VDexEvolvesFrom {
    fn default() -> (r: Self)
        ensures
            r == spec_default_evolves_from(),
    {
        VDexEvolvesFrom {
            from: 0,
            trigger: 0,
            level: 0,
            gender: 0,
            mov: 0,
            relative_physical_stats: 0,
        }
    }
}

/// The fixed-layout value record a species marshals into.
#[derive(Clone, Copy, Debug, PartialEq, Eq, Structural)]
pub struct VDexSpeciesDetails {
    pub generation: u8,
    pub egg_group1: u8,
    pub has_egg_group2: u8,
    pub egg_group2: u8,
    pub evolved: u8,
    pub evolves_from: VDexEvolvesFrom,
}

/// How an evolution source marshals: an absent stat dependence becomes the
/// published sentinel.
pub open spec fn spec_evolves_from(e: EvolvesFromRecord) -> VDexEvolvesFrom {
    VDexEvolvesFrom {
        from: e.from,
        trigger: e.trigger,
        level: e.level,
        gender: e.gender,
        mov: e.mov,
        relative_physical_stats: match e.relative_physical_stats {
            Some(s) => s,
            None => VDEX_NO_STAT_DEPENDENCE,
        },
    }
}

/// How a species marshals: the egg-group pair flattens to two scalars and
/// a presence flag, an absent evolution source to a presence flag and the
/// default-valued record.
pub open spec fn spec_species_details(s: SpeciesRecord) -> VDexSpeciesDetails {
    VDexSpeciesDetails {
        generation: s.generation,
        egg_group1: s.egg_group1,
        has_egg_group2: if s.egg_group2 is Some {
            1u8
        } else {
            0u8
        },
        egg_group2: match s.egg_group2 {
            Some(g) => g,
            None => 0u8,
        },
        evolved: if s.evolves_from is Some {
            1u8
        } else {
            0u8
        },
        evolves_from: match s.evolves_from {
            Some(e) => spec_evolves_from(e),
            None => spec_default_evolves_from(),
        },
    }
}

/// How many species the dataset's species table holds.
pub fn vdex_species_count(dex: &Dataset) -> (n: usize)
    ensures
        n == dex.species@.len(),
{
    dex.species.len()
}

/// Marshals the species at `id` into its fixed-layout value record.
pub fn vdex_species_details(dex: &Dataset, id: u16) -> (r: Result<VDexSpeciesDetails, VdexError>)
    requires
        dex.wf(),
    ensures
        r is Ok <==> dex.has_species(id),
        r matches Ok(d) ==> d == spec_species_details(dex.species_at(id)),
        r matches Err(e) ==> e == VdexError::UnknownSpecies,
{
    if (id as usize) >= dex.species.len() {
        return Err(VdexError::UnknownSpecies);
    }
    let s = &dex.species[id as usize];
    Ok(
        VDexSpeciesDetails {
            generation: s.generation,
            egg_group1: s.egg_group1,
            has_egg_group2: if s.egg_group2.is_some() {
                1
            } else {
                0
            },
            egg_group2: match s.egg_group2 {
                Some(g) => g,
                None => 0,
            },
            evolved: if s.evolves_from.is_some() {
                1
            } else {
                0
            },
            evolves_from: match s.evolves_from {
                Some(e) => VDexEvolvesFrom {
                    from: e.from,
                    trigger: e.trigger,
                    level: e.level,
                    gender: e.gender,
                    mov: e.mov,
                    relative_physical_stats: match e.relative_physical_stats {
                        Some(v) => v,
                        None => VDEX_NO_STAT_DEPENDENCE,
                    },
                },
                None => Default::default(),
            },
        },
    )
}

/// Copies the name of the species at `id` into a caller-owned buffer.
pub fn vdex_species_name(dex: &Dataset, id: u16) -> (r: Result<NameBuffer, VdexError>)
    requires
        dex.wf(),
    ensures
        r is Ok <==> dex.has_species(id),
        r matches Ok(b) ==> b@ == dex.species_at(id).name@.push(0),
        r matches Err(e) ==> e == VdexError::UnknownSpecies,
{
    if (id as usize) >= dex.species.len() {
        return Err(VdexError::UnknownSpecies);
    }
    Ok(allocate_name(&dex.species[id as usize].name))
}

/// How many pokemon variants the species at `id` owns.
pub fn vdex_pokemon_count(dex: &Dataset, species: u16) -> (r: Result<usize, VdexError>)
    requires
        dex.wf(),
    ensures
        r is Ok <==> dex.has_species(species),
        r matches Ok(n) ==> n == dex.species_at(species).pokemon@.len(),
        r matches Err(e) ==> e == VdexError::UnknownSpecies,
{
    if (species as usize) >= dex.species.len() {
        return Err(VdexError::UnknownSpecies);
    }
    Ok(dex.species[species as usize].pokemon.len())
}

/// A borrowing handle standing for one pokemon variant inside its owning
/// species. It takes no ownership and needs no free: its validity is tied
/// to the dataset it was derived from, and every use validates it anew.
#[derive(Clone, Copy, Debug, PartialEq, Eq, Structural)]
pub struct VDexPokemon {
    pub species: u16,
    pub index: usize,
}

/// Whether the handle names a pokemon the dataset holds.
pub open spec fn pokemon_handle_ok(dex: Dataset, h: VDexPokemon) -> bool {
    dex.has_species(h.species) && (h.index as int) < dex.species_at(h.species).pokemon@.len()
}

/// The pokemon a valid handle stands for.
pub open spec fn pokemon_of(dex: Dataset, h: VDexPokemon) -> PokemonRecord {
    dex.species_at(h.species).pokemon@[h.index as int]
}

/// The error a pokemon-handle query reports: a bad species id is reported
/// before a bad variant index.
pub open spec fn handle_error(dex: Dataset, h: VDexPokemon) -> VdexError {
    if !dex.has_species(h.species) {
        VdexError::UnknownSpecies
    } else {
        VdexError::BadPokemonIndex
    }
}

/// Derives a handle to the `pokemon_index`-th variant of the species at
/// `species`.
pub fn vdex_pokemon(dex: &Dataset, species: u16, pokemon_index: usize) -> (r: Result<
    VDexPokemon,
    VdexError,
>)
    requires
        dex.wf(),
    ensures
        r is Ok <==> pokemon_handle_ok(*dex, VDexPokemon { species, index: pokemon_index }),
        r matches Ok(h) ==> h == (VDexPokemon { species, index: pokemon_index }),
        r matches Err(e) ==> e == handle_error(*dex, VDexPokemon { species, index: pokemon_index }),
{
    if (species as usize) >= dex.species.len() {
        return Err(VdexError::UnknownSpecies);
    }
    if pokemon_index >= dex.species[species as usize].pokemon.len() {
        return Err(VdexError::BadPokemonIndex);
    }
    Ok(VDexPokemon { species, index: pokemon_index })
}

/// The fixed-layout value record a pokemon marshals into.
#[derive(Clone, Copy, Debug, PartialEq, Eq)]
pub struct VDexPokemonDetails {
    pub ability1: u8,
    pub has_ability2: u8,
    pub ability2: u8,
    pub has_hidden_ability: u8,
    pub hidden_ability: u8,
    pub stats: [u8; 6],
    pub type1: u8,
    pub has_type2: u8,
    pub type2: u8,
}

/// How a pokemon marshals: the ability and type pairs flatten to scalars
/// with presence flags, the absent second member defaulting to the zeroth
/// encoded value.
pub open spec fn spec_pokemon_details(p: PokemonRecord) -> VDexPokemonDetails {
    VDexPokemonDetails {
        ability1: p.ability1,
        has_ability2: if p.ability2 is Some {
            1u8
        } else {
            0u8
        },
        ability2: match p.ability2 {
            Some(a) => a,
            None => 0u8,
        },
        has_hidden_ability: if p.hidden_ability is Some {
            1u8
        } else {
            0u8
        },
        hidden_ability: match p.hidden_ability {
            Some(a) => a,
            None => 0u8,
        },
        stats: p.stats,
        type1: p.type1,
        has_type2: if p.type2 is Some {
            1u8
        } else {
            0u8
        },
        type2: match p.type2 {
            Some(t) => t,
            None => 0u8,
        },
    }
}

/// Marshals the pokemon a handle stands for into its fixed-layout value
/// record.
pub fn vdex_pokemon_details(dex: &Dataset, pokemon: VDexPokemon) -> (r: Result<
    VDexPokemonDetails,
    VdexError,
>)
    requires
        dex.wf(),
    ensures
        r is Ok <==> pokemon_handle_ok(*dex, pokemon),
        r matches Ok(d) ==> d == spec_pokemon_details(pokemon_of(*dex, pokemon)),
        r matches Err(e) ==> e == handle_error(*dex, pokemon),
{
    if (pokemon.species as usize) >= dex.species.len() {
        return Err(VdexError::UnknownSpecies);
    }
    if pokemon.index >= dex.species[pokemon.species as usize].pokemon.len() {
        return Err(VdexError::BadPokemonIndex);
    }
    let p = &dex.species[pokemon.species as usize].pokemon[pokemon.index];
    Ok(
        VDexPokemonDetails {
            ability1: p.ability1,
            has_ability2: if p.ability2.is_some() {
                1
            } else {
                0
            },
            ability2: match p.ability2 {
                Some(a) => a,
                None => 0,
            },
            has_hidden_ability: if p.hidden_ability.is_some() {
                1
            } else {
                0
            },
            hidden_ability: match p.hidden_ability {
                Some(a) => a,
                None => 0,
            },
            stats: p.stats,
            type1: p.type1,
            has_type2: if p.type2.is_some() {
                1
            } else {
                0
            },
            type2: match p.type2 {
                Some(t) => t,
                None => 0,
            },
        },
    )
}

/// Resolves a pokemon handle to the record it stands for, validating the
/// species id first and the variant index second.
fn resolve_pokemon<'a>(dex: &'a Dataset, h: VDexPokemon) -> (r: Result<&'a PokemonRecord, VdexError>)
    requires
        dex.wf(),
    ensures
        r is Ok <==> pokemon_handle_ok(*dex, h),
        r matches Ok(p) ==> *p == pokemon_of(*dex, h) && p.wf(dex.version_group_count),
        r matches Err(e) ==> e == handle_error(*dex, h),
{
    if (h.species as usize) >= dex.species.len() {
        return Err(VdexError::UnknownSpecies);
    }
    let s = &dex.species[h.species as usize];
    if h.index >= s.pokemon.len() {
        return Err(VdexError::BadPokemonIndex);
    }
    proof {
        assert(dex.species@[h.species as int].wf(dex.version_group_count));
        assert(dex.species@[h.species as int].pokemon@[h.index as int].wf(
            dex.version_group_count,
        ));
    }
    Ok(&s.pokemon[h.index])
}

/// The error a form query reports: handle errors first, then the form
/// index.
pub open spec fn form_error(dex: Dataset, h: VDexPokemon) -> VdexError {
    if !pokemon_handle_ok(dex, h) {
        handle_error(dex, h)
    } else {
        VdexError::BadFormIndex
    }
}

/// How many forms the pokemon a handle stands for owns.
pub fn vdex_form_count(dex: &Dataset, pokemon: VDexPokemon) -> (r: Result<usize, VdexError>)
    requires
        dex.wf(),
    ensures
        r is Ok <==> pokemon_handle_ok(*dex, pokemon),
        r matches Ok(n) ==> n == pokemon_of(*dex, pokemon).forms@.len(),
        r matches Err(e) ==> e == handle_error(*dex, pokemon),
{
    match resolve_pokemon(dex, pokemon) {
        Ok(p) => Ok(p.forms.len()),
        Err(e) => Err(e),
    }
}

/// The veekun-style numeric id of the `index`-th form.
pub fn vdex_form_veekun_id(dex: &Dataset, pokemon: VDexPokemon, index: usize) -> (r: Result<
    u16,
    VdexError,
>)
    requires
        dex.wf(),
    ensures
        r is Ok <==> pokemon_handle_ok(*dex, pokemon) && (index as int) < pokemon_of(
            *dex,
            pokemon,
        ).forms@.len(),
        r matches Ok(id) ==> id == pokemon_of(*dex, pokemon).forms@[index as int].id,
        r matches Err(e) ==> e == form_error(*dex, pokemon),
{
    let p = match resolve_pokemon(dex, pokemon) {
        Ok(p) => p,
        Err(e) => {
            return Err(e);
        },
    };
    if index >= p.forms.len() {
        return Err(VdexError::BadFormIndex);
    }
    Ok(p.forms[index].id)
}

/// Whether the `index`-th form appears only in battle, as 1 or 0.
pub fn vdex_form_battle_only(dex: &Dataset, pokemon: VDexPokemon, index: usize) -> (r: Result<
    u8,
    VdexError,
>)
    requires
        dex.wf(),
    ensures
        r is Ok <==> pokemon_handle_ok(*dex, pokemon) && (index as int) < pokemon_of(
            *dex,
            pokemon,
        ).forms@.len(),
        r matches Ok(b) ==> b == (if pokemon_of(*dex, pokemon).forms@[index as int].battle_only {
            1u8
        } else {
            0u8
        }),
        r matches Err(e) ==> e == form_error(*dex, pokemon),
{
    let p = match resolve_pokemon(dex, pokemon) {
        Ok(p) => p,
        Err(e) => {
            return Err(e);
        },
    };
    if index >= p.forms.len() {
        return Err(VdexError::BadFormIndex);
    }
    Ok(
        if p.forms[index].battle_only {
            1
        } else {
            0
        },
    )
}

/// Copies the `index`-th form's display name into a caller-owned buffer,
/// or yields no buffer for a form without one (the boundary's null).
pub fn vdex_form_name(dex: &Dataset, pokemon: VDexPokemon, index: usize) -> (r: Result<
    Option<NameBuffer>,
    VdexError,
>)
    requires
        dex.wf(),
    ensures
        r is Ok <==> pokemon_handle_ok(*dex, pokemon) && (index as int) < pokemon_of(
            *dex,
            pokemon,
        ).forms@.len(),
        r matches Ok(o) ==> match pokemon_of(*dex, pokemon).forms@[index as int].name {
            Some(n) => o matches Some(b) && b@ == n@.push(0),
            None => o is None,
        },
        r matches Err(e) ==> e == form_error(*dex, pokemon),
{
    let p = match resolve_pokemon(dex, pokemon) {
        Ok(p) => p,
        Err(e) => {
            return Err(e);
        },
    };
    if index >= p.forms.len() {
        return Err(VdexError::BadFormIndex);
    }
    proof {
        assert(p.forms@[index as int].wf());
    }
    match &p.forms[index].name {
        Some(n) => Ok(Some(allocate_name(n))),
        None => Ok(None),
    }
}

/// The error a moveset query reports: handle errors first, then the
/// version-group repr, then the entry index.
pub open spec fn moveset_error(dex: Dataset, h: VDexPokemon, version_group: u8) -> VdexError {
    if !pokemon_handle_ok(dex, h) {
        handle_error(dex, h)
    } else if dex.version_group_count <= version_group {
        VdexError::BadRepr
    } else {
        VdexError::BadEntryIndex
    }
}

/// Finds the index of the pokemon's moveset for `version_group`, if it has
/// one.
fn find_moveset(p: &PokemonRecord, version_group: u8) -> (r: Option<usize>)
    requires
        forall|i: int, j: int|
            #![auto]
            0 <= i < j < p.movesets@.len() ==> p.movesets@[i].version_group
                != p.movesets@[j].version_group,
    ensures
        match r {
            Some(i) => p.has_moveset(version_group) && i < p.movesets@.len() && p.movesets@[
                i as int
            ].version_group == version_group && p.movesets@[i as int].entries@
                == p.moveset_entries(version_group),
            None => !p.has_moveset(version_group),
        },
{
    let n = p.movesets.len();
    let mut i: usize = 0;
    while i < n
        invariant
            forall|a: int, b: int|
                #![auto]
                0 <= a < b < p.movesets@.len() ==> p.movesets@[a].version_group
                    != p.movesets@[b].version_group,
            n == p.movesets@.len(),
            i <= n,
            forall|j: int| #![auto] 0 <= j < i ==> p.movesets@[j].version_group != version_group,
        decreases n - i,
    {
        if p.movesets[i].version_group == version_group {
            proof {
                assert(p.has_moveset(version_group));
                let w = choose|w: int|
                    0 <= w < p.movesets@.len() && p.movesets@[w].version_group == version_group;
                assert(w == i);
            }
            return Some(i);
        }
        i = i + 1;
    }
    None
}

/// How many moveset entries the pokemon a handle stands for has in the
/// version group; a pokemon without a moveset there has 0.
pub fn vdex_moveset_entry_count(dex: &Dataset, pokemon: VDexPokemon, version_group: u8) -> (r:
    Result<usize, VdexError>)
    requires
        dex.wf(),
    ensures
        r is Ok <==> pokemon_handle_ok(*dex, pokemon) && version_group < dex.version_group_count,
        r matches Ok(n) ==> n == pokemon_of(*dex, pokemon).moveset_entries(version_group).len(),
        r matches Err(e) ==> e == moveset_error(*dex, pokemon, version_group),
{
    let p = match resolve_pokemon(dex, pokemon) {
        Ok(p) => p,
        Err(e) => {
            return Err(e);
        },
    };
    if version_group >= dex.version_group_count {
        return Err(VdexError::BadRepr);
    }
    match find_moveset(p, version_group) {
        Some(i) => Ok(p.movesets[i].entries.len()),
        None => Ok(0),
    }
}

/// The `index`-th moveset entry of the pokemon a handle stands for in the
/// version group.
pub fn vdex_moveset_entry(
    dex: &Dataset,
    pokemon: VDexPokemon,
    version_group: u8,
    index: usize,
) -> (r: Result<VDexMovesetEntry, VdexError>)
    requires
        dex.wf(),
    ensures
        r is Ok <==> pokemon_handle_ok(*dex, pokemon) && version_group < dex.version_group_count
            && (index as int) < pokemon_of(*dex, pokemon).moveset_entries(version_group).len(),
        r matches Ok(e) ==> e == pokemon_of(*dex, pokemon).moveset_entries(version_group)[
            index as int
        ],
        r matches Err(e) ==> e == moveset_error(*dex, pokemon, version_group),
{
    let p = match resolve_pokemon(dex, pokemon) {
        Ok(p) => p,
        Err(e) => {
            return Err(e);
        },
    };
    if version_group >= dex.version_group_count {
        return Err(VdexError::BadRepr);
    }
    match find_moveset(p, version_group) {
        Some(i) => {
            let entries = &p.movesets[i].entries;
            if index >= entries.len() {
                return Err(VdexError::BadEntryIndex);
            }
            Ok(entries[index])
        },
        None => Err(VdexError::BadEntryIndex),
    }
}

/// Pair presence law: a species with a single egg group marshals with
/// presence flag 0 and second egg group 0 (the zeroth encoded value),
/// never a leftover value.
pub proof fn lemma_egg_group_pair_presence(s: SpeciesRecord)
    requires
        s.egg_group2 is None,
    ensures
        spec_species_details(s).has_egg_group2 == 0,
        spec_species_details(s).egg_group2 == 0,
{
}

/// Presence law for the evolution source: a species that evolved from no
/// other marshals with presence flag 0 and the default-valued record.
pub proof fn lemma_evolution_presence(s: SpeciesRecord)
    requires
        s.evolves_from is None,
    ensures
        spec_species_details(s).evolved == 0,
        spec_species_details(s).evolves_from == spec_default_evolves_from(),
{
}

} // verus!
