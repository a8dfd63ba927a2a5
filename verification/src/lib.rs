//! A verified foreign-function boundary over an in-memory game reference
//! dataset (a "pokedex"): types, items, moves, species, forms, movesets and
//! type-effectiveness tables.
//!
//! The dataset itself is supplied by the host as plain values; this crate
//! provides the boundary logic: a numeric codec for closed enumerations,
//! generation-checked owning handles, releasable cursors, boundary-owned
//! name buffers, marshalling of nested records into fixed-layout value
//! records, and validated effectiveness lookup. Every entry point validates
//! its inputs and reports misuse through `VdexError` instead of trusting the
//! caller.

use vstd::prelude::*;

pub mod cursor;
pub mod dataset;
pub mod efficacy;
pub mod enums;
pub mod handles;
pub mod items;
pub mod moves;
pub mod names;
pub mod palace;
pub mod species;

verus! {

/// Why a boundary call was rejected instead of performed.
#[derive(Clone, Copy, Debug, PartialEq, Eq, Structural)]
pub enum VdexError {
    /// No item of the dataset carries the requested id.
    UnknownItem,
    /// The requested move id is outside the move table.
    UnknownMove,
    /// The requested species id is outside the species table.
    UnknownSpecies,
    /// The requested variant index is outside the species' pokemon sequence.
    BadPokemonIndex,
    /// The requested form index is outside the pokemon's form sequence.
    BadFormIndex,
    /// The requested moveset entry index is outside the selected moveset.
    BadEntryIndex,
    /// An enumeration repr lies outside the declared `0..count` range.
    BadRepr,
}

} // verus!
