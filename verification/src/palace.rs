//! Validated lookup in the minigame ("palace") table.
//!
//! The table holds four fixed-length numeric arrays, each indexed by
//! nature id; a nature repr is validated against the table's length before
//! any array is read.

use vstd::prelude::*;

use crate::dataset::Dataset;
use crate::VdexError;

verus! {

/// How many natures the palace table is indexed by.
pub fn vdex_palace_count(dex: &Dataset) -> (n: usize)
    ensures
        n == dex.palace.nature_count(),
{
    dex.palace.low_attack.len()
}

/// The low-spirits attack entry for a nature.
pub fn vdex_palace_low_attack(dex: &Dataset, nature: u8) -> (r: Result<u8, VdexError>)
    requires
        dex.wf(),
    ensures
        r is Ok <==> (nature as int) < dex.palace.nature_count(),
        r matches Ok(v) ==> v == dex.palace.low_attack@[nature as int],
        r matches Err(e) ==> e == VdexError::BadRepr,
{
    if (nature as usize) >= dex.palace.low_attack.len() {
        return Err(VdexError::BadRepr);
    }
    Ok(dex.palace.low_attack[nature as usize])
}

/// The low-spirits defense entry for a nature.
pub fn vdex_palace_low_defense(dex: &Dataset, nature: u8) -> (r: Result<u8, VdexError>)
    requires
        dex.wf(),
    ensures
        r is Ok <==> (nature as int) < dex.palace.nature_count(),
        r matches Ok(v) ==> v == dex.palace.low_defense@[nature as int],
        r matches Err(e) ==> e == VdexError::BadRepr,
{
    if (nature as usize) >= dex.palace.low_defense.len() {
        return Err(VdexError::BadRepr);
    }
    Ok(dex.palace.low_defense[nature as usize])
}

/// The high-spirits attack entry for a nature.
pub fn vdex_palace_high_attack(dex: &Dataset, nature: u8) -> (r: Result<u8, VdexError>)
    requires
        dex.wf(),
    ensures
        r is Ok <==> (nature as int) < dex.palace.nature_count(),
        r matches Ok(v) ==> v == dex.palace.high_attack@[nature as int],
        r matches Err(e) ==> e == VdexError::BadRepr,
{
    if (nature as usize) >= dex.palace.high_attack.len() {
        return Err(VdexError::BadRepr);
    }
    Ok(dex.palace.high_attack[nature as usize])
}

/// The high-spirits defense entry for a nature.
pub fn vdex_palace_high_defense(dex: &Dataset, nature: u8) -> (r: Result<u8, VdexError>)
    requires
        dex.wf(),
    ensures
        r is Ok <==> (nature as int) < dex.palace.nature_count(),
        r matches Ok(v) ==> v == dex.palace.high_defense@[nature as int],
        r matches Err(e) ==> e == VdexError::BadRepr,
{
    if (nature as usize) >= dex.palace.high_defense.len() {
        return Err(VdexError::BadRepr);
    }
    Ok(dex.palace.high_defense[nature as usize])
}

} // verus!
