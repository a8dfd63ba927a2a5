//! Validated 2-D effectiveness lookup.
//!
//! Both type reprs are decoded against the type enumeration before the
//! table is read, damage first; each invalid argument has a reserved
//! sentinel of its own, outside the range of table values.

use vstd::prelude::*;

use crate::dataset::Dataset;

verus! {

/// Returned when the damage-type repr is outside the type enumeration.
pub const VDEX_INVALID_DAMAGE_TYPE: i8 = 127;

/// Returned when only the target-type repr is outside the type enumeration.
pub const VDEX_INVALID_TARGET_TYPE: i8 = 126;

/// The outcome of a validated effectiveness lookup: the damage repr is
/// validated first, then the target repr, and only then is the table read.
pub open spec fn spec_efficacy(dex: Dataset, damage: u8, target: u8) -> i8 {
    if dex.type_count() <= damage as int {
        VDEX_INVALID_DAMAGE_TYPE
    } else if dex.type_count() <= target as int {
        VDEX_INVALID_TARGET_TYPE
    } else {
        dex.efficacy@[damage as int]@[target as int]
    }
}

/// Looks up the effectiveness of `damage` against `target`, reporting an
/// invalid repr through the error channel: the damage repr is validated
/// first.
pub fn efficacy(dex: &Dataset, damage: u8, target: u8) -> (r: Result<i8, i8>)
    requires
        dex.wf(),
    ensures
        r is Ok <==> (damage as int) < dex.type_count() && (target as int) < dex.type_count(),
        r matches Ok(v) ==> v == spec_efficacy(*dex, damage, target),
        r matches Err(e) ==> e == spec_efficacy(*dex, damage, target),
{
    if (damage as usize) >= dex.efficacy.len() {
        return Err(VDEX_INVALID_DAMAGE_TYPE);
    }
    if (target as usize) >= dex.efficacy.len() {
        return Err(VDEX_INVALID_TARGET_TYPE);
    }
    let row = &dex.efficacy[damage as usize];
    assert(row@.len() == dex.efficacy@.len());
    Ok(row[target as usize])
}

/// Looks up the effectiveness of `damage` against `target`, folding the
/// per-argument sentinels into the returned value as the boundary does.
pub fn vdex_efficacy(dex: &Dataset, damage: u8, target: u8) -> (r: i8)
    requires
        dex.wf(),
    ensures
        r == spec_efficacy(*dex, damage, target),
{
    match efficacy(dex, damage, target) {
        Ok(v) => v,
        Err(e) => e,
    }
}

/// Validation-ordering law: an out-of-range damage repr yields the damage
/// sentinel whatever the target repr is, an out-of-range target repr beside
/// a valid damage repr yields the target sentinel, and a pair of valid
/// reprs yields the table value at that pair, which is never mistakable for
/// either sentinel.
pub proof fn lemma_efficacy_validation_order(dex: Dataset, damage: u8, target: u8)
    requires
        dex.wf(),
    ensures
        dex.type_count() <= damage as int ==> spec_efficacy(dex, damage, target)
            == VDEX_INVALID_DAMAGE_TYPE,
        (damage as int) < dex.type_count() && dex.type_count() <= target as int ==> spec_efficacy(
            dex,
            damage,
            target,
        ) == VDEX_INVALID_TARGET_TYPE,
        (damage as int) < dex.type_count() && (target as int) < dex.type_count() ==> {
            &&& spec_efficacy(dex, damage, target) == dex.efficacy@[damage as int]@[target as int]
            &&& spec_efficacy(dex, damage, target) != VDEX_INVALID_DAMAGE_TYPE
            &&& spec_efficacy(dex, damage, target) != VDEX_INVALID_TARGET_TYPE
        },
{
}

} // verus!
