//! Move lookup and marshalling into fixed-layout value records.
//!
//! A move's id is its index in the move table. Optional fields are
//! flattened by the published policy: an absent accuracy means the move
//! never misses and marshals to the reserved sentinel, absent hit- and
//! turn-count ranges collapse to `1..1`, an absent effect chance to 0, and
//! the move flags pack into one unsigned integer under the published bit
//! constants.

use vstd::prelude::*;

use crate::dataset::{Dataset, MoveRecord};
use crate::names::{allocate_name, NameBuffer};
use crate::VdexError;

verus! {

/// Marshalled in place of an accuracy the move does not have: the move
/// never misses.
pub const VDEX_NEVER_MISSES: u8 = 0;

/// How many per-stat signed deltas a move carries.
pub const VDEX_CHANGEABLE_STATS: usize = 7;

pub const VDEX_STAT_CHANGE_ATTACK: usize = 0;

pub const VDEX_STAT_CHANGE_DEFENSE: usize = 1;

pub const VDEX_STAT_CHANGE_SPEED: usize = 2;

pub const VDEX_STAT_CHANGE_SPECIAL_ATTACK: usize = 3;

pub const VDEX_STAT_CHANGE_SPECIAL_DEFENSE: usize = 4;

pub const VDEX_STAT_CHANGE_ACCURACY: usize = 5;

pub const VDEX_STAT_CHANGE_EVASION: usize = 6;

pub const VDEX_MOVE_FLAG_CONTACT: u16 = 0x0001;

pub const VDEX_MOVE_FLAG_CHARGE: u16 = 0x0002;

pub const VDEX_MOVE_FLAG_RECHARGE: u16 = 0x0004;

pub const VDEX_MOVE_FLAG_PROTECT: u16 = 0x0008;

pub const VDEX_MOVE_FLAG_REFLECTABLE: u16 = 0x0010;

pub const VDEX_MOVE_FLAG_SNATCH: u16 = 0x0020;

pub const VDEX_MOVE_FLAG_MIRROR: u16 = 0x0040;

pub const VDEX_MOVE_FLAG_PUNCH: u16 = 0x0080;

pub const VDEX_MOVE_FLAG_SOUND: u16 = 0x0100;

pub const VDEX_MOVE_FLAG_GRAVITY: u16 = 0x0200;

pub const VDEX_MOVE_FLAG_DEFROST: u16 = 0x0400;

pub const VDEX_MOVE_FLAG_DISTANCE: u16 = 0x0800;

pub const VDEX_MOVE_FLAG_HEAL: u16 = 0x1000;

pub const VDEX_MOVE_FLAG_AUTHENTIC: u16 = 0x2000;

/// The fixed-layout value record a move marshals into.
#[derive(Clone, Copy, Debug, PartialEq, Eq)]
pub struct VDexMoveDetails {
    pub generation: u8,
    pub typ: u8,
    pub power: u8,
    pub pp: u8,
    pub accuracy: u8,
    pub priority: i8,
    pub target: u8,
    pub damage_class: u8,
    pub effect: u16,
    pub effect_chance: u8,
    pub category: u8,
    pub ailment: u8,
    pub ailment_volatile: u8,
    pub min_hits: u8,
    pub max_hits: u8,
    pub min_turns: u8,
    pub max_turns: u8,
    pub recoil: i8,
    pub healing: i8,
    pub critical_rate: i8,
    pub ailment_chance: u8,
    pub flinch_chance: u8,
    pub stat_chance: u8,
    pub stat_changes: [i8; 7],
    pub flags: u16,
}

/// The move's flags packed under the published bit constants.
pub open spec fn spec_move_flags(mov: MoveRecord) -> u16 {
    (if mov.meta.contact {
        VDEX_MOVE_FLAG_CONTACT
    } else {
        0u16
    }) | (if mov.meta.charge {
        VDEX_MOVE_FLAG_CHARGE
    } else {
        0u16
    }) | (if mov.meta.recharge {
        VDEX_MOVE_FLAG_RECHARGE
    } else {
        0u16
    }) | (if mov.meta.protect {
        VDEX_MOVE_FLAG_PROTECT
    } else {
        0u16
    }) | (if mov.meta.reflectable {
        VDEX_MOVE_FLAG_REFLECTABLE
    } else {
        0u16
    }) | (if mov.meta.snatch {
        VDEX_MOVE_FLAG_SNATCH
    } else {
        0u16
    }) | (if mov.meta.mirror {
        VDEX_MOVE_FLAG_MIRROR
    } else {
        0u16
    }) | (if mov.meta.punch {
        VDEX_MOVE_FLAG_PUNCH
    } else {
        0u16
    }) | (if mov.meta.sound {
        VDEX_MOVE_FLAG_SOUND
    } else {
        0u16
    }) | (if mov.meta.gravity {
        VDEX_MOVE_FLAG_GRAVITY
    } else {
        0u16
    }) | (if mov.meta.defrost {
        VDEX_MOVE_FLAG_DEFROST
    } else {
        0u16
    }) | (if mov.meta.distance {
        VDEX_MOVE_FLAG_DISTANCE
    } else {
        0u16
    }) | (if mov.meta.heal {
        VDEX_MOVE_FLAG_HEAL
    } else {
        0u16
    }) | (if mov.meta.authentic {
        VDEX_MOVE_FLAG_AUTHENTIC
    } else {
        0u16
    })
}

/// How a move marshals: every optional field flattened to its documented
/// sentinel or default, the flags packed into one integer.
pub open spec fn spec_move_details(mov: MoveRecord) -> VDexMoveDetails {
    VDexMoveDetails {
        generation: mov.generation,
        typ: mov.typ,
        power: mov.power,
        pp: mov.pp,
        accuracy: match mov.accuracy {
            Some(a) => a,
            None => VDEX_NEVER_MISSES,
        },
        priority: mov.priority,
        target: mov.target,
        damage_class: mov.damage_class,
        effect: mov.effect,
        effect_chance: match mov.effect_chance {
            Some(c) => c,
            None => 0u8,
        },
        category: mov.meta.category,
        ailment: mov.meta.ailment,
        ailment_volatile: if mov.meta.ailment_volatile {
            1u8
        } else {
            0u8
        },
        min_hits: match mov.meta.hits {
            Some(p) => p.0,
            None => 1u8,
        },
        max_hits: match mov.meta.hits {
            Some(p) => p.1,
            None => 1u8,
        },
        min_turns: match mov.meta.turns {
            Some(p) => p.0,
            None => 1u8,
        },
        max_turns: match mov.meta.turns {
            Some(p) => p.1,
            None => 1u8,
        },
        recoil: mov.meta.recoil,
        healing: mov.meta.healing,
        critical_rate: mov.meta.critical_rate,
        ailment_chance: mov.meta.ailment_chance,
        flinch_chance: mov.meta.flinch_chance,
        stat_chance: mov.meta.stat_chance,
        stat_changes: mov.meta.stat_changes,
        flags: spec_move_flags(mov),
    }
}

/// How many moves the dataset's move table holds.
pub fn vdex_move_count(dex: &Dataset) -> (n: usize)
    ensures
        n == dex.moves@.len(),
{
    dex.moves.len()
}

/// Marshals the move at `id` into its fixed-layout value record.
#[verifier::rlimit(60)]
pub fn vdex_move_details(dex: &Dataset, id: u16) -> (r: Result<VDexMoveDetails, VdexError>)
    requires
        dex.wf(),
    ensures
        r is Ok <==> dex.has_move(id),
        r matches Ok(d) ==> d == spec_move_details(dex.move_at(id)),
        r matches Err(e) ==> e == VdexError::UnknownMove,
{
    if (id as usize) >= dex.moves.len() {
        return Err(VdexError::UnknownMove);
    }
    let mov = &dex.moves[id as usize];
    Ok(
        VDexMoveDetails {
            generation: mov.generation,
            typ: mov.typ,
            power: mov.power,
            pp: mov.pp,
            accuracy: match mov.accuracy {
                Some(a) => a,
                None => VDEX_NEVER_MISSES,
            },
            priority: mov.priority,
            target: mov.target,
            damage_class: mov.damage_class,
            effect: mov.effect,
            effect_chance: match mov.effect_chance {
                Some(c) => c,
                None => 0,
            },
            category: mov.meta.category,
            ailment: mov.meta.ailment,
            ailment_volatile: if mov.meta.ailment_volatile {
                1
            } else {
                0
            },
            min_hits: match mov.meta.hits {
                Some(p) => p.0,
                None => 1,
            },
            max_hits: match mov.meta.hits {
                Some(p) => p.1,
                None => 1,
            },
            min_turns: match mov.meta.turns {
                Some(p) => p.0,
                None => 1,
            },
            max_turns: match mov.meta.turns {
                Some(p) => p.1,
                None => 1,
            },
            recoil: mov.meta.recoil,
            healing: mov.meta.healing,
            critical_rate: mov.meta.critical_rate,
            ailment_chance: mov.meta.ailment_chance,
            flinch_chance: mov.meta.flinch_chance,
            stat_chance: mov.meta.stat_chance,
            stat_changes: mov.meta.stat_changes,
            flags: (if mov.meta.contact {
                VDEX_MOVE_FLAG_CONTACT
            } else {
                0u16
            }) | (if mov.meta.charge {
                VDEX_MOVE_FLAG_CHARGE
            } else {
                0u16
            }) | (if mov.meta.recharge {
                VDEX_MOVE_FLAG_RECHARGE
            } else {
                0u16
            }) | (if mov.meta.protect {
                VDEX_MOVE_FLAG_PROTECT
            } else {
                0u16
            }) | (if mov.meta.reflectable {
                VDEX_MOVE_FLAG_REFLECTABLE
            } else {
                0u16
            }) | (if mov.meta.snatch {
                VDEX_MOVE_FLAG_SNATCH
            } else {
                0u16
            }) | (if mov.meta.mirror {
                VDEX_MOVE_FLAG_MIRROR
            } else {
                0u16
            }) | (if mov.meta.punch {
                VDEX_MOVE_FLAG_PUNCH
            } else {
                0u16
            }) | (if mov.meta.sound {
                VDEX_MOVE_FLAG_SOUND
            } else {
                0u16
            }) | (if mov.meta.gravity {
                VDEX_MOVE_FLAG_GRAVITY
            } else {
                0u16
            }) | (if mov.meta.defrost {
                VDEX_MOVE_FLAG_DEFROST
            } else {
                0u16
            }) | (if mov.meta.distance {
                VDEX_MOVE_FLAG_DISTANCE
            } else {
                0u16
            }) | (if mov.meta.heal {
                VDEX_MOVE_FLAG_HEAL
            } else {
                0u16
            }) | (if mov.meta.authentic {
                VDEX_MOVE_FLAG_AUTHENTIC
            } else {
                0u16
            }),
        },
    )
}

/// Copies the name of the move at `id` into a caller-owned buffer.
pub fn vdex_move_name(dex: &Dataset, id: u16) -> (r: Result<NameBuffer, VdexError>)
    requires
        dex.wf(),
    ensures
        r is Ok <==> dex.has_move(id),
        r matches Ok(b) ==> b@ == dex.move_at(id).name@.push(0),
        r matches Err(e) ==> e == VdexError::UnknownMove,
{
    if (id as usize) >= dex.moves.len() {
        return Err(VdexError::UnknownMove);
    }
    Ok(allocate_name(&dex.moves[id as usize].name))
}

/// Bit-flag law: the published move flag constants name non-overlapping
/// bits, and the packed flags integer has a constant's bit set exactly
/// when the corresponding flag of the record is set.
pub proof fn lemma_move_flag_bits(mov: MoveRecord)
    ensures
        (spec_move_flags(mov) & VDEX_MOVE_FLAG_CONTACT != 0) == mov.meta.contact,
        (spec_move_flags(mov) & VDEX_MOVE_FLAG_CHARGE != 0) == mov.meta.charge,
        (spec_move_flags(mov) & VDEX_MOVE_FLAG_RECHARGE != 0) == mov.meta.recharge,
        (spec_move_flags(mov) & VDEX_MOVE_FLAG_PROTECT != 0) == mov.meta.protect,
        (spec_move_flags(mov) & VDEX_MOVE_FLAG_REFLECTABLE != 0) == mov.meta.reflectable,
        (spec_move_flags(mov) & VDEX_MOVE_FLAG_SNATCH != 0) == mov.meta.snatch,
        (spec_move_flags(mov) & VDEX_MOVE_FLAG_MIRROR != 0) == mov.meta.mirror,
        (spec_move_flags(mov) & VDEX_MOVE_FLAG_PUNCH != 0) == mov.meta.punch,
        (spec_move_flags(mov) & VDEX_MOVE_FLAG_SOUND != 0) == mov.meta.sound,
        (spec_move_flags(mov) & VDEX_MOVE_FLAG_GRAVITY != 0) == mov.meta.gravity,
        (spec_move_flags(mov) & VDEX_MOVE_FLAG_DEFROST != 0) == mov.meta.defrost,
        (spec_move_flags(mov) & VDEX_MOVE_FLAG_DISTANCE != 0) == mov.meta.distance,
        (spec_move_flags(mov) & VDEX_MOVE_FLAG_HEAL != 0) == mov.meta.heal,
        (spec_move_flags(mov) & VDEX_MOVE_FLAG_AUTHENTIC != 0) == mov.meta.authentic,
{
    let b0 = mov.meta.contact;
    let b1 = mov.meta.charge;
    let b2 = mov.meta.recharge;
    let b3 = mov.meta.protect;
    let b4 = mov.meta.reflectable;
    let b5 = mov.meta.snatch;
    let b6 = mov.meta.mirror;
    let b7 = mov.meta.punch;
    let b8 = mov.meta.sound;
    let b9 = mov.meta.gravity;
    let b10 = mov.meta.defrost;
    let b11 = mov.meta.distance;
    let b12 = mov.meta.heal;
    let b13 = mov.meta.authentic;
    assert(spec_move_flags(mov) == (if b0 {
        0x0001u16
    } else {
        0u16
    }) | (if b1 {
        0x0002u16
    } else {
        0u16
    }) | (if b2 {
        0x0004u16
    } else {
        0u16
    }) | (if b3 {
        0x0008u16
    } else {
        0u16
    }) | (if b4 {
        0x0010u16
    } else {
        0u16
    }) | (if b5 {
        0x0020u16
    } else {
        0u16
    }) | (if b6 {
        0x0040u16
    } else {
        0u16
    }) | (if b7 {
        0x0080u16
    } else {
        0u16
    }) | (if b8 {
        0x0100u16
    } else {
        0u16
    }) | (if b9 {
        0x0200u16
    } else {
        0u16
    }) | (if b10 {
        0x0400u16
    } else {
        0u16
    }) | (if b11 {
        0x0800u16
    } else {
        0u16
    }) | (if b12 {
        0x1000u16
    } else {
        0u16
    }) | (if b13 {
        0x2000u16
    } else {
        0u16
    }));
    assert({
        let g = (if b0 {
            0x0001u16
        } else {
            0u16
        }) | (if b1 {
            0x0002u16
        } else {
            0u16
        }) | (if b2 {
            0x0004u16
        } else {
            0u16
        }) | (if b3 {
            0x0008u16
        } else {
            0u16
        }) | (if b4 {
            0x0010u16
        } else {
            0u16
        }) | (if b5 {
            0x0020u16
        } else {
            0u16
        }) | (if b6 {
            0x0040u16
        } else {
            0u16
        }) | (if b7 {
            0x0080u16
        } else {
            0u16
        }) | (if b8 {
            0x0100u16
        } else {
            0u16
        }) | (if b9 {
            0x0200u16
        } else {
            0u16
        }) | (if b10 {
            0x0400u16
        } else {
            0u16
        }) | (if b11 {
            0x0800u16
        } else {
            0u16
        }) | (if b12 {
            0x1000u16
        } else {
            0u16
        }) | (if b13 {
            0x2000u16
        } else {
            0u16
        });
        &&& (g & 0x0001u16 != 0) == b0
        &&& (g & 0x0002u16 != 0) == b1
        &&& (g & 0x0004u16 != 0) == b2
        &&& (g & 0x0008u16 != 0) == b3
        &&& (g & 0x0010u16 != 0) == b4
        &&& (g & 0x0020u16 != 0) == b5
        &&& (g & 0x0040u16 != 0) == b6
        &&& (g & 0x0080u16 != 0) == b7
        &&& (g & 0x0100u16 != 0) == b8
        &&& (g & 0x0200u16 != 0) == b9
        &&& (g & 0x0400u16 != 0) == b10
        &&& (g & 0x0800u16 != 0) == b11
        &&& (g & 0x1000u16 != 0) == b12
        &&& (g & 0x2000u16 != 0) == b13
    }) by (bit_vector);
}

/// Sentinel policy for a move's optional fields: a move without an
/// accuracy marshals to the never-misses sentinel, absent hit- and
/// turn-count ranges collapse to `1..1`, and an absent effect chance to 0.
pub proof fn lemma_move_sentinels(mov: MoveRecord)
    ensures
        mov.accuracy is None ==> spec_move_details(mov).accuracy == VDEX_NEVER_MISSES,
        mov.effect_chance is None ==> spec_move_details(mov).effect_chance == 0,
        mov.meta.hits is None ==> spec_move_details(mov).min_hits == 1 && spec_move_details(
            mov,
        ).max_hits == 1,
        mov.meta.turns is None ==> spec_move_details(mov).min_turns == 1 && spec_move_details(
            mov,
        ).max_turns == 1,
{
}

} // verus!
