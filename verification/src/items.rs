//! Item lookup and marshalling into fixed-layout value records.
//!
//! Optional fields are flattened by the published policy: a missing fling
//! power or berry sub-record becomes 0, a missing dominant flavor becomes
//! the reserved sentinel, and the usage flags are packed into one unsigned
//! integer under the published bit constants.

use vstd::prelude::*;

use crate::dataset::{Dataset, ItemRecord};
use crate::names::{allocate_name, NameBuffer};
use crate::VdexError;

verus! {

pub const VDEX_ITEM_FLAG_COUNTABLE: u8 = 0x01;

pub const VDEX_ITEM_FLAG_CONSUMABLE: u8 = 0x02;

pub const VDEX_ITEM_FLAG_USABLE_OVERWORLD: u8 = 0x04;

pub const VDEX_ITEM_FLAG_USABLE_IN_BATTLE: u8 = 0x08;

pub const VDEX_ITEM_FLAG_HOLDABLE: u8 = 0x10;

pub const VDEX_ITEM_FLAG_HOLDABLE_PASSIVE: u8 = 0x20;

pub const VDEX_ITEM_FLAG_HOLDABLE_ACTIVE: u8 = 0x40;

pub const VDEX_ITEM_FLAG_UNDERGROUND: u8 = 0x80;

/// Marshalled in place of a dominant flavor the berry does not have.
pub const VDEX_NO_DOMINANT_FLAVOR: u8 = 0xFF;

/// The fixed-layout value record an item marshals into.
#[derive(Clone, Copy, Debug, PartialEq, Eq, Structural)]
pub struct VDexItemDetails {
    pub category: u8,
    pub unused: u8,
    pub pocket: u8,
    pub cost: u16,
    pub fling_power: u8,
    pub fling_effect: u8,
    pub flags: u8,
    pub natural_gift_power: u8,
    pub natural_gift_type: u8,
    pub flavor: u8,
}

/// The item's usage flags packed under the published bit constants.
pub open spec fn spec_item_flags(item: ItemRecord) -> u8 {
    (if item.countable {
        VDEX_ITEM_FLAG_COUNTABLE
    } else {
        0u8
    }) | (if item.consumable {
        VDEX_ITEM_FLAG_CONSUMABLE
    } else {
        0u8
    }) | (if item.usable_overworld {
        VDEX_ITEM_FLAG_USABLE_OVERWORLD
    } else {
        0u8
    }) | (if item.usable_in_battle {
        VDEX_ITEM_FLAG_USABLE_IN_BATTLE
    } else {
        0u8
    }) | (if item.holdable {
        VDEX_ITEM_FLAG_HOLDABLE
    } else {
        0u8
    }) | (if item.holdable_passive {
        VDEX_ITEM_FLAG_HOLDABLE_PASSIVE
    } else {
        0u8
    }) | (if item.holdable_active {
        VDEX_ITEM_FLAG_HOLDABLE_ACTIVE
    } else {
        0u8
    }) | (if item.underground {
        VDEX_ITEM_FLAG_UNDERGROUND
    } else {
        0u8
    })
}

/// How an item marshals: every optional field flattened to its documented
/// sentinel or default, the usage flags packed into one integer.
pub open spec fn spec_item_details(item: ItemRecord) -> VDexItemDetails {
    VDexItemDetails {
        category: item.category,
        unused: if item.unused {
            1u8
        } else {
            0u8
        },
        pocket: item.pocket,
        cost: item.cost,
        fling_power: match item.fling_power {
            Some(p) => p,
            None => 0u8,
        },
        fling_effect: item.fling_effect,
        flags: spec_item_flags(item),
        natural_gift_power: match item.berry {
            Some(b) => b.natural_gift_power,
            None => 0u8,
        },
        natural_gift_type: match item.berry {
            Some(b) => b.natural_gift_type,
            None => 0u8,
        },
        flavor: match item.berry {
            Some(b) => match b.flavor {
                Some(f) => f,
                None => VDEX_NO_DOMINANT_FLAVOR,
            },
            None => VDEX_NO_DOMINANT_FLAVOR,
        },
    }
}

/// Finds the index of the item carrying `id`, if any item does.
fn find_item(dex: &Dataset, id: u16) -> (r: Option<usize>)
    requires
        dex.wf(),
    ensures
        match r {
            Some(i) => dex.has_item(id) && i < dex.items@.len() && dex.items@[i as int]
                == dex.item_at(id),
            None => !dex.has_item(id),
        },
{
    let n = dex.items.len();
    let mut i: usize = 0;
    while i < n
        invariant
            dex.wf(),
            n == dex.items@.len(),
            i <= n,
            forall|j: int| #![auto] 0 <= j < i ==> dex.items@[j].id != id,
        decreases n - i,
    {
        if dex.items[i].id == id {
            proof {
                assert(dex.has_item(id));
                let w = choose|w: int| 0 <= w < dex.items@.len() && dex.items@[w].id == id;
                assert(w == i);
            }
            return Some(i);
        }
        i = i + 1;
    }
    None
}

/// Marshals the item carrying `id` into its fixed-layout value record.
pub fn vdex_item_details(dex: &Dataset, id: u16) -> (r: Result<VDexItemDetails, VdexError>)
    requires
        dex.wf(),
    ensures
        r is Ok <==> dex.has_item(id),
        r matches Ok(d) ==> d == spec_item_details(dex.item_at(id)),
        r matches Err(e) ==> e == VdexError::UnknownItem,
{
    match find_item(dex, id) {
        Some(i) => {
            let item = &dex.items[i];
            Ok(
                VDexItemDetails {
                    category: item.category,
                    unused: if item.unused {
                        1
                    } else {
                        0
                    },
                    pocket: item.pocket,
                    cost: item.cost,
                    fling_power: match item.fling_power {
                        Some(p) => p,
                        None => 0,
                    },
                    fling_effect: item.fling_effect,
                    flags: (if item.countable {
                        VDEX_ITEM_FLAG_COUNTABLE
                    } else {
                        0u8
                    }) | (if item.consumable {
                        VDEX_ITEM_FLAG_CONSUMABLE
                    } else {
                        0u8
                    }) | (if item.usable_overworld {
                        VDEX_ITEM_FLAG_USABLE_OVERWORLD
                    } else {
                        0u8
                    }) | (if item.usable_in_battle {
                        VDEX_ITEM_FLAG_USABLE_IN_BATTLE
                    } else {
                        0u8
                    }) | (if item.holdable {
                        VDEX_ITEM_FLAG_HOLDABLE
                    } else {
                        0u8
                    }) | (if item.holdable_passive {
                        VDEX_ITEM_FLAG_HOLDABLE_PASSIVE
                    } else {
                        0u8
                    }) | (if item.holdable_active {
                        VDEX_ITEM_FLAG_HOLDABLE_ACTIVE
                    } else {
                        0u8
                    }) | (if item.underground {
                        VDEX_ITEM_FLAG_UNDERGROUND
                    } else {
                        0u8
                    }),
                    natural_gift_power: match item.berry {
                        Some(b) => b.natural_gift_power,
                        None => 0,
                    },
                    natural_gift_type: match item.berry {
                        Some(b) => b.natural_gift_type,
                        None => 0,
                    },
                    flavor: match item.berry {
                        Some(b) => match b.flavor {
                            Some(f) => f,
                            None => VDEX_NO_DOMINANT_FLAVOR,
                        },
                        None => VDEX_NO_DOMINANT_FLAVOR,
                    },
                },
            )
        },
        None => Err(VdexError::UnknownItem),
    }
}

/// Copies the name of the item carrying `id` into a caller-owned buffer.
pub fn vdex_item_name(dex: &Dataset, id: u16) -> (r: Result<NameBuffer, VdexError>)
    requires
        dex.wf(),
    ensures
        r is Ok <==> dex.has_item(id),
        r matches Ok(b) ==> b@ == dex.item_at(id).name@.push(0),
        r matches Err(e) ==> e == VdexError::UnknownItem,
{
    match find_item(dex, id) {
        Some(i) => Ok(allocate_name(&dex.items[i].name)),
        None => Err(VdexError::UnknownItem),
    }
}

/// Bit-flag law: the published item flag constants name non-overlapping
/// bits, and the packed flags integer has a constant's bit set exactly
/// when the corresponding usage flag of the record is set.
pub proof fn lemma_item_flag_bits(item: ItemRecord)
    ensures
        (spec_item_flags(item) & VDEX_ITEM_FLAG_COUNTABLE != 0) == item.countable,
        (spec_item_flags(item) & VDEX_ITEM_FLAG_CONSUMABLE != 0) == item.consumable,
        (spec_item_flags(item) & VDEX_ITEM_FLAG_USABLE_OVERWORLD != 0) == item.usable_overworld,
        (spec_item_flags(item) & VDEX_ITEM_FLAG_USABLE_IN_BATTLE != 0) == item.usable_in_battle,
        (spec_item_flags(item) & VDEX_ITEM_FLAG_HOLDABLE != 0) == item.holdable,
        (spec_item_flags(item) & VDEX_ITEM_FLAG_HOLDABLE_PASSIVE != 0) == item.holdable_passive,
        (spec_item_flags(item) & VDEX_ITEM_FLAG_HOLDABLE_ACTIVE != 0) == item.holdable_active,
        (spec_item_flags(item) & VDEX_ITEM_FLAG_UNDERGROUND != 0) == item.underground,
{
    let b0 = item.countable;
    let b1 = item.consumable;
    let b2 = item.usable_overworld;
    let b3 = item.usable_in_battle;
    let b4 = item.holdable;
    let b5 = item.holdable_passive;
    let b6 = item.holdable_active;
    let b7 = item.underground;
    let f = spec_item_flags(item);
    assert(f == (if b0 {
        0x01u8
    } else {
        0u8
    }) | (if b1 {
        0x02u8
    } else {
        0u8
    }) | (if b2 {
        0x04u8
    } else {
        0u8
    }) | (if b3 {
        0x08u8
    } else {
        0u8
    }) | (if b4 {
        0x10u8
    } else {
        0u8
    }) | (if b5 {
        0x20u8
    } else {
        0u8
    }) | (if b6 {
        0x40u8
    } else {
        0u8
    }) | (if b7 {
        0x80u8
    } else {
        0u8
    }));
    assert({
        let g = (if b0 {
            0x01u8
        } else {
            0u8
        }) | (if b1 {
            0x02u8
        } else {
            0u8
        }) | (if b2 {
            0x04u8
        } else {
            0u8
        }) | (if b3 {
            0x08u8
        } else {
            0u8
        }) | (if b4 {
            0x10u8
        } else {
            0u8
        }) | (if b5 {
            0x20u8
        } else {
            0u8
        }) | (if b6 {
            0x40u8
        } else {
            0u8
        }) | (if b7 {
            0x80u8
        } else {
            0u8
        });
        &&& (g & 0x01u8 != 0) == b0
        &&& (g & 0x02u8 != 0) == b1
        &&& (g & 0x04u8 != 0) == b2
        &&& (g & 0x08u8 != 0) == b3
        &&& (g & 0x10u8 != 0) == b4
        &&& (g & 0x20u8 != 0) == b5
        &&& (g & 0x40u8 != 0) == b6
        &&& (g & 0x80u8 != 0) == b7
    }) by (bit_vector);
}

/// Optional-field sentinel law: an item with no berry sub-record marshals
/// to natural-gift power 0, natural-gift type 0 (the first declared type)
/// and the published "no dominant flavor" sentinel.
pub proof fn lemma_berry_sentinels(item: ItemRecord)
    requires
        item.berry is None,
    ensures
        spec_item_details(item).natural_gift_power == 0,
        spec_item_details(item).natural_gift_type == 0,
        spec_item_details(item).flavor == VDEX_NO_DOMINANT_FLAVOR,
{
}

} // verus!
