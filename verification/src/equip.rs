//! The equipment-slot state machine.
//!
//! A slot is `Empty` when the current promotion rank defines no equipment
//! for it, `Unequipped` when equipment exists but is not worn, and
//! `Equipped` when it is worn at some enhancement level. Every transition
//! reports whether the state actually changed.

use vstd::prelude::*;

verus! {

#[derive(Debug, Clone)]
pub enum EquipSlot {
    /// No equipment is defined for this slot; no transition applies.
    Empty,
    /// Equipment `id` exists but is not worn. A missing maximum
    /// enhancement level means the maximum is unknown.
    Unequipped { id: i64, max_enhancement_level: Option<i32> },
    /// Equipment `id` is worn at `enhancement_level`.
    Equipped { id: i64, enhancement_level: i32, max_enhancement_level: Option<i32> },
}

/// The state after `equip(level)`.
pub open spec fn equip_next(s: EquipSlot, level: i32) -> EquipSlot {
    match s {
        EquipSlot::Empty => EquipSlot::Empty,
        EquipSlot::Unequipped { id, max_enhancement_level } => EquipSlot::Equipped {
            id,
            enhancement_level: level,
            max_enhancement_level,
        },
        EquipSlot::Equipped { id, enhancement_level, max_enhancement_level } => {
            EquipSlot::Equipped { id, enhancement_level: level, max_enhancement_level }
        },
    }
}

/// Whether `equip(level)` changes the state.
pub open spec fn equip_changes(s: EquipSlot, level: i32) -> bool {
    match s {
        EquipSlot::Empty => false,
        EquipSlot::Unequipped { .. } => true,
        EquipSlot::Equipped { enhancement_level, .. } => enhancement_level != level,
    }
}

/// The enhancement level that `equip_full` targets: the slot's maximum,
/// with a missing maximum treated as zero.
pub open spec fn full_level(s: EquipSlot) -> i32 {
    match s {
        EquipSlot::Empty => 0,
        EquipSlot::Unequipped { max_enhancement_level, .. } => match max_enhancement_level {
            Some(m) => m,
            None => 0,
        },
        EquipSlot::Equipped { max_enhancement_level, .. } => match max_enhancement_level {
            Some(m) => m,
            None => 0,
        },
    }
}

/// The state after `unequip`.
pub open spec fn unequip_next(s: EquipSlot) -> EquipSlot {
    match s {
        EquipSlot::Equipped { id, max_enhancement_level, .. } => EquipSlot::Unequipped {
            id,
            max_enhancement_level,
        },
        _ => s,
    }
}

impl EquipSlot {
    pub fn is_equipped(&self) -> (r: bool)
        ensures
            r == (self is Equipped),
    {
        match self {
            EquipSlot::Equipped { .. } => true,
            _ => false,
        }
    }

    pub fn is_none(&self) -> (r: bool)
        ensures
            r == (self is Empty),
    {
        match self {
            EquipSlot::Empty => true,
            _ => false,
        }
    }

    /// Wear the slot's equipment at `level`; on an already worn slot this
    /// re-enhances it. Nothing happens on an `Empty` slot.
    pub fn equip(&mut self, level: i32) -> (changed: bool)
        ensures
            *final(self) == equip_next(*old(self), level),
            changed == equip_changes(*old(self), level),
    {
        match self {
            EquipSlot::Equipped { enhancement_level, .. } => {
                if *enhancement_level != level {
                    *enhancement_level = level;
                    true
                } else {
                    false
                }
            },
            EquipSlot::Unequipped { id, max_enhancement_level } => {
                let id = *id;
                let max_enhancement_level = *max_enhancement_level;
                *self = EquipSlot::Equipped { id, enhancement_level: level, max_enhancement_level };
                true
            },
            EquipSlot::Empty => false,
        }
    }

    /// Wear the slot's equipment without any enhancement.
    pub fn equip_0(&mut self) -> (changed: bool)
        ensures
            *final(self) == equip_next(*old(self), 0),
            changed == equip_changes(*old(self), 0),
    {
        self.equip(0)
    }

    /// Wear the slot's equipment at its maximum enhancement level,
    /// treating an unknown maximum as zero.
    pub fn equip_full(&mut self) -> (changed: bool)
        ensures
            *final(self) == equip_next(*old(self), full_level(*old(self))),
            changed == equip_changes(*old(self), full_level(*old(self))),
    {
        match self {
            EquipSlot::Equipped { enhancement_level, max_enhancement_level, .. } => {
                let target = match *max_enhancement_level {
                    Some(m) => m,
                    None => 0,
                };
                if *enhancement_level != target {
                    *enhancement_level = target;
                    true
                } else {
                    false
                }
            },
            EquipSlot::Unequipped { id, max_enhancement_level } => {
                let id = *id;
                let max_enhancement_level = *max_enhancement_level;
                let target = match max_enhancement_level {
                    Some(m) => m,
                    None => 0,
                };
                *self = EquipSlot::Equipped {
                    id,
                    enhancement_level: target,
                    max_enhancement_level,
                };
                true
            },
            EquipSlot::Empty => false,
        }
    }

    /// Take the equipment off; only a worn slot changes.
    pub fn unequip(&mut self) -> (changed: bool)
        ensures
            *final(self) == unequip_next(*old(self)),
            changed == (*old(self) is Equipped),
    {
        match self {
            EquipSlot::Equipped { id, max_enhancement_level, .. } => {
                let id = *id;
                let max_enhancement_level = *max_enhancement_level;
                *self = EquipSlot::Unequipped { id, max_enhancement_level };
                true
            },
            _ => false,
        }
    }
}

/// Wearing and then taking off again returns an unequipped slot to
/// exactly the state it started from (same id, same maximum).
pub proof fn lemma_equip_unequip_round_trip(s: EquipSlot, level: i32)
    requires
        s is Unequipped,
    ensures
        unequip_next(equip_next(s, level)) == s,
{
}

/// `equip_full` on a slot with a known maximum wears it at that maximum.
pub proof fn lemma_equip_full_reaches_max(s: EquipSlot, id: i64, m: i32)
    requires
        s == (EquipSlot::Unequipped { id, max_enhancement_level: Some(m) }),
    ensures
        equip_next(s, full_level(s)) == (EquipSlot::Equipped {
            id,
            enhancement_level: m,
            max_enhancement_level: Some(m),
        }),
{
}

/// On an `Empty` slot every transition is a no-op that reports no change.
pub proof fn lemma_empty_slot_is_terminal(level: i32)
    ensures
        equip_next(EquipSlot::Empty, level) == EquipSlot::Empty,
        !equip_changes(EquipSlot::Empty, level),
        unequip_next(EquipSlot::Empty) == EquipSlot::Empty,
{
}

/// The state `equip(level)` leads to, computed without mutation.
pub fn next_equip(s: &EquipSlot, level: i32) -> (r: EquipSlot)
    ensures
        r == equip_next(*s, level),
{
    match s {
        EquipSlot::Empty => EquipSlot::Empty,
        EquipSlot::Unequipped { id, max_enhancement_level } => EquipSlot::Equipped {
            id: *id,
            enhancement_level: level,
            max_enhancement_level: *max_enhancement_level,
        },
        EquipSlot::Equipped { id, max_enhancement_level, .. } => EquipSlot::Equipped {
            id: *id,
            enhancement_level: level,
            max_enhancement_level: *max_enhancement_level,
        },
    }
}

/// The state `unequip` leads to, computed without mutation.
pub fn next_unequip(s: &EquipSlot) -> (r: EquipSlot)
    ensures
        r == unequip_next(*s),
{
    match s {
        EquipSlot::Empty => EquipSlot::Empty,
        EquipSlot::Unequipped { id, max_enhancement_level } => EquipSlot::Unequipped {
            id: *id,
            max_enhancement_level: *max_enhancement_level,
        },
        EquipSlot::Equipped { id, max_enhancement_level, .. } => EquipSlot::Unequipped {
            id: *id,
            max_enhancement_level: *max_enhancement_level,
        },
    }
}

/// State of the three slots that unlock at the highest rarity.
#[derive(Debug, Clone)]
pub struct UnlockRarity6Slot {
    /// The first slot: zero when empty, one when filled.
    pub slot_1_level: i32,
    /// The second slot: zero when empty, one when filled.
    pub slot_2_level: i32,
    /// The third slot: zero when empty, otherwise one more than the
    /// enhancement shown for the worn ornament.
    pub slot_3_level: i32,
}

impl UnlockRarity6Slot {
    /// The three levels in slot order.
    pub fn slot_level(&self) -> (r: [i32; 3])
        ensures
            r@.len() == 3,
            r@[0] == self.slot_1_level,
            r@[1] == self.slot_2_level,
            r@[2] == self.slot_3_level,
    {
        [self.slot_1_level, self.slot_2_level, self.slot_3_level]
    }
}

} // verus!
