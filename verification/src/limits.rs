//! Global magnitude limits for the fixed-point stat engine.
//!
//! Every stat scalar is stored as an `i128` count of units of `1 / SCALE`,
//! so a raw value `x` stands for the rational number `x / SCALE`. All
//! arithmetic on such values is exact as long as it stays inside `i128`;
//! the bounds below are chosen so that every intermediate quantity of the
//! power formulas provably fits, including the final dot product at
//! `SCALE` squared.

use vstd::prelude::*;

verus! {

/// One whole unit of a stat, in raw fixed-point steps.
pub const SCALE: i128 = 1_000_000;

/// Half of `SCALE`; the rounding threshold of the half-up policy.
pub const HALF_SCALE: i128 = 500_000;

/// Largest magnitude, in raw steps, of any scalar stored in a cache:
/// base stats, growth rates, equipment stats, enhancement rates, story
/// bonuses and formula coefficients (a real magnitude of one million).
pub const MAX_STAT: i128 = 1_000_000_000_000;

/// Largest level-like quantity: unit level, promotion rank, rarity,
/// enhancement level, unlock level, skill level.
pub const MAX_LEVEL: i32 = 100_000;

/// Largest length of any per-unit list: promotion ranks, skill rosters,
/// story groups, entries per story group, unlock-level lists.
pub const MAX_COUNT: usize = 100;

/// Bound on every slot of an enhancement-rate accumulation
/// (a rate times an enhancement level, before the ceiling is taken).
pub const B_ENHANCE_RAW: i128 = 200_000_000_000_000_000;

/// Bound on every slot of one equipment's resolved stat contribution.
pub const B_EQUIP_ITEM: i128 = 300_000_000_000_000_000;

/// Bound on every slot of the fractional equipment accumulation
/// (six worn slots plus the unique equipment, before rounding).
pub const B_EQUIP_RAW: i128 = 3_000_000_000_000_000_000;

/// Bound on every slot of the rounded equipment parameter vector,
/// including the unlockable-slot contribution.
pub const B_EQUIP: i128 = 10_000_000_000_000;

/// Bound on every slot of the unlockable-slot parameter vector.
pub const B_UNLOCK: i128 = 3_000_000_000_000;

/// Bound on every slot of a rarity parameter vector.
pub const B_RARITY: i128 = 300_000_000_000_000_000;

/// Bound on every slot of a promotion parameter vector.
pub const B_PROMOTION: i128 = 3_000_000_000_000;

/// Bound on every slot of a rounded base parameter vector.
pub const B_BASE: i128 = 1_000_000_000_000;

/// Bound on what one watched story entry adds to one slot.
pub const B_STORY_ENTRY: i128 = 100_000_000_000_000;

/// Bound on what one whole story group adds to one slot.
pub const B_STORY_GROUP: i128 = 10_000_000_000_000_000;

/// Bound on a story accumulator before the next group is added.
pub const B_STORY_PRE: i128 = 1_000_000_000_000_000_000;

/// Bound on every slot of the story parameter vector.
pub const B_STORY: i128 = 2_000_000_000_000_000_000;

/// Bound on every slot of the total status parameter vector.
pub const B_STATUS: i128 = 3_000_000_000_000_000_000;

/// Bound on one skill's contribution to the skill power sum.
pub const B_SKILL_TERM: i128 = 200_000_000_000_000_000;

/// Bound on the accumulated skill power (a scale-1 fixed-point scalar).
pub const B_SKILL: i128 = 100_000_000_000_000_000_000;

/// Bound on one term of the power dot product: `B_STATUS * MAX_STAT`.
pub const B_DOT: i128 = 3_000_000_000_000_000_000_000_000_000_000;

} // verus!
