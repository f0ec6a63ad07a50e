//! The memoizing layer: cached copies of every aggregate behind a
//! dirty-bit graph. Setters mark the aggregates a change invalidates;
//! getters recompute lazily and otherwise serve the cache. Caching is
//! never observable: a getter always returns exactly what the pure
//! calculator would compute from the current state.

use vstd::prelude::*;
use crate::calc::{UnitCalculator, rarity_param_spec, promotion_param_spec, base_param_spec,
    rank_equip_param_spec, unique_equip_param_spec, rarity_6_param_spec, story_param_spec,
    equip_param_total_spec, status_param_spec, skill_power_state_spec, power_spec,
    equip_all_spec, unequip_all_spec, watch_all_spec, watch_one_spec,
    lemma_rank_equip_frame, lemma_story_accum_frame};
use crate::cache::slot_level_wf;
use crate::equip::{EquipSlot, equip_next, UnlockRarity6Slot};
use crate::limits::{SCALE, MAX_STAT, MAX_LEVEL, B_RARITY, B_PROMOTION, B_BASE, B_EQUIP_ITEM,
    B_EQUIP_RAW, B_EQUIP, B_UNLOCK, B_STORY, B_STATUS, B_SKILL};
use crate::round::lemma_round_cy_bound;
use crate::state::{StoryGroup, UnitState};
use crate::status::{StatusVector, STATUS_LEN, seq_bounded, zero_status, lemma_abs_mul_bound};

verus! {

/// Which parts of a session state have changed since some reference
/// point; fresh trackers consider everything changed.
#[derive(Debug, Clone)]
pub struct UnitChangedState {
    /// Number of stars.
    pub rarity: bool,
    /// Level.
    pub level: bool,
    /// Promotion rank.
    pub promotion: bool,
    /// Skill levels.
    pub skill: bool,
    /// Equipment slots.
    pub equip_slot: bool,
    /// Unique equipment slot.
    pub unique_equip_slot: bool,
    /// Unlockable slots.
    pub unlock_rarity_6_slot: bool,
    /// Watched stories.
    pub story: bool,
}

impl Default for UnitChangedState {
    fn default() -> (r: Self)
        ensures
            r.rarity && r.level && r.promotion && r.skill && r.equip_slot
                && r.unique_equip_slot && r.unlock_rarity_6_slot && r.story,
    {
        UnitChangedState {
            rarity: true,
            level: true,
            promotion: true,
            skill: true,
            equip_slot: true,
            unique_equip_slot: true,
            unlock_rarity_6_slot: true,
            story: true,
        }
    }
}

/// The dirty bit of each memoized aggregate: true means the cached copy
/// may be stale and must be recomputed before use.
#[derive(Debug, Clone)]
pub struct UnitCalculatorNeedUpdate {
    pub power: bool,
    pub skill: bool,
    pub status: bool,
    pub base: bool,
    pub rarity: bool,
    pub promotion: bool,
    pub equip: bool,
    pub rank_equip: bool,
    pub unique: bool,
    pub rarity_6: bool,
    pub story: bool,
}

impl Default for UnitCalculatorNeedUpdate {
    /// Everything starts dirty: the first read always computes.
    fn default() -> (r: Self)
        ensures
            r == all_dirty(),
    {
        UnitCalculatorNeedUpdate {
            power: true,
            skill: true,
            status: true,
            base: true,
            rarity: true,
            promotion: true,
            equip: true,
            rank_equip: true,
            unique: true,
            rarity_6: true,
            story: true,
        }
    }
}

pub open spec fn all_dirty() -> UnitCalculatorNeedUpdate {
    UnitCalculatorNeedUpdate {
        power: true,
        skill: true,
        status: true,
        base: true,
        rarity: true,
        promotion: true,
        equip: true,
        rank_equip: true,
        unique: true,
        rarity_6: true,
        story: true,
    }
}

impl UnitCalculatorNeedUpdate {
    /// Clear every dirty bit.
    pub fn reset(&mut self)
        ensures
            !final(self).power && !final(self).skill && !final(self).status
                && !final(self).base && !final(self).rarity && !final(self).promotion
                && !final(self).equip && !final(self).rank_equip && !final(self).unique
                && !final(self).rarity_6 && !final(self).story,
    {
        self.power = false;
        self.skill = false;
        self.status = false;
        self.base = false;
        self.rarity = false;
        self.promotion = false;
        self.equip = false;
        self.rank_equip = false;
        self.unique = false;
        self.rarity_6 = false;
        self.story = false;
    }

    /// Mark the power aggregate dirty.
    fn set_power(&mut self)
        ensures
            *final(self) == (UnitCalculatorNeedUpdate { power: true, ..*old(self) }),
    {
        self.power = true;
    }

    /// Mark the skill power and its dependents dirty.
    fn set_skill(&mut self)
        ensures
            *final(self) == (UnitCalculatorNeedUpdate { skill: true, power: true, ..*old(self) }),
    {
        self.skill = true;
        self.set_power();
    }

    /// Mark the status parameter and its dependents dirty.
    fn set_status(&mut self)
        ensures
            *final(self) == (UnitCalculatorNeedUpdate { status: true, power: true, ..*old(self) }),
    {
        self.status = true;
        self.set_power();
    }

    /// Mark the base parameter and its dependents dirty.
    fn set_base(&mut self)
        ensures
            *final(self) == (UnitCalculatorNeedUpdate {
                base: true,
                status: true,
                power: true,
                ..*old(self)
            }),
    {
        self.base = true;
        self.set_status();
    }

    /// Mark the equipment parameter and its dependents dirty.
    fn set_equip(&mut self)
        ensures
            *final(self) == (UnitCalculatorNeedUpdate {
                equip: true,
                status: true,
                power: true,
                ..*old(self)
            }),
    {
        self.equip = true;
        self.set_status();
    }

    /// Mark the story parameter and its dependents dirty.
    fn set_story(&mut self)
        ensures
            *final(self) == (UnitCalculatorNeedUpdate {
                story: true,
                status: true,
                power: true,
                ..*old(self)
            }),
    {
        self.story = true;
        self.set_status();
    }

    /// Mark the rarity parameter and its dependents dirty.
    fn set_rarity(&mut self)
        ensures
            *final(self) == (UnitCalculatorNeedUpdate {
                rarity: true,
                base: true,
                status: true,
                power: true,
                ..*old(self)
            }),
    {
        self.rarity = true;
        self.set_base();
    }

    /// Mark the promotion parameter and its dependents dirty.
    fn set_promotion(&mut self)
        ensures
            *final(self) == (UnitCalculatorNeedUpdate {
                promotion: true,
                base: true,
                status: true,
                power: true,
                ..*old(self)
            }),
    {
        self.promotion = true;
        self.set_base();
    }

    /// Mark the rank equipment parameter and its dependents dirty.
    fn set_rank_equip(&mut self)
        ensures
            *final(self) == (UnitCalculatorNeedUpdate {
                rank_equip: true,
                equip: true,
                status: true,
                power: true,
                ..*old(self)
            }),
    {
        self.rank_equip = true;
        self.set_equip();
    }

    /// Mark the unique equipment parameter and its dependents dirty.
    fn set_unique(&mut self)
        ensures
            *final(self) == (UnitCalculatorNeedUpdate {
                unique: true,
                equip: true,
                status: true,
                power: true,
                ..*old(self)
            }),
    {
        self.unique = true;
        self.set_equip();
    }

    /// Mark the unlockable-slot parameter and its dependents dirty.
    fn set_rarity_6(&mut self)
        ensures
            *final(self) == (UnitCalculatorNeedUpdate {
                rarity_6: true,
                equip: true,
                status: true,
                power: true,
                ..*old(self)
            }),
    {
        self.rarity_6 = true;
        self.set_equip();
    }

    /// A level change invalidates the rarity parameter.
    pub fn on_level_change(&mut self)
        ensures
            *final(self) == (UnitCalculatorNeedUpdate {
                rarity: true,
                base: true,
                status: true,
                power: true,
                ..*old(self)
            }),
    {
        self.set_rarity();
    }

    /// A skill level change invalidates the skill power.
    pub fn on_skill_change(&mut self)
        ensures
            *final(self) == (UnitCalculatorNeedUpdate { skill: true, power: true, ..*old(self) }),
    {
        self.set_skill();
    }

    /// A rarity change invalidates the rarity parameter and, through the
    /// evolution thresholds, the skill power.
    pub fn on_rarity_change(&mut self)
        ensures
            *final(self) == (UnitCalculatorNeedUpdate {
                rarity: true,
                skill: true,
                base: true,
                status: true,
                power: true,
                ..*old(self)
            }),
    {
        self.set_rarity();
        self.set_skill();
    }

    /// A promotion change invalidates the promotion parameter, the rank
    /// equipment layout and, through the rank-up bonus, the rarity
    /// parameter.
    pub fn on_promotion_change(&mut self)
        ensures
            *final(self) == (UnitCalculatorNeedUpdate {
                promotion: true,
                rank_equip: true,
                rarity: true,
                base: true,
                equip: true,
                status: true,
                power: true,
                ..*old(self)
            }),
    {
        self.set_promotion();
        self.set_rank_equip();
        self.set_rarity();
    }

    /// An equipment change invalidates the rank equipment parameter.
    pub fn on_rank_equip_change(&mut self)
        ensures
            *final(self) == (UnitCalculatorNeedUpdate {
                rank_equip: true,
                equip: true,
                status: true,
                power: true,
                ..*old(self)
            }),
    {
        self.set_rank_equip();
    }

    /// A unique equipment change invalidates the unique parameter and,
    /// through the evolution condition, the skill power.
    pub fn on_unique_change(&mut self)
        ensures
            *final(self) == (UnitCalculatorNeedUpdate {
                unique: true,
                skill: true,
                equip: true,
                status: true,
                power: true,
                ..*old(self)
            }),
    {
        self.set_unique();
        self.set_skill();
    }

    /// An unlockable-slot change invalidates its parameter.
    pub fn on_rarity_6_change(&mut self)
        ensures
            *final(self) == (UnitCalculatorNeedUpdate {
                rarity_6: true,
                equip: true,
                status: true,
                power: true,
                ..*old(self)
            }),
    {
        self.set_rarity_6();
    }

    /// A story change invalidates the story parameter.
    pub fn on_story_change(&mut self)
        ensures
            *final(self) == (UnitCalculatorNeedUpdate {
                story: true,
                status: true,
                power: true,
                ..*old(self)
            }),
    {
        self.set_story();
    }
}

/// Cached copies of every aggregate.
#[derive(Debug, Clone)]
pub struct UnitMemo {
    pub power: i128,
    pub skill: i128,
    pub status: StatusVector,
    pub base: StatusVector,
    pub rarity: StatusVector,
    pub promotion: StatusVector,
    pub equip: StatusVector,
    pub rank_equip: StatusVector,
    pub unique: StatusVector,
    pub rarity_6: StatusVector,
    pub story: StatusVector,
}

impl Default for UnitMemo {
    fn default() -> (r: Self)
        ensures
            r.power == 0 && r.skill == 0,
            r.status@ == zero_status() && r.base@ == zero_status()
                && r.rarity@ == zero_status() && r.promotion@ == zero_status()
                && r.equip@ == zero_status() && r.rank_equip@ == zero_status()
                && r.unique@ == zero_status() && r.rarity_6@ == zero_status()
                && r.story@ == zero_status(),
    {
        UnitMemo {
            power: 0,
            skill: 0,
            status: StatusVector::zeros(),
            base: StatusVector::zeros(),
            rarity: StatusVector::zeros(),
            promotion: StatusVector::zeros(),
            equip: StatusVector::zeros(),
            rank_equip: StatusVector::zeros(),
            unique: StatusVector::zeros(),
            rarity_6: StatusVector::zeros(),
            story: StatusVector::zeros(),
        }
    }
}

/// A calculator with memoized aggregates.
pub struct MemorizedUnitCalculator<'a> {
    pub calculator: UnitCalculator<'a>,
    pub memo: UnitMemo,
    pub need_update: UnitCalculatorNeedUpdate,
}

impl<'a> MemorizedUnitCalculator<'a> {
    /// Every clean dirty bit vouches for its cached copy: the memo holds
    /// exactly what the pure calculator would compute from the state.
    pub open spec fn memo_wf(&self) -> bool {
        let c = *self.calculator.cache;
        let s = self.calculator.state;
        &&& (!self.need_update.rarity ==> self.memo.rarity.wf()
            && self.memo.rarity@ == rarity_param_spec(c, s)
            && seq_bounded(self.memo.rarity@, B_RARITY as int))
        &&& (!self.need_update.promotion ==> self.memo.promotion.wf()
            && self.memo.promotion@ == promotion_param_spec(c, s)
            && seq_bounded(self.memo.promotion@, B_PROMOTION as int))
        &&& (!self.need_update.base ==> self.memo.base.wf()
            && self.memo.base@ == base_param_spec(c, s)
            && seq_bounded(self.memo.base@, B_BASE as int))
        &&& (!self.need_update.rank_equip ==> self.memo.rank_equip.wf()
            && self.memo.rank_equip@ == rank_equip_param_spec(c, s)
            && seq_bounded(self.memo.rank_equip@, 6 * B_EQUIP_ITEM as int))
        &&& (!self.need_update.unique ==> self.memo.unique.wf()
            && self.memo.unique@ == unique_equip_param_spec(c, s)
            && seq_bounded(self.memo.unique@, B_EQUIP_ITEM as int))
        &&& (!self.need_update.rarity_6 ==> self.memo.rarity_6.wf()
            && self.memo.rarity_6@ == rarity_6_param_spec(c, s)
            && seq_bounded(self.memo.rarity_6@, B_UNLOCK as int))
        &&& (!self.need_update.equip ==> self.memo.equip.wf()
            && self.memo.equip@ == equip_param_total_spec(c, s)
            && seq_bounded(self.memo.equip@, B_EQUIP as int))
        &&& (!self.need_update.story ==> self.memo.story.wf()
            && self.memo.story@ == story_param_spec(c, s)
            && seq_bounded(self.memo.story@, B_STORY as int))
        &&& (!self.need_update.status ==> self.memo.status.wf()
            && self.memo.status@ == status_param_spec(c, s)
            && seq_bounded(self.memo.status@, B_STATUS as int))
        &&& (!self.need_update.skill ==> self.memo.skill == skill_power_state_spec(c, s)
            && -B_SKILL <= self.memo.skill <= B_SKILL)
        &&& (!self.need_update.power ==> self.memo.power == power_spec(c, s))
    }

    pub open spec fn wf(&self) -> bool {
        &&& self.calculator.wf()
        &&& self.memo_wf()
    }
}

impl<'a> UnitCalculator<'a> {
    /// Wrap this calculator in the memoizing layer; every aggregate
    /// starts dirty, so the first read of each one computes.
    pub fn memorized(self) -> (r: MemorizedUnitCalculator<'a>)
        requires
            self.wf(),
        ensures
            r.wf(),
            r.calculator == self,
            r.need_update == all_dirty(),
    {
        MemorizedUnitCalculator {
            calculator: self,
            memo: UnitMemo::default(),
            need_update: UnitCalculatorNeedUpdate::default(),
        }
    }
}

} // verus!

verus! {

/// Memoized getters: each one serves its cached copy when clean and
/// otherwise recomputes, caches and clears its dirty bit. Either way the
/// result is exactly the pure calculator's value for the current state.
impl<'a> MemorizedUnitCalculator<'a> {
    pub fn rarity_param(&mut self) -> (r: StatusVector)
        requires
            old(self).wf(),
        ensures
            final(self).wf(),
            final(self).calculator == old(self).calculator,
            r.wf(),
            r@ == rarity_param_spec(*old(self).calculator.cache, old(self).calculator.state),
            seq_bounded(r@, B_RARITY as int),
    {
        if self.need_update.rarity {
            let v = self.calculator.rarity_param();
            self.memo.rarity = v;
            self.need_update.rarity = false;
        }
        self.memo.rarity.duplicate()
    }

    pub fn promotion_param(&mut self) -> (r: StatusVector)
        requires
            old(self).wf(),
        ensures
            final(self).wf(),
            final(self).calculator == old(self).calculator,
            r.wf(),
            r@ == promotion_param_spec(*old(self).calculator.cache, old(self).calculator.state),
            seq_bounded(r@, B_PROMOTION as int),
    {
        if self.need_update.promotion {
            let v = self.calculator.promotion_param();
            self.memo.promotion = v;
            self.need_update.promotion = false;
        }
        self.memo.promotion.duplicate()
    }

    pub fn base_param(&mut self) -> (r: StatusVector)
        requires
            old(self).wf(),
        ensures
            final(self).wf(),
            final(self).calculator == old(self).calculator,
            r.wf(),
            r@ == base_param_spec(*old(self).calculator.cache, old(self).calculator.state),
            seq_bounded(r@, B_BASE as int),
    {
        if self.need_update.base {
            let a = self.rarity_param();
            let p = self.promotion_param();
            let sum = a.add(&p);
            let v = sum.round_vec();
            proof {
                assert forall|i: int| 0 <= i < STATUS_LEN implies
                    -(B_BASE as int) <= #[trigger] v@[i] <= B_BASE as int by {
                    lemma_round_cy_bound(sum@[i], (B_RARITY + B_PROMOTION) as int);
                }
            }
            self.memo.base = v;
            self.need_update.base = false;
        }
        self.memo.base.duplicate()
    }

    pub fn rank_equip_param(&mut self) -> (r: StatusVector)
        requires
            old(self).wf(),
        ensures
            final(self).wf(),
            final(self).calculator == old(self).calculator,
            r.wf(),
            r@ == rank_equip_param_spec(*old(self).calculator.cache, old(self).calculator.state),
            seq_bounded(r@, 6 * B_EQUIP_ITEM as int),
    {
        if self.need_update.rank_equip {
            let v = self.calculator.rank_equip_param();
            self.memo.rank_equip = v;
            self.need_update.rank_equip = false;
        }
        self.memo.rank_equip.duplicate()
    }

    /// Meaningful only for a unit that has a unique equipment.
    pub fn unique_equip_param(&mut self) -> (r: StatusVector)
        requires
            old(self).wf(),
            old(self).calculator.cache.unique_equip is Some,
        ensures
            final(self).wf(),
            final(self).calculator == old(self).calculator,
            r.wf(),
            r@ == unique_equip_param_spec(*old(self).calculator.cache, old(self).calculator.state),
            seq_bounded(r@, B_EQUIP_ITEM as int),
    {
        if self.need_update.unique {
            let v = self.calculator.unique_equip_param();
            self.memo.unique = v;
            self.need_update.unique = false;
        }
        self.memo.unique.duplicate()
    }

    /// Meaningful only for a unit that has unlockable-slot data.
    pub fn rarity_6_param(&mut self) -> (r: StatusVector)
        requires
            old(self).wf(),
            old(self).calculator.cache.unlock_rarity_6 is Some,
        ensures
            final(self).wf(),
            final(self).calculator == old(self).calculator,
            r.wf(),
            r@ == rarity_6_param_spec(*old(self).calculator.cache, old(self).calculator.state),
            seq_bounded(r@, B_UNLOCK as int),
    {
        if self.need_update.rarity_6 {
            let v = self.calculator.rarity_6_param();
            self.memo.rarity_6 = v;
            self.need_update.rarity_6 = false;
        }
        self.memo.rarity_6.duplicate()
    }

    pub fn story_param(&mut self) -> (r: StatusVector)
        requires
            old(self).wf(),
        ensures
            final(self).wf(),
            final(self).calculator == old(self).calculator,
            r.wf(),
            r@ == story_param_spec(*old(self).calculator.cache, old(self).calculator.state),
            seq_bounded(r@, B_STORY as int),
    {
        if self.need_update.story {
            let v = self.calculator.story_param();
            self.memo.story = v;
            self.need_update.story = false;
        }
        self.memo.story.duplicate()
    }

    #[verifier::rlimit(60)]
    pub fn equip_param(&mut self) -> (r: StatusVector)
        requires
            old(self).wf(),
        ensures
            final(self).wf(),
            final(self).calculator == old(self).calculator,
            r.wf(),
            r@ == equip_param_total_spec(*old(self).calculator.cache, old(self).calculator.state),
            seq_bounded(r@, B_EQUIP as int),
    {
        if self.need_update.equip {
            let mut rank = self.rank_equip_param();
            let has_unique = self.calculator.cache.unique_equip.is_some();
            if has_unique {
                let u = self.unique_equip_param();
                rank = rank.add(&u);
            }
            let ghost raw = rank@;
            let rounded = rank.round_vec();
            proof {
                assert forall|i: int| 0 <= i < STATUS_LEN implies
                    -(B_EQUIP_RAW as int / SCALE as int + 1) <= #[trigger] rounded@[i]
                        <= B_EQUIP_RAW as int / SCALE as int + 1 by {
                    lemma_round_cy_bound(raw[i], B_EQUIP_RAW as int);
                }
            }
            let has_unlock = self.calculator.cache.unlock_rarity_6.is_some();
            let v = if has_unlock {
                let r6 = self.rarity_6_param();
                rounded.add(&r6)
            } else {
                rounded
            };
            self.memo.equip = v;
            self.need_update.equip = false;
        }
        self.memo.equip.duplicate()
    }

    /// The total status parameter.
    pub fn param(&mut self) -> (r: StatusVector)
        requires
            old(self).wf(),
        ensures
            final(self).wf(),
            final(self).calculator == old(self).calculator,
            r.wf(),
            r@ == status_param_spec(*old(self).calculator.cache, old(self).calculator.state),
            seq_bounded(r@, B_STATUS as int),
    {
        if self.need_update.status {
            let b = self.base_param();
            let e = self.equip_param();
            let st = self.story_param();
            let v = b.add(&e).add(&st);
            self.memo.status = v;
            self.need_update.status = false;
        }
        self.memo.status.duplicate()
    }

    pub fn skill_power(&mut self) -> (r: i128)
        requires
            old(self).wf(),
        ensures
            final(self).wf(),
            final(self).calculator == old(self).calculator,
            r == skill_power_state_spec(*old(self).calculator.cache, old(self).calculator.state),
            -B_SKILL <= r <= B_SKILL,
    {
        if self.need_update.skill {
            let v = self.calculator.skill_power();
            self.memo.skill = v;
            self.need_update.skill = false;
        }
        self.memo.skill
    }

    /// The power score, a raw value at `SCALE` squared. Reading it after
    /// any sequence of setters reflects every change.
    pub fn power(&mut self) -> (r: i128)
        requires
            old(self).wf(),
        ensures
            final(self).wf(),
            final(self).calculator == old(self).calculator,
            r == power_spec(*old(self).calculator.cache, old(self).calculator.state),
    {
        if self.need_update.power {
            let sp = self.skill_power();
            let st = self.param();
            let d = st.dot(&self.calculator.cache.status_coefficient_cache);
            proof {
                lemma_abs_mul_bound(sp as int,
                    self.calculator.cache.status_coefficient.skill_lv_coefficient as int,
                    B_SKILL as int, MAX_STAT as int);
            }
            let v = sp * self.calculator.cache.status_coefficient.skill_lv_coefficient
                + d * SCALE;
            self.memo.power = v;
            self.need_update.power = false;
        }
        self.memo.power
    }
}

} // verus!

verus! {

/// Memoized setters: each one marks exactly the aggregates its change
/// invalidates, then applies the change to the underlying state. Every
/// cached aggregate that stays clean still matches the new state.
impl<'a> MemorizedUnitCalculator<'a> {
    /// Set the unit's level.
    pub fn set_level(self, level: i32) -> (r: Self)
        requires
            self.wf(),
            0 <= level <= MAX_LEVEL,
        ensures
            r.wf(),
            r.calculator.cache == self.calculator.cache,
            r.calculator.state == (UnitState { level, ..self.calculator.state }),
    {
        let MemorizedUnitCalculator { calculator, memo, mut need_update } = self;
        need_update.on_level_change();
        let calculator = calculator.set_level(level);
        let r = MemorizedUnitCalculator { calculator, memo, need_update };
        proof {
            let c = *r.calculator.cache;
            lemma_rank_equip_frame(c, self.calculator.state, r.calculator.state, 6);
            lemma_story_accum_frame(c, self.calculator.state, r.calculator.state,
                c.story@.len() as int);
        }
        r
    }

    /// Set every skill to `level`; skills never outgrow the unit's level.
    pub fn set_skill_level(self, level: i32) -> (r: Self)
        requires
            self.wf(),
            0 <= level,
            level <= self.calculator.state.level,
        ensures
            r.wf(),
            r.calculator.cache == self.calculator.cache,
            r.calculator.state == (UnitState { skill: r.calculator.state.skill, ..self.calculator.state }),
            r.calculator.state.skill.union_burst@ == crate::skill::set_levels(self.calculator.state.skill.union_burst@, level),
            r.calculator.state.skill.main_skill@ == crate::skill::set_levels(self.calculator.state.skill.main_skill@, level),
            r.calculator.state.skill.ex_skill@ == crate::skill::set_levels(self.calculator.state.skill.ex_skill@, level),
            r.calculator.state.skill.free_skill@ == crate::skill::set_levels(self.calculator.state.skill.free_skill@, level),
    {
        let MemorizedUnitCalculator { calculator, memo, mut need_update } = self;
        need_update.on_skill_change();
        let calculator = calculator.set_skill_level(level);
        let r = MemorizedUnitCalculator { calculator, memo, need_update };
        proof {
            let c = *r.calculator.cache;
            lemma_rank_equip_frame(c, self.calculator.state, r.calculator.state, 6);
            lemma_story_accum_frame(c, self.calculator.state, r.calculator.state,
                c.story@.len() as int);
        }
        r
    }

    /// Clear the three unlockable slots.
    pub fn wear_unlock_rarity_6_equipment(self) -> (r: Self)
        requires
            self.wf(),
            self.calculator.state.unlock_rarity_6_slot is Some,
        ensures
            r.wf(),
            r.calculator.cache == self.calculator.cache,
            r.calculator.state == (UnitState {
                unlock_rarity_6_slot: Some(UnlockRarity6Slot {
                    slot_1_level: 0,
                    slot_2_level: 0,
                    slot_3_level: 0,
                }),
                ..self.calculator.state
            }),
    {
        let MemorizedUnitCalculator { calculator, memo, mut need_update } = self;
        need_update.on_rarity_6_change();
        let calculator = calculator.wear_unlock_rarity_6_equipment();
        let r = MemorizedUnitCalculator { calculator, memo, need_update };
        proof {
            let c = *r.calculator.cache;
            lemma_rank_equip_frame(c, self.calculator.state, r.calculator.state, 6);
            lemma_story_accum_frame(c, self.calculator.state, r.calculator.state,
                c.story@.len() as int);
        }
        r
    }

    /// Set the unit's rarity.
    pub fn set_rarity(self, rarity: i32) -> (r: Self)
        requires
            self.wf(),
            1 <= rarity <= self.calculator.cache.rarity@.len(),
            rarity >= 6 ==> self.calculator.state.unlock_rarity_6_slot is Some,
        ensures
            r.wf(),
            r.calculator.cache == self.calculator.cache,
            r.calculator.state == (UnitState { rarity, ..self.calculator.state }),
    {
        let MemorizedUnitCalculator { calculator, memo, mut need_update } = self;
        need_update.on_rarity_change();
        let calculator = calculator.set_rarity(rarity);
        let r = MemorizedUnitCalculator { calculator, memo, need_update };
        proof {
            let c = *r.calculator.cache;
            lemma_rank_equip_frame(c, self.calculator.state, r.calculator.state, 6);
            lemma_story_accum_frame(c, self.calculator.state, r.calculator.state,
                c.story@.len() as int);
        }
        r
    }

    /// Set the promotion rank; the slots take the new rank's layout.
    pub fn set_promotion(self, promotion: i32) -> (r: Self)
        requires
            self.wf(),
            1 <= promotion <= self.calculator.cache.promotion@.len(),
            self.calculator.cache.promotion@[promotion - 1].status is Some,
        ensures
            r.wf(),
            r.calculator.cache == self.calculator.cache,
            r.calculator.state == (UnitState {
                promotion,
                equip_slot: r.calculator.state.equip_slot,
                ..self.calculator.state
            }),
            r.calculator.state.equip_slot@.len() == 6,
            forall|j: int| 0 <= j < 6 ==> r.calculator.state.equip_slot@[j]
                == crate::cache::slot_of(#[trigger] self.calculator.cache.promotion@[promotion - 1].equipments@[j]),
    {
        let MemorizedUnitCalculator { calculator, memo, mut need_update } = self;
        need_update.on_promotion_change();
        let calculator = calculator.set_promotion(promotion);
        let r = MemorizedUnitCalculator { calculator, memo, need_update };
        proof {
            let c = *r.calculator.cache;
            lemma_story_accum_frame(c, self.calculator.state, r.calculator.state,
                c.story@.len() as int);
        }
        r
    }

    /// Wear every defined equipment of the current rank at `level`.
    pub fn wear_all_equipments(self, level: i32) -> (r: Self)
        requires
            self.wf(),
            0 <= level <= MAX_LEVEL,
        ensures
            r.wf(),
            r.calculator.cache == self.calculator.cache,
            r.calculator.state == (UnitState { equip_slot: r.calculator.state.equip_slot, ..self.calculator.state }),
            r.calculator.state.equip_slot@ == equip_all_spec(self.calculator.state.equip_slot@, level),
    {
        let MemorizedUnitCalculator { calculator, memo, mut need_update } = self;
        need_update.on_rank_equip_change();
        let calculator = calculator.wear_all_equipments(level);
        let r = MemorizedUnitCalculator { calculator, memo, need_update };
        proof {
            let c = *r.calculator.cache;
            lemma_story_accum_frame(c, self.calculator.state, r.calculator.state,
                c.story@.len() as int);
        }
        r
    }

    /// Wear every defined equipment of the current rank, unenhanced.
    pub fn wear_all_equipments_0(self) -> (r: Self)
        requires
            self.wf(),
        ensures
            r.wf(),
            r.calculator.cache == self.calculator.cache,
            r.calculator.state == (UnitState { equip_slot: r.calculator.state.equip_slot, ..self.calculator.state }),
            r.calculator.state.equip_slot@ == equip_all_spec(self.calculator.state.equip_slot@, 0),
    {
        let MemorizedUnitCalculator { calculator, memo, mut need_update } = self;
        need_update.on_rank_equip_change();
        let calculator = calculator.wear_all_equipments_0();
        let r = MemorizedUnitCalculator { calculator, memo, need_update };
        proof {
            let c = *r.calculator.cache;
            lemma_story_accum_frame(c, self.calculator.state, r.calculator.state,
                c.story@.len() as int);
        }
        r
    }

    /// Take every equipment of the current rank off.
    pub fn unequip_all_equipments(self) -> (r: Self)
        requires
            self.wf(),
        ensures
            r.wf(),
            r.calculator.cache == self.calculator.cache,
            r.calculator.state == (UnitState { equip_slot: r.calculator.state.equip_slot, ..self.calculator.state }),
            r.calculator.state.equip_slot@ == unequip_all_spec(self.calculator.state.equip_slot@),
    {
        let MemorizedUnitCalculator { calculator, memo, mut need_update } = self;
        need_update.on_rank_equip_change();
        let calculator = calculator.unequip_all_equipments();
        let r = MemorizedUnitCalculator { calculator, memo, need_update };
        proof {
            let c = *r.calculator.cache;
            lemma_story_accum_frame(c, self.calculator.state, r.calculator.state,
                c.story@.len() as int);
        }
        r
    }

    /// Wear the unique equipment at `level`.
    pub fn wear_unique_equipment(self, level: i32) -> (r: Self)
        requires
            self.wf(),
            self.calculator.cache.unique_equip is Some,
            0 <= level <= MAX_LEVEL,
        ensures
            r.wf(),
            r.calculator.cache == self.calculator.cache,
            r.calculator.state == (UnitState { unique_equip_slot: r.calculator.state.unique_equip_slot, ..self.calculator.state }),
            r.calculator.state.unique_equip_slot@.len() == 1,
            r.calculator.state.unique_equip_slot@[0]
                == equip_next(self.calculator.state.unique_equip_slot@[0], level),
    {
        let MemorizedUnitCalculator { calculator, memo, mut need_update } = self;
        need_update.on_unique_change();
        let calculator = calculator.wear_unique_equipment(level);
        let r = MemorizedUnitCalculator { calculator, memo, need_update };
        proof {
            let c = *r.calculator.cache;
            lemma_rank_equip_frame(c, self.calculator.state, r.calculator.state, 6);
            lemma_story_accum_frame(c, self.calculator.state, r.calculator.state,
                c.story@.len() as int);
        }
        r
    }

    /// Watch every story of every group.
    pub fn watch_all_stories(self) -> (r: Self)
        requires
            self.wf(),
        ensures
            r.wf(),
            r.calculator.cache == self.calculator.cache,
            r.calculator.state == (UnitState { story: r.calculator.state.story, ..self.calculator.state }),
            r.calculator.state.story@ == watch_all_spec(self.calculator.state.story@),
    {
        let MemorizedUnitCalculator { calculator, memo, mut need_update } = self;
        need_update.on_story_change();
        let calculator = calculator.watch_all_stories();
        let r = MemorizedUnitCalculator { calculator, memo, need_update };
        proof {
            let c = *r.calculator.cache;
            lemma_rank_equip_frame(c, self.calculator.state, r.calculator.state, 6);
        }
        r
    }

    /// Set the watch progress of the group with id `story_id`.
    pub fn watch_story(self, story_id: i64, watched_count: usize) -> (r: Self)
        requires
            self.wf(),
            exists|i: int| 0 <= i < self.calculator.state.story@.len()
                && (#[trigger] self.calculator.state.story@[i]).story_group_id == story_id,
            forall|i: int| 0 <= i < self.calculator.state.story@.len()
                && (#[trigger] self.calculator.state.story@[i]).story_group_id == story_id
                ==> watched_count <= self.calculator.state.story@[i].total,
        ensures
            r.wf(),
            r.calculator.cache == self.calculator.cache,
            r.calculator.state == (UnitState { story: r.calculator.state.story, ..self.calculator.state }),
            r.calculator.state.story@ == watch_one_spec(self.calculator.state.story@, story_id, watched_count),
    {
        let MemorizedUnitCalculator { calculator, memo, mut need_update } = self;
        need_update.on_story_change();
        let calculator = calculator.watch_story(story_id, watched_count);
        let r = MemorizedUnitCalculator { calculator, memo, need_update };
        proof {
            let c = *r.calculator.cache;
            lemma_rank_equip_frame(c, self.calculator.state, r.calculator.state, 6);
        }
        r
    }

    /// Replace one equipment slot outright.
    pub fn set_equipment(self, slot_id: usize, slot: EquipSlot) -> (r: Self)
        requires
            self.wf(),
            slot_id < 6,
            slot_level_wf(slot),
            self.calculator.cache.promotion@[self.calculator.state.promotion - 1]
                .equipments@[slot_id as int] is None ==> slot is Empty,
        ensures
            r.wf(),
            r.calculator.cache == self.calculator.cache,
            r.calculator.state == (UnitState { equip_slot: r.calculator.state.equip_slot, ..self.calculator.state }),
            r.calculator.state.equip_slot@
                == self.calculator.state.equip_slot@.update(slot_id as int, slot),
    {
        let MemorizedUnitCalculator { calculator, memo, mut need_update } = self;
        need_update.on_rank_equip_change();
        let calculator = calculator.set_equipment(slot_id, slot);
        let r = MemorizedUnitCalculator { calculator, memo, need_update };
        proof {
            let c = *r.calculator.cache;
            lemma_story_accum_frame(c, self.calculator.state, r.calculator.state,
                c.story@.len() as int);
        }
        r
    }

    /// Replace the whole equipment-slot array.
    pub fn set_equipments(self, equipments: Vec<EquipSlot>) -> (r: Self)
        requires
            self.wf(),
            equipments@.len() == 6,
            forall|j: int| 0 <= j < 6 ==> slot_level_wf(#[trigger] equipments@[j]),
            forall|j: int| 0 <= j < 6 ==>
                (self.calculator.cache.promotion@[self.calculator.state.promotion - 1]
                    .equipments@[j] is None ==> #[trigger] equipments@[j] is Empty),
        ensures
            r.wf(),
            r.calculator.cache == self.calculator.cache,
            r.calculator.state == (UnitState { equip_slot: r.calculator.state.equip_slot, ..self.calculator.state }),
            r.calculator.state.equip_slot@ == equipments@,
    {
        let MemorizedUnitCalculator { calculator, memo, mut need_update } = self;
        need_update.on_rank_equip_change();
        let calculator = calculator.set_equipments(equipments);
        let r = MemorizedUnitCalculator { calculator, memo, need_update };
        proof {
            let c = *r.calculator.cache;
            lemma_story_accum_frame(c, self.calculator.state, r.calculator.state,
                c.story@.len() as int);
        }
        r
    }

    /// Set the unit's star count (an alias for the rarity).
    pub fn set_star(self, star: i32) -> (r: Self)
        requires
            self.wf(),
            1 <= star <= self.calculator.cache.rarity@.len(),
            star >= 6 ==> self.calculator.state.unlock_rarity_6_slot is Some,
        ensures
            r.wf(),
            r.calculator.cache == self.calculator.cache,
            r.calculator.state == (UnitState { rarity: star, ..self.calculator.state }),
    {
        let MemorizedUnitCalculator { calculator, memo, mut need_update } = self;
        need_update.on_rarity_change();
        let calculator = calculator.set_rarity(star);
        let r = MemorizedUnitCalculator { calculator, memo, need_update };
        proof {
            let c = *r.calculator.cache;
            lemma_rank_equip_frame(c, self.calculator.state, r.calculator.state, 6);
            lemma_story_accum_frame(c, self.calculator.state, r.calculator.state,
                c.story@.len() as int);
        }
        r
    }

    /// Set the promotion rank (an alias).
    pub fn set_rank(self, rank: i32) -> (r: Self)
        requires
            self.wf(),
            1 <= rank <= self.calculator.cache.promotion@.len(),
            self.calculator.cache.promotion@[rank - 1].status is Some,
        ensures
            r.wf(),
            r.calculator.cache == self.calculator.cache,
            r.calculator.state == (UnitState {
                promotion: rank,
                equip_slot: r.calculator.state.equip_slot,
                ..self.calculator.state
            }),
    {
        let MemorizedUnitCalculator { calculator, memo, mut need_update } = self;
        need_update.on_promotion_change();
        let calculator = calculator.set_promotion(rank);
        let r = MemorizedUnitCalculator { calculator, memo, need_update };
        proof {
            let c = *r.calculator.cache;
            lemma_story_accum_frame(c, self.calculator.state, r.calculator.state,
                c.story@.len() as int);
        }
        r
    }

    /// Set the unit's level and every skill's level together.
    pub fn set_all_level(self, level: i32) -> (r: Self)
        requires
            self.wf(),
            0 <= level <= MAX_LEVEL,
        ensures
            r.wf(),
            r.calculator.cache == self.calculator.cache,
            r.calculator.state == (UnitState {
                level,
                skill: r.calculator.state.skill,
                ..self.calculator.state
            }),
            r.calculator.state.skill.union_burst@ == crate::skill::set_levels(self.calculator.state.skill.union_burst@, level),
            r.calculator.state.skill.main_skill@ == crate::skill::set_levels(self.calculator.state.skill.main_skill@, level),
            r.calculator.state.skill.ex_skill@ == crate::skill::set_levels(self.calculator.state.skill.ex_skill@, level),
            r.calculator.state.skill.free_skill@ == crate::skill::set_levels(self.calculator.state.skill.free_skill@, level),
    {
        self.set_level(level).set_skill_level(level)
    }

}

} // verus!

verus! {

impl<'a> MemorizedUnitCalculator<'a> {
    /// Apply several watch operations, each setting one group's progress,
    /// in the order given.
    pub fn watch_stories(self, stories: &Vec<(i64, usize)>) -> (r: Self)
        requires
            self.wf(),
            forall|k: int| 0 <= k < stories@.len() ==> crate::calc::group_present(
                self.calculator.state.story@, (#[trigger] stories@[k]).0),
            forall|k: int| 0 <= k < stories@.len() ==> crate::calc::count_fits(
                self.calculator.state.story@, (#[trigger] stories@[k]).0, stories@[k].1),
        ensures
            r.wf(),
            r.calculator.cache == self.calculator.cache,
            r.calculator.state == (UnitState {
                story: r.calculator.state.story,
                ..self.calculator.state
            }),
            r.calculator.state.story@ == crate::calc::watch_many_spec(
                self.calculator.state.story@, stories@),
    {
        let mut this = self;
        let n = stories.len();
        let mut k: usize = 0;
        while k < n
            invariant
                k <= n,
                n == stories@.len(),
                this.wf(),
                this.calculator.cache == self.calculator.cache,
                this.calculator.state == (UnitState {
                    story: this.calculator.state.story,
                    ..self.calculator.state
                }),
                this.calculator.state.story@ == crate::calc::watch_many_prefix(
                    self.calculator.state.story@, stories@, k as int),
                this.calculator.state.story@.len() == self.calculator.state.story@.len(),
                forall|i: int| 0 <= i < self.calculator.state.story@.len() ==> {
                    &&& (#[trigger] this.calculator.state.story@[i]).story_group_id
                        == self.calculator.state.story@[i].story_group_id
                    &&& this.calculator.state.story@[i].total
                        == self.calculator.state.story@[i].total
                },
            decreases n - k,
        {
            let (id, w) = stories[k];
            proof {
                assert(crate::calc::group_present(self.calculator.state.story@, id));
                let wi = choose|i: int| 0 <= i < self.calculator.state.story@.len()
                    && (#[trigger] self.calculator.state.story@[i]).story_group_id == id;
                assert(this.calculator.state.story@[wi].story_group_id == id);
                assert(crate::calc::count_fits(self.calculator.state.story@, id, w));
                assert forall|i: int| 0 <= i < this.calculator.state.story@.len()
                    && (#[trigger] this.calculator.state.story@[i]).story_group_id == id
                    implies w <= this.calculator.state.story@[i].total by {
                    assert(self.calculator.state.story@[i].story_group_id == id);
                }
            }
            let ghost before = this.calculator.state.story@;
            this = this.watch_story(id, w);
            proof {
                assert forall|i: int| 0 <= i < self.calculator.state.story@.len() implies {
                    &&& (#[trigger] this.calculator.state.story@[i]).story_group_id
                        == self.calculator.state.story@[i].story_group_id
                    &&& this.calculator.state.story@[i].total
                        == self.calculator.state.story@[i].total
                } by {
                    assert(this.calculator.state.story@[i] == if before[i].story_group_id == id {
                        StoryGroup { watched: w, ..before[i] }
                    } else {
                        before[i]
                    });
                }
            }
            k = k + 1;
        }
        this
    }
}

} // verus!
