//! The pure derivation functions: each aggregate of the power formula as
//! a function of the immutable cache and the session state.

use vstd::prelude::*;
use crate::cache::{UnitCache, state_wf, slot_of, slot_level_wf};
use crate::data::{equip_param_spec, story_prefix};
use crate::equip::{EquipSlot, equip_next, unequip_next, UnlockRarity6Slot};
use crate::limits::{SCALE, MAX_STAT, MAX_LEVEL, B_RARITY, B_PROMOTION, B_BASE, B_EQUIP_ITEM,
    B_EQUIP_RAW, B_EQUIP, B_UNLOCK, B_STORY, B_STORY_GROUP, B_SKILL, B_STATUS};
use crate::round::lemma_round_cy_bound;
use crate::skill::{skill_power_spec, skill_power_of};
use crate::state::{StoryGroup, UnitState};
use crate::status::{StatusVector, STATUS_LEN, seq_add, seq_scale, seq_emul, seq_round,
    seq_bounded, zero_status, dot_spec, fits_i128, lemma_abs_mul_bound};

verus! {

/// The per-rank multiplier vector of the growth bonus: the first five
/// slots scale with the rank, the rest stay at one.
pub open spec fn rank_up_bonus_at(rank: int, slot: int) -> int {
    if slot < 5 {
        rank
    } else {
        1
    }
}

pub open spec fn rank_up_bonus_spec(rank: int) -> Seq<int> {
    Seq::new(STATUS_LEN as nat, |slot: int| rank_up_bonus_at(rank, slot))
}

/// Compute the per-rank multiplier vector. The same formula serves every
/// rank, small or large.
pub fn rank_up_bonus(rank: i32) -> (r: StatusVector)
    requires
        0 <= rank <= MAX_LEVEL,
    ensures
        r.wf(),
        r@ == rank_up_bonus_spec(rank as int),
        seq_bounded(r@, MAX_LEVEL as int),
{
    let mut v: Vec<i128> = Vec::new();
    let mut i: usize = 0;
    while i < STATUS_LEN
        invariant
            i <= STATUS_LEN,
            v@.len() == i,
            forall|j: int| 0 <= j < i ==> v@[j] as int == rank_up_bonus_at(rank as int, j),
        decreases STATUS_LEN - i,
    {
        if i < 5 {
            v.push(rank as i128);
        } else {
            v.push(1);
        }
        i = i + 1;
    }
    let r = StatusVector { v };
    assert(r@ =~= rank_up_bonus_spec(rank as int));
    r
}

/// Rarity parameter: base stats of the current rarity, plus growth per
/// level, plus growth weighted by the rank-up multiplier.
pub open spec fn rarity_param_spec(c: UnitCache, s: UnitState) -> Seq<int> {
    let r = c.rarity@[s.rarity - 1];
    seq_add(seq_add(r.status@, seq_scale(r.growth@, s.level as int)),
        seq_emul(r.growth@, rank_up_bonus_spec(s.promotion as int)))
}

/// Promotion parameter: the rank's flat stats plus its optional bonus.
pub open spec fn promotion_param_spec(c: UnitCache, s: UnitState) -> Seq<int> {
    let p = c.promotion@[s.promotion - 1];
    match p.bonus {
        Option::Some(b) => seq_add(p.status->Some_0@, b@),
        Option::None => p.status->Some_0@,
    }
}

/// Base parameter: rarity plus promotion, rounded per slot.
pub open spec fn base_param_spec(c: UnitCache, s: UnitState) -> Seq<int> {
    seq_round(seq_add(rarity_param_spec(c, s), promotion_param_spec(c, s)))
}

/// What one worn equipment slot contributes: its equipment's stats at
/// the worn enhancement level, or nothing when unworn or undefined.
pub open spec fn slot_contrib_spec(c: UnitCache, s: UnitState, j: int) -> Seq<int> {
    let e = c.promotion@[s.promotion - 1].equipments@[j];
    match (e, s.equip_slot@[j]) {
        (Option::Some(e), EquipSlot::Equipped { enhancement_level, .. }) =>
            equip_param_spec(e.data@, e.enhance_rate@, enhancement_level as int),
        _ => zero_status(),
    }
}

pub open spec fn rank_equip_prefix_spec(c: UnitCache, s: UnitState, j: int) -> Seq<int>
    decreases j,
{
    if j <= 0 {
        zero_status()
    } else {
        seq_add(rank_equip_prefix_spec(c, s, j - 1), slot_contrib_spec(c, s, j - 1))
    }
}

/// Equipment parameter of the promotion rank: the sum over the six slots.
pub open spec fn rank_equip_param_spec(c: UnitCache, s: UnitState) -> Seq<int> {
    rank_equip_prefix_spec(c, s, 6)
}

/// Unique equipment parameter: its stats at the worn level, or nothing
/// while it stays unworn.
pub open spec fn unique_equip_param_spec(c: UnitCache, s: UnitState) -> Seq<int> {
    match s.unique_equip_slot@[0] {
        EquipSlot::Equipped { enhancement_level, .. } => equip_param_spec(
            c.unique_equip->Some_0.status@, c.unique_equip->Some_0.enhance_rate@,
            enhancement_level - 1),
        _ => zero_status(),
    }
}

/// Unlockable-slot parameter at the state's three slot levels.
pub open spec fn rarity_6_param_spec(c: UnitCache, s: UnitState) -> Seq<int> {
    let sl = s.unlock_rarity_6_slot->Some_0;
    UnitCache::unlock_param_spec(c.unlock_rarity_6->Some_0@,
        seq![sl.slot_1_level, sl.slot_2_level, sl.slot_3_level])
}

/// Total equipment parameter: worn slots and the unique equipment
/// accumulate before rounding; the unlockable-slot bonus, already
/// integral, joins after.
pub open spec fn equip_param_total_spec(c: UnitCache, s: UnitState) -> Seq<int> {
    let raw = if c.unique_equip is Some {
        seq_add(rank_equip_param_spec(c, s), unique_equip_param_spec(c, s))
    } else {
        rank_equip_param_spec(c, s)
    };
    let rounded = seq_round(raw);
    if c.unlock_rarity_6 is Some {
        seq_add(rounded, rarity_6_param_spec(c, s))
    } else {
        rounded
    }
}

pub open spec fn story_accum_spec(c: UnitCache, s: UnitState, i: int) -> Seq<int>
    decreases i,
{
    if i <= 0 {
        zero_status()
    } else {
        seq_add(story_accum_spec(c, s, i - 1),
            story_prefix(c.story@[i - 1].1.0@, s.story@[i - 1].watched as int))
    }
}

/// Story parameter: over every group, the bonus of the watched prefix.
pub open spec fn story_param_spec(c: UnitCache, s: UnitState) -> Seq<int> {
    story_accum_spec(c, s, c.story@.len() as int)
}

/// Total status parameter: base, equipment and story bonuses.
pub open spec fn status_param_spec(c: UnitCache, s: UnitState) -> Seq<int> {
    seq_add(seq_add(base_param_spec(c, s), equip_param_total_spec(c, s)),
        story_param_spec(c, s))
}

/// Whether the unique equipment is currently worn.
pub open spec fn is_unique_equipped_spec(c: UnitCache, s: UnitState) -> bool {
    c.unique_equip is Some && s.unique_equip_slot@[0] is Equipped
}

/// Skill power of the current state.
pub open spec fn skill_power_state_spec(c: UnitCache, s: UnitState) -> int {
    skill_power_spec(c.status_coefficient, s.skill, s.rarity as int,
        is_unique_equipped_spec(c, s))
}

/// The power score, a raw value at `SCALE` squared: skill power times the
/// skill level coefficient, plus the status parameter weighted by the
/// per-slot coefficient vector.
pub open spec fn power_spec(c: UnitCache, s: UnitState) -> int {
    skill_power_state_spec(c, s) * c.status_coefficient.skill_lv_coefficient
        + dot_spec(status_param_spec(c, s), c.status_coefficient.weights@) * SCALE
}

/// Calculates one unit's power from an immutable cache and an owned
/// session state.
pub struct UnitCalculator<'a> {
    pub cache: &'a UnitCache,
    pub state: UnitState,
}

impl<'a> UnitCalculator<'a> {
    pub open spec fn wf(&self) -> bool {
        &&& self.cache.wf()
        &&& state_wf(*self.cache, self.state)
    }

    /// A calculator over `cache`, starting from the default state.
    pub fn new(cache: &'a UnitCache) -> (r: Self)
        requires
            cache.wf(),
            cache.promotion@[0].status is Some,
        ensures
            r.wf(),
            r.cache == cache,
            r.state.rarity == 1,
            r.state.level == 1,
            r.state.promotion == 1,
            forall|i: int| 0 <= i < r.state.story@.len() ==> (#[trigger] r.state.story@[i]).watched == 0,
    {
        UnitCalculator { cache, state: cache.unit_state() }
    }

    /// Rarity parameter of the current state.
    pub fn rarity_param(&self) -> (r: StatusVector)
        requires
            self.wf(),
        ensures
            r.wf(),
            r@ == rarity_param_spec(*self.cache, self.state),
            seq_bounded(r@, B_RARITY as int),
    {
        let rc = &self.cache.rarity[(self.state.rarity - 1) as usize];
        proof {
            assert forall|i: int| 0 <= i < STATUS_LEN implies
                fits_i128(#[trigger] rc.growth@[i] * self.state.level as int)
                && -(MAX_STAT as int * MAX_LEVEL as int) <= rc.growth@[i] * self.state.level as int
                    <= MAX_STAT as int * MAX_LEVEL as int by {
                lemma_abs_mul_bound(rc.growth@[i], self.state.level as int,
                    MAX_STAT as int, MAX_LEVEL as int);
            }
        }
        let grown = rc.growth.scale_mul(self.state.level as i128);
        let a = rc.status.add(&grown);
        let bonus = rank_up_bonus(self.state.promotion);
        proof {
            assert forall|i: int| 0 <= i < STATUS_LEN implies
                fits_i128(#[trigger] rc.growth@[i] * bonus@[i])
                && -(MAX_STAT as int * MAX_LEVEL as int) <= rc.growth@[i] * bonus@[i]
                    <= MAX_STAT as int * MAX_LEVEL as int by {
                lemma_abs_mul_bound(rc.growth@[i], bonus@[i], MAX_STAT as int, MAX_LEVEL as int);
            }
        }
        let ranked = rc.growth.component_mul(&bonus);
        let r = a.add(&ranked);
        r
    }

    /// Promotion parameter of the current rank.
    pub fn promotion_param(&self) -> (r: StatusVector)
        requires
            self.wf(),
        ensures
            r.wf(),
            r@ == promotion_param_spec(*self.cache, self.state),
            seq_bounded(r@, B_PROMOTION as int),
    {
        let p = &self.cache.promotion[(self.state.promotion - 1) as usize];
        match (&p.status, &p.bonus) {
            (Option::Some(st), Option::Some(b)) => st.add(b),
            (Option::Some(st), Option::None) => {
                let r = st.add(&StatusVector::zeros());
                assert(r@ =~= p.status->Some_0@);
                r
            },
            _ => {
                proof {
                    assert(false);
                }
                StatusVector::zeros()
            },
        }
    }

    /// Base parameter: rarity plus promotion, rounded to integers.
    pub fn base_param(&self) -> (r: StatusVector)
        requires
            self.wf(),
        ensures
            r.wf(),
            r@ == base_param_spec(*self.cache, self.state),
            seq_bounded(r@, B_BASE as int),
    {
        let a = self.rarity_param();
        let b = self.promotion_param();
        let sum = a.add(&b);
        let r = sum.round_vec();
        proof {
            assert forall|i: int| 0 <= i < STATUS_LEN implies
                -(B_BASE as int) <= #[trigger] r@[i] <= B_BASE as int by {
                lemma_round_cy_bound(sum@[i], (B_RARITY + B_PROMOTION) as int);
            }
        }
        r
    }

    /// Equipment parameter of the six promotion slots.
    pub fn rank_equip_param(&self) -> (r: StatusVector)
        requires
            self.wf(),
        ensures
            r.wf(),
            r@ == rank_equip_param_spec(*self.cache, self.state),
            seq_bounded(r@, 6 * B_EQUIP_ITEM as int),
    {
        let ghost c = *self.cache;
        let ghost s = self.state;
        let promotion = &self.cache.promotion[(self.state.promotion - 1) as usize];
        let mut status = StatusVector::zeros();
        let mut j: usize = 0;
        while j < 6
            invariant
                j <= 6,
                status.wf(),
                status@ == rank_equip_prefix_spec(c, s, j as int),
                seq_bounded(status@, (j as int) * (B_EQUIP_ITEM as int)),
            decreases 6 - j,
        {
            match (&promotion.equipments[j], &self.state.equip_slot[j]) {
                (Option::Some(e), EquipSlot::Equipped { enhancement_level, .. }) => {
                    let p = e.param(*enhancement_level);
                    status = status.add(&p);
                },
                _ => {
                    assert(slot_contrib_spec(c, s, j as int) == zero_status());
                    let z = StatusVector::zeros();
                    status = status.add(&z);
                },
            }
            assert(status@ =~= rank_equip_prefix_spec(c, s, j + 1 as int));
            j = j + 1;
        }
        status
    }

    /// Unique equipment parameter; reading it is meaningful only for a
    /// unit that has a unique equipment.
    pub fn unique_equip_param(&self) -> (r: StatusVector)
        requires
            self.wf(),
            self.cache.unique_equip is Some,
        ensures
            r.wf(),
            r@ == unique_equip_param_spec(*self.cache, self.state),
            seq_bounded(r@, B_EQUIP_ITEM as int),
    {
        match &self.state.unique_equip_slot[0] {
            EquipSlot::Equipped { enhancement_level, .. } => {
                self.cache.unique_equip_param(*enhancement_level)
            },
            _ => {
                let z = StatusVector::zeros();
                z
            },
        }
    }

    /// Unlockable-slot parameter; reading it is meaningful only for a
    /// unit that has unlockable-slot data.
    pub fn rarity_6_param(&self) -> (r: StatusVector)
        requires
            self.wf(),
            self.cache.unlock_rarity_6 is Some,
        ensures
            r.wf(),
            r@ == rarity_6_param_spec(*self.cache, self.state),
            seq_bounded(r@, B_UNLOCK as int),
    {
        match &self.state.unlock_rarity_6_slot {
            Option::Some(sl) => {
                let levels = sl.slot_level();
                let r = self.cache.unlock_rarity_6_param(levels);
                assert(levels@ =~= seq![sl.slot_1_level, sl.slot_2_level, sl.slot_3_level]);
                r
            },
            Option::None => {
                proof {
                    assert(false);
                }
                StatusVector::zeros()
            },
        }
    }

    /// Story parameter: the accumulated bonus of every watched prefix.
    pub fn story_param(&self) -> (r: StatusVector)
        requires
            self.wf(),
        ensures
            r.wf(),
            r@ == story_param_spec(*self.cache, self.state),
            seq_bounded(r@, B_STORY as int),
    {
        let ghost c = *self.cache;
        let ghost s = self.state;
        let mut param = StatusVector::zeros();
        let n = self.cache.story.len();
        let mut i: usize = 0;
        while i < n
            invariant
                i <= n,
                n == c.story@.len(),
                param.wf(),
                param@ == story_accum_spec(c, s, i as int),
                forall|slot: int| 0 <= slot < STATUS_LEN ==>
                    -((i as int) * (B_STORY_GROUP as int)) <= #[trigger] param@[slot]
                        <= (i as int) * (B_STORY_GROUP as int),
            decreases n - i,
        {
            let watched = self.state.story[i].watched;
            self.cache.story[i].1.param_append(watched, &mut param);
            assert(param@ =~= story_accum_spec(c, s, i + 1 as int));
            i = i + 1;
        }
        param
    }

    /// Total equipment parameter: slots plus unique, rounded, plus the
    /// integral unlockable-slot bonus.
    pub fn equip_param(&self) -> (r: StatusVector)
        requires
            self.wf(),
        ensures
            r.wf(),
            r@ == equip_param_total_spec(*self.cache, self.state),
            seq_bounded(r@, B_EQUIP as int),
    {
        let mut rank = self.rank_equip_param();
        if self.cache.unique_equip.is_some() {
            let u = self.unique_equip_param();
            rank = rank.add(&u);
        }
        let ghost raw = rank@;
        let rounded = rank.round_vec();
        proof {
            assert forall|i: int| 0 <= i < STATUS_LEN implies
                -(B_EQUIP_RAW as int / SCALE as int + 1) <= #[trigger] rounded@[i]
                    <= B_EQUIP_RAW as int / SCALE as int + 1 by {
                lemma_round_cy_bound(raw[i], B_EQUIP_RAW as int);
            }
        }
        if self.cache.unlock_rarity_6.is_some() {
            let r6 = self.rarity_6_param();
            let r = rounded.add(&r6);
            r
        } else {
            rounded
        }
    }

    /// Total status parameter: base, equipment and story bonuses.
    pub fn param(&self) -> (r: StatusVector)
        requires
            self.wf(),
        ensures
            r.wf(),
            r@ == status_param_spec(*self.cache, self.state),
            seq_bounded(r@, B_STATUS as int),
    {
        let b = self.base_param();
        let e = self.equip_param();
        let s = self.story_param();
        b.add(&e).add(&s)
    }

    /// Skill power of the current state, a raw fixed-point scalar.
    pub fn skill_power(&self) -> (r: i128)
        requires
            self.wf(),
        ensures
            r == skill_power_state_spec(*self.cache, self.state),
            -B_SKILL <= r <= B_SKILL,
    {
        let is_unique_equipped = if self.cache.unique_equip.is_some() {
            self.state.unique_equip_slot[0].is_equipped()
        } else {
            false
        };
        skill_power_of(&self.cache.status_coefficient, &self.state.skill, self.state.rarity,
            is_unique_equipped)
    }

    /// The power score, a raw value at `SCALE` squared.
    pub fn power(&self) -> (r: i128)
        requires
            self.wf(),
        ensures
            r == power_spec(*self.cache, self.state),
    {
        let sp = self.skill_power();
        let st = self.param();
        let d = st.dot(&self.cache.status_coefficient_cache);
        proof {
            lemma_abs_mul_bound(sp as int, self.cache.status_coefficient.skill_lv_coefficient as int,
                B_SKILL as int, MAX_STAT as int);
        }
        sp * self.cache.status_coefficient.skill_lv_coefficient + d * SCALE
    }
}

} // verus!

verus! {

/// Every slot worn at `level`.
pub open spec fn equip_all_spec(sl: Seq<EquipSlot>, level: i32) -> Seq<EquipSlot> {
    sl.map_values(|x: EquipSlot| equip_next(x, level))
}

/// Every slot taken off.
pub open spec fn unequip_all_spec(sl: Seq<EquipSlot>) -> Seq<EquipSlot> {
    sl.map_values(|x: EquipSlot| unequip_next(x))
}

/// Every story group fully watched.
pub open spec fn watch_all_spec(st: Seq<StoryGroup>) -> Seq<StoryGroup> {
    st.map_values(|g: StoryGroup| StoryGroup { watched: g.total, ..g })
}

/// The group with id `id` set to `w` watched entries; others unchanged.
pub open spec fn watch_one_spec(st: Seq<StoryGroup>, id: i64, w: usize) -> Seq<StoryGroup> {
    st.map_values(|g: StoryGroup| if g.story_group_id == id {
        StoryGroup { watched: w, ..g }
    } else {
        g
    })
}

impl<'a> UnitCalculator<'a> {
    /// Set the unit's level.
    pub fn set_level(self, level: i32) -> (r: Self)
        requires
            self.wf(),
            0 <= level <= MAX_LEVEL,
        ensures
            r.wf(),
            r.cache == self.cache,
            r.state == (UnitState { level, ..self.state }),
    {
        let mut this = self;
        this.state.level = level;
        this
    }

    /// Set every skill to `level`; skills never outgrow the unit's level.
    pub fn set_skill_level(self, level: i32) -> (r: Self)
        requires
            self.wf(),
            0 <= level,
            level <= self.state.level,
        ensures
            r.wf(),
            r.cache == self.cache,
            r.state == (UnitState { skill: r.state.skill, ..self.state }),
            r.state.skill.union_burst@ == crate::skill::set_levels(self.state.skill.union_burst@, level),
            r.state.skill.main_skill@ == crate::skill::set_levels(self.state.skill.main_skill@, level),
            r.state.skill.ex_skill@ == crate::skill::set_levels(self.state.skill.ex_skill@, level),
            r.state.skill.free_skill@ == crate::skill::set_levels(self.state.skill.free_skill@, level),
    {
        let mut this = self;
        this.state.skill.set_all_level(level);
        this
    }

    /// Clear the three unlockable slots.
    pub fn wear_unlock_rarity_6_equipment(self) -> (r: Self)
        requires
            self.wf(),
            self.state.unlock_rarity_6_slot is Some,
        ensures
            r.wf(),
            r.cache == self.cache,
            r.state == (UnitState {
                unlock_rarity_6_slot: Some(UnlockRarity6Slot {
                    slot_1_level: 0,
                    slot_2_level: 0,
                    slot_3_level: 0,
                }),
                ..self.state
            }),
    {
        let mut this = self;
        this.state.unlock_rarity_6_slot = Some(UnlockRarity6Slot {
            slot_1_level: 0,
            slot_2_level: 0,
            slot_3_level: 0,
        });
        this
    }

    /// Set the unit's rarity. The highest rarities need the
    /// unlockable-slot state to be present.
    pub fn set_rarity(self, rarity: i32) -> (r: Self)
        requires
            self.wf(),
            1 <= rarity <= self.cache.rarity@.len(),
            rarity >= 6 ==> self.state.unlock_rarity_6_slot is Some,
        ensures
            r.wf(),
            r.cache == self.cache,
            r.state == (UnitState { rarity, ..self.state }),
    {
        let mut this = self;
        this.state.rarity = rarity;
        this
    }

    /// Set the promotion rank; the equipment slots take the new rank's
    /// layout, all unworn.
    pub fn set_promotion(self, promotion: i32) -> (r: Self)
        requires
            self.wf(),
            1 <= promotion <= self.cache.promotion@.len(),
            self.cache.promotion@[promotion - 1].status is Some,
        ensures
            r.wf(),
            r.cache == self.cache,
            r.state == (UnitState {
                promotion,
                equip_slot: r.state.equip_slot,
                ..self.state
            }),
            r.state.equip_slot@.len() == 6,
            forall|j: int| 0 <= j < 6 ==> r.state.equip_slot@[j]
                == slot_of(#[trigger] self.cache.promotion@[promotion - 1].equipments@[j]),
    {
        let mut this = self;
        this.state.promotion = promotion;
        let slots = this.cache.promotion[(promotion - 1) as usize].equipments_to_slots();
        proof {
            assert forall|j: int| 0 <= j < 6 implies slot_level_wf(#[trigger] slots@[j]) by {
                assert(slots@[j] == slot_of(this.cache.promotion@[promotion - 1].equipments@[j]));
            }
        }
        this.state.equip_slot = slots;
        this
    }

    /// Wear every defined equipment of the current rank at `level`.
    pub fn wear_all_equipments(self, level: i32) -> (r: Self)
        requires
            self.wf(),
            0 <= level <= MAX_LEVEL,
        ensures
            r.wf(),
            r.cache == self.cache,
            r.state == (UnitState { equip_slot: r.state.equip_slot, ..self.state }),
            r.state.equip_slot@ == equip_all_spec(self.state.equip_slot@, level),
    {
        let mut this = self;
        let mut j: usize = 0;
        while j < 6
            invariant
                j <= 6,
                this.cache == self.cache,
                this.state == (UnitState { equip_slot: this.state.equip_slot, ..self.state }),
                this.state.equip_slot@.len() == 6,
                forall|k: int| 0 <= k < j ==> this.state.equip_slot@[k]
                    == equip_next(#[trigger] self.state.equip_slot@[k], level),
                forall|k: int| j <= k < 6 ==> this.state.equip_slot@[k]
                    == #[trigger] self.state.equip_slot@[k],
            decreases 6 - j,
        {
            let ns = crate::equip::next_equip(&this.state.equip_slot[j], level);
            this.state.equip_slot.set(j, ns);
            j = j + 1;
        }
        proof {
            assert(this.state.equip_slot@ =~= equip_all_spec(self.state.equip_slot@, level));
            assert forall|k: int| 0 <= k < 6 implies
                slot_level_wf(#[trigger] this.state.equip_slot@[k])
                && (self.cache.promotion@[self.state.promotion - 1].equipments@[k] is None
                    ==> this.state.equip_slot@[k] is Empty) by {
                assert(this.state.equip_slot@[k]
                    == equip_next(self.state.equip_slot@[k], level));
            }
        }
        this
    }

    /// Wear every defined equipment of the current rank, unenhanced.
    pub fn wear_all_equipments_0(self) -> (r: Self)
        requires
            self.wf(),
        ensures
            r.wf(),
            r.cache == self.cache,
            r.state == (UnitState { equip_slot: r.state.equip_slot, ..self.state }),
            r.state.equip_slot@ == equip_all_spec(self.state.equip_slot@, 0),
    {
        self.wear_all_equipments(0)
    }

    /// Take every equipment of the current rank off.
    pub fn unequip_all_equipments(self) -> (r: Self)
        requires
            self.wf(),
        ensures
            r.wf(),
            r.cache == self.cache,
            r.state == (UnitState { equip_slot: r.state.equip_slot, ..self.state }),
            r.state.equip_slot@ == unequip_all_spec(self.state.equip_slot@),
    {
        let mut this = self;
        let mut j: usize = 0;
        while j < 6
            invariant
                j <= 6,
                this.cache == self.cache,
                this.state == (UnitState { equip_slot: this.state.equip_slot, ..self.state }),
                this.state.equip_slot@.len() == 6,
                forall|k: int| 0 <= k < j ==> this.state.equip_slot@[k]
                    == unequip_next(#[trigger] self.state.equip_slot@[k]),
                forall|k: int| j <= k < 6 ==> this.state.equip_slot@[k]
                    == #[trigger] self.state.equip_slot@[k],
            decreases 6 - j,
        {
            let ns = crate::equip::next_unequip(&this.state.equip_slot[j]);
            this.state.equip_slot.set(j, ns);
            j = j + 1;
        }
        proof {
            assert(this.state.equip_slot@ =~= unequip_all_spec(self.state.equip_slot@));
            assert forall|k: int| 0 <= k < 6 implies
                slot_level_wf(#[trigger] this.state.equip_slot@[k])
                && (self.cache.promotion@[self.state.promotion - 1].equipments@[k] is None
                    ==> this.state.equip_slot@[k] is Empty) by {
                assert(this.state.equip_slot@[k] == unequip_next(self.state.equip_slot@[k]));
            }
        }
        this
    }

    /// Wear the unique equipment at `level`; only meaningful for a unit
    /// that has one.
    pub fn wear_unique_equipment(self, level: i32) -> (r: Self)
        requires
            self.wf(),
            self.cache.unique_equip is Some,
            0 <= level <= MAX_LEVEL,
        ensures
            r.wf(),
            r.cache == self.cache,
            r.state == (UnitState { unique_equip_slot: r.state.unique_equip_slot, ..self.state }),
            r.state.unique_equip_slot@.len() == 1,
            r.state.unique_equip_slot@[0] == equip_next(self.state.unique_equip_slot@[0], level),
    {
        let mut this = self;
        let ns = crate::equip::next_equip(&this.state.unique_equip_slot[0], level);
        this.state.unique_equip_slot.set(0, ns);
        proof {
            assert(this.state.unique_equip_slot@ =~=
                self.state.unique_equip_slot@.update(0, ns));
        }
        this
    }

    /// Watch every story of every group.
    pub fn watch_all_stories(self) -> (r: Self)
        requires
            self.wf(),
        ensures
            r.wf(),
            r.cache == self.cache,
            r.state == (UnitState { story: r.state.story, ..self.state }),
            r.state.story@ == watch_all_spec(self.state.story@),
    {
        let mut this = self;
        let n = this.state.story.len();
        let mut i: usize = 0;
        while i < n
            invariant
                i <= n,
                this.cache == self.cache,
                this.state == (UnitState { story: this.state.story, ..self.state }),
                this.state.story@.len() == n,
                forall|k: int| 0 <= k < i ==> this.state.story@[k]
                    == (StoryGroup { watched: (#[trigger] self.state.story@[k]).total,
                        ..self.state.story@[k] }),
                forall|k: int| i <= k < n ==> this.state.story@[k]
                    == #[trigger] self.state.story@[k],
            decreases n - i,
        {
            let gid = this.state.story[i].story_group_id;
            let total = this.state.story[i].total;
            this.state.story.set(i, StoryGroup { story_group_id: gid, total, watched: total });
            i = i + 1;
        }
        proof {
            assert(this.state.story@ =~= watch_all_spec(self.state.story@));
        }
        this
    }

    /// Set the watch progress of the group with id `story_id`; the count
    /// never exceeds the group's size.
    pub fn watch_story(self, story_id: i64, watched_count: usize) -> (r: Self)
        requires
            self.wf(),
            exists|i: int| 0 <= i < self.state.story@.len()
                && (#[trigger] self.state.story@[i]).story_group_id == story_id,
            forall|i: int| 0 <= i < self.state.story@.len()
                && (#[trigger] self.state.story@[i]).story_group_id == story_id
                ==> watched_count <= self.state.story@[i].total,
        ensures
            r.wf(),
            r.cache == self.cache,
            r.state == (UnitState { story: r.state.story, ..self.state }),
            r.state.story@ == watch_one_spec(self.state.story@, story_id, watched_count),
    {
        let mut this = self;
        let n = this.state.story.len();
        let mut i: usize = 0;
        while i < n
            invariant
                i <= n,
                this == self,
                forall|k: int| 0 <= k < i
                    ==> (#[trigger] self.state.story@[k]).story_group_id != story_id,
            decreases n - i,
        {
            if this.state.story[i].story_group_id == story_id {
                let gid = this.state.story[i].story_group_id;
                let total = this.state.story[i].total;
                this.state.story.set(i,
                    StoryGroup { story_group_id: gid, total, watched: watched_count });
                proof {
                    assert forall|k: int| 0 <= k < this.state.story@.len() implies
                        this.state.story@[k] == watch_one_spec(self.state.story@, story_id,
                            watched_count)[k] by {
                        if k != i {
                            assert(self.state.story@[k].story_group_id
                                == self.cache.story@[k].0);
                            assert(self.state.story@[i as int].story_group_id
                                == self.cache.story@[i as int].0);
                        }
                    }
                    assert(this.state.story@ =~= watch_one_spec(self.state.story@, story_id,
                        watched_count));
                }
                return this;
            }
            i = i + 1;
        }
        proof {
            assert(false);
        }
        this
    }

    /// Replace one equipment slot outright. The slot must fit the current
    /// rank's layout.
    pub fn set_equipment(self, slot_id: usize, slot: EquipSlot) -> (r: Self)
        requires
            self.wf(),
            slot_id < 6,
            slot_level_wf(slot),
            self.cache.promotion@[self.state.promotion - 1].equipments@[slot_id as int] is None
                ==> slot is Empty,
        ensures
            r.wf(),
            r.cache == self.cache,
            r.state == (UnitState { equip_slot: r.state.equip_slot, ..self.state }),
            r.state.equip_slot@ == self.state.equip_slot@.update(slot_id as int, slot),
    {
        let mut this = self;
        this.state.equip_slot.set(slot_id, slot);
        this
    }

    /// Replace the whole equipment-slot array. The slots must fit the
    /// current rank's layout.
    pub fn set_equipments(self, equipments: Vec<EquipSlot>) -> (r: Self)
        requires
            self.wf(),
            equipments@.len() == 6,
            forall|j: int| 0 <= j < 6 ==> slot_level_wf(#[trigger] equipments@[j]),
            forall|j: int| 0 <= j < 6 ==>
                (self.cache.promotion@[self.state.promotion - 1].equipments@[j] is None
                    ==> #[trigger] equipments@[j] is Empty),
        ensures
            r.wf(),
            r.cache == self.cache,
            r.state == (UnitState { equip_slot: r.state.equip_slot, ..self.state }),
            r.state.equip_slot@ == equipments@,
    {
        let mut this = self;
        this.state.equip_slot = equipments;
        this
    }

    /// Set the unit's star count (an alias for the rarity).
    pub fn set_star(self, star: i32) -> (r: Self)
        requires
            self.wf(),
            1 <= star <= self.cache.rarity@.len(),
            star >= 6 ==> self.state.unlock_rarity_6_slot is Some,
        ensures
            r.wf(),
            r.cache == self.cache,
            r.state == (UnitState { rarity: star, ..self.state }),
    {
        self.set_rarity(star)
    }

    /// Set the promotion rank (an alias).
    pub fn set_rank(self, rank: i32) -> (r: Self)
        requires
            self.wf(),
            1 <= rank <= self.cache.promotion@.len(),
            self.cache.promotion@[rank - 1].status is Some,
        ensures
            r.wf(),
            r.cache == self.cache,
            r.state == (UnitState {
                promotion: rank,
                equip_slot: r.state.equip_slot,
                ..self.state
            }),
            r.state.equip_slot@.len() == 6,
            forall|j: int| 0 <= j < 6 ==> r.state.equip_slot@[j]
                == slot_of(#[trigger] self.cache.promotion@[rank - 1].equipments@[j]),
    {
        self.set_promotion(rank)
    }

    /// Set the unit's level and every skill's level together.
    pub fn set_all_level(self, level: i32) -> (r: Self)
        requires
            self.wf(),
            0 <= level <= MAX_LEVEL,
        ensures
            r.wf(),
            r.cache == self.cache,
            r.state == (UnitState { level, skill: r.state.skill, ..self.state }),
            r.state.skill.union_burst@ == crate::skill::set_levels(self.state.skill.union_burst@, level),
            r.state.skill.main_skill@ == crate::skill::set_levels(self.state.skill.main_skill@, level),
            r.state.skill.ex_skill@ == crate::skill::set_levels(self.state.skill.ex_skill@, level),
            r.state.skill.free_skill@ == crate::skill::set_levels(self.state.skill.free_skill@, level),
    {
        self.set_level(level).set_skill_level(level)
    }
}

} // verus!

verus! {

/// Two states that agree on the promotion rank and the equipment slots
/// have the same rank equipment parameter.
pub proof fn lemma_rank_equip_frame(c: UnitCache, s1: UnitState, s2: UnitState, j: int)
    requires
        s1.promotion == s2.promotion,
        s1.equip_slot@ == s2.equip_slot@,
    ensures
        rank_equip_prefix_spec(c, s1, j) == rank_equip_prefix_spec(c, s2, j),
    decreases j,
{
    if j > 0 {
        lemma_rank_equip_frame(c, s1, s2, j - 1);
        assert(slot_contrib_spec(c, s1, j - 1) == slot_contrib_spec(c, s2, j - 1));
    }
}

/// Two states that agree on the story progress have the same story
/// parameter.
pub proof fn lemma_story_accum_frame(c: UnitCache, s1: UnitState, s2: UnitState, i: int)
    requires
        s1.story@ == s2.story@,
    ensures
        story_accum_spec(c, s1, i) == story_accum_spec(c, s2, i),
    decreases i,
{
    if i > 0 {
        lemma_story_accum_frame(c, s1, s2, i - 1);
    }
}

} // verus!

verus! {

/// After a level change, every aggregate outside the level's dependency
/// chain (everything but the rarity parameter and its dependents) keeps
/// exactly its old value: recomputing it cannot diverge.
pub proof fn lemma_level_change_preserves_unrelated(c: UnitCache, s: UnitState, level: i32)
    ensures
        promotion_param_spec(c, (UnitState { level, ..s })) == promotion_param_spec(c, s),
        rank_equip_param_spec(c, (UnitState { level, ..s })) == rank_equip_param_spec(c, s),
        unique_equip_param_spec(c, (UnitState { level, ..s })) == unique_equip_param_spec(c, s),
        rarity_6_param_spec(c, (UnitState { level, ..s })) == rarity_6_param_spec(c, s),
        equip_param_total_spec(c, (UnitState { level, ..s })) == equip_param_total_spec(c, s),
        story_param_spec(c, (UnitState { level, ..s })) == story_param_spec(c, s),
        skill_power_state_spec(c, (UnitState { level, ..s })) == skill_power_state_spec(c, s),
{
    let s2 = UnitState { level, ..s };
    lemma_rank_equip_frame(c, s, s2, 6);
    lemma_story_accum_frame(c, s, s2, c.story@.len() as int);
}

/// After a story-progress change, every aggregate outside the story
/// parameter's dependency chain keeps exactly its old value.
pub proof fn lemma_story_change_preserves_unrelated(c: UnitCache, s: UnitState, story: Vec<StoryGroup>)
    ensures
        rarity_param_spec(c, (UnitState { story, ..s })) == rarity_param_spec(c, s),
        promotion_param_spec(c, (UnitState { story, ..s })) == promotion_param_spec(c, s),
        base_param_spec(c, (UnitState { story, ..s })) == base_param_spec(c, s),
        rank_equip_param_spec(c, (UnitState { story, ..s })) == rank_equip_param_spec(c, s),
        unique_equip_param_spec(c, (UnitState { story, ..s })) == unique_equip_param_spec(c, s),
        rarity_6_param_spec(c, (UnitState { story, ..s })) == rarity_6_param_spec(c, s),
        equip_param_total_spec(c, (UnitState { story, ..s })) == equip_param_total_spec(c, s),
        skill_power_state_spec(c, (UnitState { story, ..s })) == skill_power_state_spec(c, s),
{
    let s2 = UnitState { story, ..s };
    lemma_rank_equip_frame(c, s, s2, 6);
}

/// After an equipment change, every aggregate outside the equipment
/// parameter's dependency chain keeps exactly its old value.
pub proof fn lemma_equipment_change_preserves_unrelated(
    c: UnitCache,
    s: UnitState,
    equip_slot: Vec<EquipSlot>,
)
    ensures
        rarity_param_spec(c, (UnitState { equip_slot, ..s })) == rarity_param_spec(c, s),
        promotion_param_spec(c, (UnitState { equip_slot, ..s })) == promotion_param_spec(c, s),
        base_param_spec(c, (UnitState { equip_slot, ..s })) == base_param_spec(c, s),
        unique_equip_param_spec(c, (UnitState { equip_slot, ..s })) == unique_equip_param_spec(c, s),
        rarity_6_param_spec(c, (UnitState { equip_slot, ..s })) == rarity_6_param_spec(c, s),
        story_param_spec(c, (UnitState { equip_slot, ..s })) == story_param_spec(c, s),
        skill_power_state_spec(c, (UnitState { equip_slot, ..s })) == skill_power_state_spec(c, s),
{
    let s2 = UnitState { equip_slot, ..s };
    lemma_story_accum_frame(c, s, s2, c.story@.len() as int);
}

} // verus!

verus! {

/// Whether some group carries the given id.
pub open spec fn group_present(st: Seq<StoryGroup>, id: i64) -> bool {
    exists|i: int| 0 <= i < st.len() && (#[trigger] st[i]).story_group_id == id
}

/// Whether the count fits every group carrying the given id.
pub open spec fn count_fits(st: Seq<StoryGroup>, id: i64, w: usize) -> bool {
    forall|i: int| 0 <= i < st.len() && (#[trigger] st[i]).story_group_id == id
        ==> w <= st[i].total
}

/// The story state after the first `k` watch operations, applied in order.
pub open spec fn watch_many_prefix(st: Seq<StoryGroup>, ws: Seq<(i64, usize)>, k: int)
    -> Seq<StoryGroup>
    decreases k,
{
    if k <= 0 {
        st
    } else {
        watch_one_spec(watch_many_prefix(st, ws, k - 1), ws[k - 1].0, ws[k - 1].1)
    }
}

/// The story state after every watch operation, applied in order.
pub open spec fn watch_many_spec(st: Seq<StoryGroup>, ws: Seq<(i64, usize)>) -> Seq<StoryGroup> {
    watch_many_prefix(st, ws, ws.len() as int)
}

impl<'a> UnitCalculator<'a> {
    /// Apply several watch operations, each setting one group's progress,
    /// in the order given.
    pub fn watch_stories(self, stories: &Vec<(i64, usize)>) -> (r: Self)
        requires
            self.wf(),
            forall|k: int| 0 <= k < stories@.len()
                ==> group_present(self.state.story@, (#[trigger] stories@[k]).0),
            forall|k: int| 0 <= k < stories@.len()
                ==> count_fits(self.state.story@, (#[trigger] stories@[k]).0, stories@[k].1),
        ensures
            r.wf(),
            r.cache == self.cache,
            r.state == (UnitState { story: r.state.story, ..self.state }),
            r.state.story@ == watch_many_spec(self.state.story@, stories@),
    {
        let mut this = self;
        let n = stories.len();
        let mut k: usize = 0;
        while k < n
            invariant
                k <= n,
                n == stories@.len(),
                this.wf(),
                this.cache == self.cache,
                this.state == (UnitState { story: this.state.story, ..self.state }),
                this.state.story@ == watch_many_prefix(self.state.story@, stories@, k as int),
                this.state.story@.len() == self.state.story@.len(),
                forall|i: int| 0 <= i < self.state.story@.len() ==> {
                    &&& (#[trigger] this.state.story@[i]).story_group_id
                        == self.state.story@[i].story_group_id
                    &&& this.state.story@[i].total == self.state.story@[i].total
                },
            decreases n - k,
        {
            let (id, w) = stories[k];
            proof {
                assert(group_present(self.state.story@, id));
                let wi = choose|i: int| 0 <= i < self.state.story@.len()
                    && (#[trigger] self.state.story@[i]).story_group_id == id;
                assert(this.state.story@[wi].story_group_id == id);
                assert(count_fits(self.state.story@, id, w));
                assert forall|i: int| 0 <= i < this.state.story@.len()
                    && (#[trigger] this.state.story@[i]).story_group_id == id
                    implies w <= this.state.story@[i].total by {
                    assert(self.state.story@[i].story_group_id == id);
                }
            }
            let ghost before = this.state.story@;
            this = this.watch_story(id, w);
            proof {
                assert forall|i: int| 0 <= i < self.state.story@.len() implies {
                    &&& (#[trigger] this.state.story@[i]).story_group_id
                        == self.state.story@[i].story_group_id
                    &&& this.state.story@[i].total == self.state.story@[i].total
                } by {
                    assert(this.state.story@[i] == if before[i].story_group_id == id {
                        StoryGroup { watched: w, ..before[i] }
                    } else {
                        before[i]
                    });
                }
            }
            k = k + 1;
        }
        this
    }
}

} // verus!
