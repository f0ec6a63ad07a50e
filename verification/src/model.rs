//! Raw per-unit records, as the data-loading collaborator hands them to
//! the engine: plain integers, strings and status vectors. Fractional
//! columns arrive as raw fixed-point values (see `limits`).

use vstd::prelude::*;
use crate::limits::{SCALE, MAX_STAT, MAX_LEVEL, MAX_COUNT};
use crate::status::{StatusVector, lemma_abs_mul_bound};

verus! {

/// Equipment id that marks an absent equipment slot.
pub const EMPTY_EQUIP_ID: i64 = 999999;

/// Offset added to the enhancement level in the normal equipment formula.
pub const EQUIPMENT_ENHANCE_LV_OFFSET: i32 = 0;

/// Offset added to the enhancement level in the unique equipment formula.
pub const UNIQUE_EQUIPMENT_ENHANCE_LV_OFFSET: i32 = -1;

/// Per-rarity base stats and per-level growth rates of one unit.
#[derive(Debug, Clone)]
pub struct UnitRarity {
    pub unit_id: i64,
    pub rarity: i64,
    /// Base stats at this rarity.
    pub status: StatusVector,
    /// Stat growth per level at this rarity.
    pub growth: StatusVector,
    pub unit_material_id: i64,
    pub consume_num: i64,
    pub consume_gold: i64,
}

/// Which equipment each of the six slots of one promotion rank holds.
#[derive(Debug, Clone)]
pub struct UnitPromotion {
    pub unit_id: i64,
    pub promotion_level: i64,
    /// Six equipment ids; `EMPTY_EQUIP_ID` marks an absent slot.
    pub equip_slot: Vec<i64>,
}

/// Flat stat bonus of one promotion rank.
#[derive(Debug, Clone)]
pub struct UnitPromotionStatus {
    pub unit_id: i64,
    pub promotion_level: i64,
    pub status: StatusVector,
}

/// Additional stat bonus of one promotion rank.
#[derive(Debug, Clone)]
pub struct PromotionBonus {
    pub unit_id: i64,
    pub promotion_level: i64,
    pub status: StatusVector,
}

/// One unlockable-slot step: the stats granted when the given slot
/// reaches the given unlock level. Stats here are integral.
#[derive(Debug, Clone)]
pub struct UnlockRarity6 {
    pub unit_id: i64,
    pub slot_id: i64,
    pub unlock_level: i64,
    pub unlock_flag: i64,
    pub consume_gold: i64,
    pub material_type: i64,
    pub material_id: i64,
    pub material_count: i64,
    pub status: StatusVector,
}

/// Which unique equipment a unit can wear, and in which slot.
#[derive(Debug, Clone)]
pub struct UnitUniqueEquip {
    pub unit_id: i64,
    pub equip_slot: i64,
    pub equip_id: i64,
}

/// The skill roster of one unit: skill ids by category, with the
/// matching evolution ids (zero meaning none).
#[derive(Debug, Clone)]
pub struct UnitSkillData {
    pub unit_id: i64,
    pub union_burst: Vec<i64>,
    pub union_burst_evolution: i64,
    pub main_skill: Vec<i64>,
    pub main_skill_evolution: Vec<i64>,
    pub ex_skill: Vec<i64>,
    pub ex_skill_evolution: Vec<i64>,
    pub sp_union_burst: i64,
    pub sp_skill: Vec<i64>,
    pub sp_skill_evolution: Vec<i64>,
}

impl UnitSkillData {
    pub open spec fn wf(&self) -> bool {
        &&& self.union_burst@.len() <= MAX_COUNT
        &&& self.main_skill@.len() <= MAX_COUNT
        &&& self.ex_skill@.len() <= MAX_COUNT
    }

    /// A field-for-field copy.
    pub fn duplicate(&self) -> (r: UnitSkillData)
        ensures
            r.unit_id == self.unit_id,
            r.union_burst@ == self.union_burst@,
            r.union_burst_evolution == self.union_burst_evolution,
            r.main_skill@ == self.main_skill@,
            r.main_skill_evolution@ == self.main_skill_evolution@,
            r.ex_skill@ == self.ex_skill@,
            r.ex_skill_evolution@ == self.ex_skill_evolution@,
            r.sp_union_burst == self.sp_union_burst,
            r.sp_skill@ == self.sp_skill@,
            r.sp_skill_evolution@ == self.sp_skill_evolution@,
    {
        UnitSkillData {
            unit_id: self.unit_id,
            union_burst: copy_ids(&self.union_burst),
            union_burst_evolution: self.union_burst_evolution,
            main_skill: copy_ids(&self.main_skill),
            main_skill_evolution: copy_ids(&self.main_skill_evolution),
            ex_skill: copy_ids(&self.ex_skill),
            ex_skill_evolution: copy_ids(&self.ex_skill_evolution),
            sp_union_burst: self.sp_union_burst,
            sp_skill: copy_ids(&self.sp_skill),
            sp_skill_evolution: copy_ids(&self.sp_skill_evolution),
        }
    }
}

/// An element-for-element copy of an id list.
pub fn copy_ids(v: &Vec<i64>) -> (r: Vec<i64>)
    ensures
        r@ == v@,
{
    let mut r: Vec<i64> = Vec::new();
    let mut i: usize = 0;
    while i < v.len()
        invariant
            i <= v@.len(),
            r@ == v@.take(i as int),
        decreases v@.len() - i,
    {
        r.push(v[i]);
        assert(r@ =~= v@.take(i + 1 as int));
        i = i + 1;
    }
    assert(r@ =~= v@);
    r
}

/// One story entry: the stat bonuses granted when it is watched, as
/// `(slot index, value)` pairs with slot indices counted from one.
#[derive(Debug, Clone)]
pub struct CharaStoryStatus {
    pub story_id: i64,
    pub unlock_story_name: String,
    pub status: Vec<(i64, i64)>,
    pub chara_id: Vec<i64>,
}

/// Base stats of one piece of equipment.
#[derive(Debug, Clone)]
pub struct EquipmentData {
    pub equipment_id: i64,
    pub equipment_name: String,
    pub description: String,
    pub promotion_level: i64,
    pub require_level: i64,
    pub status: StatusVector,
}

/// Per-enhancement-level stat rate of one piece of equipment.
#[derive(Debug, Clone)]
pub struct EquipmentEnhanceRate {
    pub equipment_id: i64,
    pub promotion_level: i64,
    pub status: StatusVector,
}

/// One enhancement step of normal equipment of a given promotion level.
#[derive(Debug, Clone)]
pub struct EquipmentEnhanceData {
    pub promotion_level: i64,
    pub equipment_enhance_level: i64,
    pub needed_point: i64,
    pub total_point: i64,
}

/// Base stats of one piece of unique equipment.
#[derive(Debug, Clone)]
pub struct UniqueEquipmentData {
    pub equipment_id: i64,
    pub equipment_name: String,
    pub description: String,
    pub promotion_level: i64,
    pub status: StatusVector,
}

/// Per-level stat rate of one piece of unique equipment.
#[derive(Debug, Clone)]
pub struct UniqueEquipmentEnhanceRate {
    pub equipment_id: i64,
    pub status: StatusVector,
}

/// One enhancement step of unique equipment.
#[derive(Debug, Clone)]
pub struct UniqueEquipmentEnhanceData {
    pub equip_slot: i64,
    pub enhance_level: i64,
    pub needed_point: i64,
    pub total_point: i64,
    pub needed_mana: i64,
    pub rank: i64,
}

/// The global coefficient table of the power formula. Scalars are raw
/// fixed-point values.
#[derive(Debug, Clone)]
pub struct UnitStatusCoefficient {
    pub coefficient_id: i64,
    /// The seventeen per-slot weights of the power dot product, in the
    /// global slot order.
    pub weights: StatusVector,
    pub skill_lv_coefficient: i128,
    pub exskill_evolution_coefficient: i128,
    pub overall_coefficient: i128,
    pub skill1_evolution_coefficient: i128,
    pub skill1_evolution_slv_coefficient: i128,
    pub ub_evolution_coefficient: i128,
    pub ub_evolution_slv_coefficient: i128,
}

/// One skill's power contribution: the plain level unless its evolution
/// condition holds, in which case the evolved linear formula applies.
/// The result is a raw fixed-point value.
pub open spec fn power_evolution_spec(
    level: int,
    is_evolution: bool,
    evolution_coefficient: int,
    evolution_slv_coefficient: int,
) -> int {
    if is_evolution {
        evolution_slv_coefficient * level + evolution_coefficient
    } else {
        level * SCALE
    }
}

impl UnitStatusCoefficient {
    pub open spec fn wf(&self) -> bool {
        &&& self.weights.wf()
        &&& crate::status::seq_bounded(self.weights@, MAX_STAT as int)
        &&& -MAX_STAT <= self.skill_lv_coefficient <= MAX_STAT
        &&& -MAX_STAT <= self.exskill_evolution_coefficient <= MAX_STAT
        &&& -MAX_STAT <= self.overall_coefficient <= MAX_STAT
        &&& -MAX_STAT <= self.skill1_evolution_coefficient <= MAX_STAT
        &&& -MAX_STAT <= self.skill1_evolution_slv_coefficient <= MAX_STAT
        &&& -MAX_STAT <= self.ub_evolution_coefficient <= MAX_STAT
        &&& -MAX_STAT <= self.ub_evolution_slv_coefficient <= MAX_STAT
    }

    /// The per-slot weight vector of the power dot product.
    pub fn status_coefficient(&self) -> (r: &StatusVector)
        ensures
            r == &self.weights,
    {
        &self.weights
    }

    /// Shared evolved-or-plain formula of the skill contributions.
    fn generic_power_evolution(
        level: i32,
        is_evolution: bool,
        evolution_coefficient: i128,
        evolution_slv_coefficient: i128,
    ) -> (r: i128)
        requires
            0 <= level <= MAX_LEVEL,
            -MAX_STAT <= evolution_coefficient <= MAX_STAT,
            -MAX_STAT <= evolution_slv_coefficient <= MAX_STAT,
        ensures
            r == power_evolution_spec(level as int, is_evolution,
                evolution_coefficient as int, evolution_slv_coefficient as int),
    {
        proof {
            lemma_abs_mul_bound(evolution_slv_coefficient as int, level as int,
                MAX_STAT as int, MAX_LEVEL as int);
        }
        if is_evolution {
            evolution_slv_coefficient * (level as i128) + evolution_coefficient
        } else {
            (level as i128) * SCALE
        }
    }

    /// Union-burst contribution at `level`; evolved at the highest rarity.
    pub fn union_burst_power(&self, level: i32, is_evolution: bool) -> (r: i128)
        requires
            self.wf(),
            0 <= level <= MAX_LEVEL,
        ensures
            r == power_evolution_spec(level as int, is_evolution,
                self.ub_evolution_coefficient as int, self.ub_evolution_slv_coefficient as int),
    {
        Self::generic_power_evolution(level, is_evolution,
            self.ub_evolution_coefficient, self.ub_evolution_slv_coefficient)
    }

    /// Main-skill contribution at `level`; evolved when the unique
    /// equipment is worn and the skill has an evolution id.
    pub fn main_skill_power(&self, level: i32, is_evolution: bool) -> (r: i128)
        requires
            self.wf(),
            0 <= level <= MAX_LEVEL,
        ensures
            r == power_evolution_spec(level as int, is_evolution,
                self.skill1_evolution_coefficient as int,
                self.skill1_evolution_slv_coefficient as int),
    {
        Self::generic_power_evolution(level, is_evolution,
            self.skill1_evolution_coefficient, self.skill1_evolution_slv_coefficient)
    }

    /// Extra-skill contribution at `level`: the plain level, plus the
    /// flat evolution bonus once the evolution condition holds.
    pub fn ex_skill_power(&self, level: i32, is_evolution: bool) -> (r: i128)
        requires
            self.wf(),
            0 <= level <= MAX_LEVEL,
        ensures
            r == ex_power_spec(level as int, is_evolution,
                self.exskill_evolution_coefficient as int),
    {
        if is_evolution {
            (level as i128) * SCALE + self.exskill_evolution_coefficient
        } else {
            (level as i128) * SCALE
        }
    }

    /// Free-skill contribution: always the plain level.
    pub fn free_skill_power(&self, level: i32) -> (r: i128)
        requires
            0 <= level <= MAX_LEVEL,
        ensures
            r == level * SCALE,
    {
        (level as i128) * SCALE
    }
}

impl UnitStatusCoefficient {
    /// Union-burst contribution with the evolution read off the skill id.
    pub fn union_burst_id_power(&self, level: i32, skill_id: i64) -> (r: i128)
        requires
            self.wf(),
            0 <= level <= MAX_LEVEL,
            skill_id >= 0,
        ensures
            r == power_evolution_spec(level as int, skill_id / 10 % 10 == 1,
                self.ub_evolution_coefficient as int, self.ub_evolution_slv_coefficient as int),
    {
        let e = crate::skill::is_evolution_skill(skill_id);
        self.union_burst_power(level, e)
    }

    /// Main-skill contribution with the evolution read off the skill id.
    pub fn main_skill_id_power(&self, level: i32, skill_id: i64) -> (r: i128)
        requires
            self.wf(),
            0 <= level <= MAX_LEVEL,
            skill_id >= 0,
        ensures
            r == power_evolution_spec(level as int, skill_id / 10 % 10 == 1,
                self.skill1_evolution_coefficient as int,
                self.skill1_evolution_slv_coefficient as int),
    {
        let e = crate::skill::is_evolution_skill(skill_id);
        self.main_skill_power(level, e)
    }

    /// Extra-skill contribution: evolved from rarity five up, and only
    /// once the skill has a level at all.
    pub fn ex_skill_id_power(&self, level: i32, rarity: i32) -> (r: i128)
        requires
            self.wf(),
            0 <= level <= MAX_LEVEL,
        ensures
            r == ex_power_spec(level as int, level > 0 && rarity >= 5,
                self.exskill_evolution_coefficient as int),
    {
        self.ex_skill_power(level, level > 0 && rarity >= 5)
    }

    /// Free-skill contribution: always the plain level.
    pub fn free_skill_id_power(&self, level: i32) -> (r: i128)
        requires
            0 <= level <= MAX_LEVEL,
        ensures
            r == level * SCALE,
    {
        (level as i128) * SCALE
    }

    /// Flat skill power of a whole roster at one level.
    pub fn skill_power(
        &self,
        skill: &crate::skill::UnitSkill,
        level: i32,
        rarity: i32,
        unique_equipped: bool,
    ) -> (r: i128)
        requires
            self.wf(),
            skill.wf(),
            0 <= level <= MAX_LEVEL,
        ensures
            r == crate::skill::skill_power_flat_spec(*self, *skill, level, rarity as int,
                unique_equipped),
    {
        crate::skill::skill_level(skill, level, self, rarity, unique_equipped)
    }
}

/// Extra-skill formula: the plain level, plus the flat evolution bonus
/// when evolved. The result is a raw fixed-point value.
pub open spec fn ex_power_spec(level: int, is_evolution: bool, evolution_coefficient: int) -> int {
    if is_evolution {
        level * SCALE + evolution_coefficient
    } else {
        level * SCALE
    }
}

} // verus!
