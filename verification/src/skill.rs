//! Per-unit skill state and the skill-power accumulation.

use vstd::prelude::*;
use crate::limits::{SCALE, MAX_STAT, MAX_LEVEL, MAX_COUNT, B_SKILL_TERM, B_SKILL};
use crate::model::{UnitStatusCoefficient, power_evolution_spec, ex_power_spec};
use crate::status::lemma_abs_mul_bound;
use crate::sums::{sum_terms, lemma_sum_terms_step, lemma_sum_terms_take_all};

verus! {

/// One skill of the roster, with its mutable level.
#[derive(Debug, Clone, Copy)]
pub struct SkillLevelInfo {
    pub skill_id: i64,
    pub skill_evolution_id: Option<i64>,
    pub skill_level: i32,
}

/// The four skill categories of one unit.
#[derive(Debug, Clone)]
pub struct UnitSkill {
    /// Union bursts.
    pub union_burst: Vec<SkillLevelInfo>,
    /// Main skills.
    pub main_skill: Vec<SkillLevelInfo>,
    /// Extra skills.
    pub ex_skill: Vec<SkillLevelInfo>,
    /// Free skills.
    pub free_skill: Vec<SkillLevelInfo>,
}

pub open spec fn skill_list_wf(s: Seq<SkillLevelInfo>) -> bool {
    &&& s.len() <= MAX_COUNT
    &&& forall|i: int| 0 <= i < s.len() ==> 0 <= (#[trigger] s[i]).skill_level <= MAX_LEVEL
}

/// `s` with its level replaced.
pub open spec fn with_level(s: SkillLevelInfo, level: i32) -> SkillLevelInfo {
    SkillLevelInfo { skill_level: level, ..s }
}

pub open spec fn set_levels(s: Seq<SkillLevelInfo>, level: i32) -> Seq<SkillLevelInfo> {
    s.map_values(|x: SkillLevelInfo| with_level(x, level))
}

/// Replace the level of every entry, keeping ids and evolution ids.
fn set_all(v: &mut Vec<SkillLevelInfo>, level: i32)
    requires
        0 <= level <= MAX_LEVEL,
        skill_list_wf(old(v)@),
    ensures
        final(v)@ == set_levels(old(v)@, level),
        skill_list_wf(final(v)@),
{
    let n = v.len();
    let mut i: usize = 0;
    while i < n
        invariant
            i <= n,
            v@.len() == n,
            forall|j: int| 0 <= j < i ==> v@[j] == with_level(old(v)@[j], level),
            forall|j: int| i <= j < n ==> v@[j] == old(v)@[j],
        decreases n - i,
    {
        let updated = SkillLevelInfo {
            skill_id: v[i].skill_id,
            skill_evolution_id: v[i].skill_evolution_id,
            skill_level: level,
        };
        v.set(i, updated);
        i = i + 1;
    }
    assert(v@ =~= set_levels(old(v)@, level));
}

impl UnitSkill {
    pub open spec fn wf(&self) -> bool {
        &&& skill_list_wf(self.union_burst@)
        &&& skill_list_wf(self.main_skill@)
        &&& skill_list_wf(self.ex_skill@)
        &&& skill_list_wf(self.free_skill@)
    }

    /// Set every skill of every category to the same level.
    pub fn set_all_level(&mut self, level: i32)
        requires
            0 <= level <= MAX_LEVEL,
            old(self).wf(),
        ensures
            final(self).wf(),
            final(self).union_burst@ == set_levels(old(self).union_burst@, level),
            final(self).main_skill@ == set_levels(old(self).main_skill@, level),
            final(self).ex_skill@ == set_levels(old(self).ex_skill@, level),
            final(self).free_skill@ == set_levels(old(self).free_skill@, level),
    {
        set_all(&mut self.union_burst, level);
        set_all(&mut self.main_skill, level);
        set_all(&mut self.ex_skill, level);
        set_all(&mut self.free_skill, level);
    }
}

/// Whether a skill id denotes an evolved skill: its tens digit is one.
pub fn is_evolution_skill(skill_id: i64) -> (r: bool)
    requires
        skill_id >= 0,
    ensures
        r == (skill_id / 10 % 10 == 1),
{
    skill_id / 10 % 10 == 1
}

/// Union-burst term: evolved exactly at the highest rarity.
pub open spec fn ub_fn(c: UnitStatusCoefficient, rarity: int) -> spec_fn(SkillLevelInfo) -> int {
    |s: SkillLevelInfo| power_evolution_spec(s.skill_level as int, rarity >= 6,
        c.ub_evolution_coefficient as int, c.ub_evolution_slv_coefficient as int)
}

/// Main-skill term: evolved when the unique equipment is worn and the
/// skill has an evolution id.
pub open spec fn main_fn(c: UnitStatusCoefficient, unique_equipped: bool)
    -> spec_fn(SkillLevelInfo) -> int {
    |s: SkillLevelInfo| power_evolution_spec(s.skill_level as int,
        unique_equipped && s.skill_evolution_id is Some,
        c.skill1_evolution_coefficient as int, c.skill1_evolution_slv_coefficient as int)
}

/// Extra-skill term: evolved from rarity five up.
pub open spec fn ex_fn(c: UnitStatusCoefficient, rarity: int) -> spec_fn(SkillLevelInfo) -> int {
    |s: SkillLevelInfo| ex_power_spec(s.skill_level as int, rarity >= 5,
        c.exskill_evolution_coefficient as int)
}

/// Free-skill term: always the plain level.
pub open spec fn free_fn() -> spec_fn(SkillLevelInfo) -> int {
    |s: SkillLevelInfo| s.skill_level as int * SCALE
}

/// Total skill power of a roster, each skill contributing at its own
/// level. The result is a raw fixed-point value.
pub open spec fn skill_power_spec(
    c: UnitStatusCoefficient,
    skill: UnitSkill,
    rarity: int,
    unique_equipped: bool,
) -> int {
    sum_terms(skill.union_burst@, ub_fn(c, rarity))
        + sum_terms(skill.main_skill@, main_fn(c, unique_equipped))
        + sum_terms(skill.ex_skill@, ex_fn(c, rarity))
        + sum_terms(skill.free_skill@, free_fn())
}

/// Every term of the power sum is bounded by `B_SKILL_TERM`.
pub proof fn lemma_power_evolution_bound(level: int, e: bool, c: int, slv: int)
    requires
        0 <= level <= MAX_LEVEL,
        -MAX_STAT <= c <= MAX_STAT,
        -MAX_STAT <= slv <= MAX_STAT,
    ensures
        -B_SKILL_TERM <= power_evolution_spec(level, e, c, slv) <= B_SKILL_TERM,
{
    lemma_abs_mul_bound(slv, level, MAX_STAT as int, MAX_LEVEL as int);
}

/// Sum the union-burst, main, extra and free categories of a roster, one
/// category per call, selected by `kind` (0 to 3).
fn sum_category(
    c: &UnitStatusCoefficient,
    list: &Vec<SkillLevelInfo>,
    kind: u8,
    rarity: i32,
    unique_equipped: bool,
) -> (r: i128)
    requires
        c.wf(),
        skill_list_wf(list@),
        kind < 4,
    ensures
        r == sum_terms(list@, category_fn(*c, kind as int, rarity as int, unique_equipped)),
        -(MAX_COUNT as i128 * B_SKILL_TERM) <= r <= MAX_COUNT as i128 * B_SKILL_TERM,
{
    let ghost f = category_fn(*c, kind as int, rarity as int, unique_equipped);
    let n = list.len();
    let mut acc: i128 = 0;
    let mut i: usize = 0;
    while i < n
        invariant
            i <= n,
            acc == sum_terms(list@.take(i as int), f),
            -((i as int) * (B_SKILL_TERM as int)) <= acc <= (i as int) * (B_SKILL_TERM as int),
        decreases n - i,
    {
        let s = &list[i];
        let term: i128 = if kind == 0 {
            c.union_burst_power(s.skill_level, rarity >= 6)
        } else if kind == 1 {
            c.main_skill_power(s.skill_level,
                if unique_equipped { s.skill_evolution_id.is_some() } else { false })
        } else if kind == 2 {
            c.ex_skill_power(s.skill_level, rarity >= 5)
        } else {
            c.free_skill_power(s.skill_level)
        };
        proof {
            lemma_power_evolution_bound(s.skill_level as int, rarity >= 6,
                c.ub_evolution_coefficient as int, c.ub_evolution_slv_coefficient as int);
            lemma_power_evolution_bound(s.skill_level as int,
                unique_equipped && s.skill_evolution_id is Some,
                c.skill1_evolution_coefficient as int, c.skill1_evolution_slv_coefficient as int);
            assert(term == f(list@[i as int]));
            assert(-B_SKILL_TERM <= term <= B_SKILL_TERM);
            lemma_sum_terms_step(list@, f, i as int);
        }
        acc = acc + term;
        i = i + 1;
    }
    proof {
        lemma_sum_terms_take_all(list@, f);
    }
    acc
}

/// The term of category `kind`: union burst, main, extra or free.
pub open spec fn category_fn(c: UnitStatusCoefficient, kind: int, rarity: int, unique_equipped: bool)
    -> spec_fn(SkillLevelInfo) -> int {
    if kind == 0 {
        ub_fn(c, rarity)
    } else if kind == 1 {
        main_fn(c, unique_equipped)
    } else if kind == 2 {
        ex_fn(c, rarity)
    } else {
        free_fn()
    }
}

/// Total skill power of a roster, each skill at its own level.
pub fn skill_power_of(
    c: &UnitStatusCoefficient,
    skill: &UnitSkill,
    rarity: i32,
    unique_equipped: bool,
) -> (r: i128)
    requires
        c.wf(),
        skill.wf(),
    ensures
        r == skill_power_spec(*c, *skill, rarity as int, unique_equipped),
        -B_SKILL <= r <= B_SKILL,
{
    let s0 = sum_category(c, &skill.union_burst, 0, rarity, unique_equipped);
    let s1 = sum_category(c, &skill.main_skill, 1, rarity, unique_equipped);
    let s2 = sum_category(c, &skill.ex_skill, 2, rarity, unique_equipped);
    let s3 = sum_category(c, &skill.free_skill, 3, rarity, unique_equipped);
    s0 + s1 + s2 + s3
}

/// Total skill power with one flat level substituted for every skill:
/// the sum over the roster with every level replaced by `level`.
pub open spec fn skill_power_flat_spec(
    c: UnitStatusCoefficient,
    skill: UnitSkill,
    level: i32,
    rarity: int,
    unique_equipped: bool,
) -> int {
    sum_terms(set_levels(skill.union_burst@, level), ub_fn(c, rarity))
        + sum_terms(set_levels(skill.main_skill@, level), main_fn(c, unique_equipped))
        + sum_terms(set_levels(skill.ex_skill@, level), ex_fn(c, rarity))
        + sum_terms(set_levels(skill.free_skill@, level), free_fn())
}

/// Total skill power with one flat `level` for every skill of the roster.
pub fn skill_level(
    skill: &UnitSkill,
    level: i32,
    status_coefficient: &UnitStatusCoefficient,
    rarity: i32,
    is_unique_equipped: bool,
) -> (r: i128)
    requires
        skill.wf(),
        status_coefficient.wf(),
        0 <= level <= MAX_LEVEL,
    ensures
        r == skill_power_flat_spec(*status_coefficient, *skill, level, rarity as int,
            is_unique_equipped),
        -B_SKILL <= r <= B_SKILL,
{
    let mut flat = UnitSkill {
        union_burst: copy_skills(&skill.union_burst),
        main_skill: copy_skills(&skill.main_skill),
        ex_skill: copy_skills(&skill.ex_skill),
        free_skill: copy_skills(&skill.free_skill),
    };
    flat.set_all_level(level);
    skill_power_of(status_coefficient, &flat, rarity, is_unique_equipped)
}

/// An element-for-element copy of a skill list.
pub(crate) fn copy_skills(v: &Vec<SkillLevelInfo>) -> (r: Vec<SkillLevelInfo>)
    ensures
        r@ == v@,
{
    let mut r: Vec<SkillLevelInfo> = Vec::new();
    let mut i: usize = 0;
    while i < v.len()
        invariant
            i <= v@.len(),
            r@ == v@.take(i as int),
        decreases v@.len() - i,
    {
        r.push(v[i]);
        assert(r@ =~= v@.take(i + 1 as int));
        i = i + 1;
    }
    assert(r@ =~= v@);
    r
}

} // verus!
