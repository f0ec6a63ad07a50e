//! The mutable per-session configuration of one unit.

use vstd::prelude::*;
use crate::equip::{EquipSlot, UnlockRarity6Slot};
use crate::skill::UnitSkill;

verus! {

/// Watch progress of one story group.
#[derive(Debug, Clone)]
pub struct StoryGroup {
    pub story_group_id: i64,
    /// How many entries the group has.
    pub total: usize,
    /// How many of them, counted from the first, have been watched.
    pub watched: usize,
}

/// All parameters a caller can configure for one unit: everything the
/// power computation reads besides the immutable cache.
#[derive(Debug, Clone)]
pub struct UnitState {
    /// Unit id.
    pub id: i64,
    /// Number of stars.
    pub rarity: i32,
    /// Level.
    pub level: i32,
    /// Promotion rank.
    pub promotion: i32,
    /// Skill levels.
    pub skill: UnitSkill,
    /// Equipment slots of the current promotion rank.
    pub equip_slot: Vec<EquipSlot>,
    /// Unique equipment slots (at most one).
    pub unique_equip_slot: Vec<EquipSlot>,
    /// Unlockable-slot levels; present exactly when the unit has
    /// unlockable-slot data.
    pub unlock_rarity_6_slot: Option<UnlockRarity6Slot>,
    /// Watch progress, one entry per story group of the unit.
    pub story: Vec<StoryGroup>,
}

} // verus!

verus! {

/// The evolution id at position `i` of an evolution-id list; zero and
/// out-of-range entries mean no evolution.
pub open spec fn evo_at(ev: Seq<i64>, i: int) -> Option<i64> {
    if 0 <= i < ev.len() && ev[i] != 0 {
        Some(ev[i])
    } else {
        None
    }
}

/// The union burst's evolution id: only the first one can evolve.
pub open spec fn ub_evo(d: crate::model::UnitSkillData, i: int) -> Option<i64> {
    if i == 0 && d.union_burst_evolution != 0 {
        Some(d.union_burst_evolution)
    } else {
        None
    }
}

/// Build one roster list at level one from ids and evolution ids.
fn skill_list(ids: &Vec<i64>, evolutions: &Vec<i64>) -> (r: Vec<crate::skill::SkillLevelInfo>)
    ensures
        r@.len() == ids@.len(),
        forall|i: int| 0 <= i < ids@.len() ==> r@[i] == (crate::skill::SkillLevelInfo {
            skill_id: ids@[i],
            skill_evolution_id: evo_at(evolutions@, i),
            skill_level: 1,
        }),
{
    let mut r: Vec<crate::skill::SkillLevelInfo> = Vec::new();
    let mut i: usize = 0;
    while i < ids.len()
        invariant
            i <= ids@.len(),
            r@.len() == i,
            forall|j: int| 0 <= j < i ==> r@[j] == (crate::skill::SkillLevelInfo {
                skill_id: ids@[j],
                skill_evolution_id: evo_at(evolutions@, j),
                skill_level: 1,
            }),
        decreases ids@.len() - i,
    {
        let evolution = if i < evolutions.len() && evolutions[i] != 0 {
            Some(evolutions[i])
        } else {
            None
        };
        r.push(crate::skill::SkillLevelInfo {
            skill_id: ids[i],
            skill_evolution_id: evolution,
            skill_level: 1,
        });
        i = i + 1;
    }
    r
}

impl crate::model::UnitSkillData {
    /// The fresh skill state of this roster: every skill at level one,
    /// evolution ids resolved, no free skills.
    pub fn unit_skill_state(&self) -> (r: UnitSkill)
        requires
            self.wf(),
        ensures
            r.wf(),
            r.union_burst@.len() == self.union_burst@.len(),
            forall|i: int| 0 <= i < self.union_burst@.len()
                ==> r.union_burst@[i] == (crate::skill::SkillLevelInfo {
                    skill_id: self.union_burst@[i],
                    skill_evolution_id: ub_evo(*self, i),
                    skill_level: 1,
                }),
            r.main_skill@.len() == self.main_skill@.len(),
            forall|i: int| 0 <= i < self.main_skill@.len()
                ==> r.main_skill@[i] == (crate::skill::SkillLevelInfo {
                    skill_id: self.main_skill@[i],
                    skill_evolution_id: evo_at(self.main_skill_evolution@, i),
                    skill_level: 1,
                }),
            r.ex_skill@.len() == self.ex_skill@.len(),
            forall|i: int| 0 <= i < self.ex_skill@.len()
                ==> r.ex_skill@[i] == (crate::skill::SkillLevelInfo {
                    skill_id: self.ex_skill@[i],
                    skill_evolution_id: evo_at(self.ex_skill_evolution@, i),
                    skill_level: 1,
                }),
            r.free_skill@.len() == 0,
    {
        let mut union_burst: Vec<crate::skill::SkillLevelInfo> = Vec::new();
        let mut i: usize = 0;
        while i < self.union_burst.len()
            invariant
                i <= self.union_burst@.len(),
                union_burst@.len() == i,
                forall|j: int| 0 <= j < i ==> union_burst@[j] == (crate::skill::SkillLevelInfo {
                    skill_id: self.union_burst@[j],
                    skill_evolution_id: ub_evo(*self, j),
                    skill_level: 1,
                }),
            decreases self.union_burst@.len() - i,
        {
            let evolution = if i == 0 && self.union_burst_evolution != 0 {
                Some(self.union_burst_evolution)
            } else {
                None
            };
            union_burst.push(crate::skill::SkillLevelInfo {
                skill_id: self.union_burst[i],
                skill_evolution_id: evolution,
                skill_level: 1,
            });
            i = i + 1;
        }
        let main_skill = skill_list(&self.main_skill, &self.main_skill_evolution);
        let ex_skill = skill_list(&self.ex_skill, &self.ex_skill_evolution);
        let free_skill: Vec<crate::skill::SkillLevelInfo> = Vec::new();
        UnitSkill { union_burst, main_skill, ex_skill, free_skill }
    }
}

/// Why building a state failed: a required part was never supplied, or
/// the unit lacks data that the requested rarity needs.
#[derive(Debug)]
pub enum UnitStateBuilderError {
    /// Rarity not set.
    Rarity,
    /// Level not set.
    Level,
    /// Promotion not set.
    Promotion,
    /// Skill not set.
    Skill,
    /// Equip slot not set.
    EquipSlot,
    /// Unique equip slot not set.
    UniqueEquipSlot,
    /// Unlock slot state not set.
    UnlockRarity6Slot,
    /// Story not set.
    Story,
    /// The unit has not unlocked its highest rarity.
    Rarity6,
}

/// The fresh slot for one unique-equipment record.
pub open spec fn unique_slot_of(u: crate::model::UnitUniqueEquip) -> EquipSlot {
    if u.equip_id == crate::model::EMPTY_EQUIP_ID {
        EquipSlot::Empty
    } else {
        EquipSlot::Unequipped { id: u.equip_id, max_enhancement_level: None }
    }
}

/// The fresh slot for one promotion equipment id.
pub open spec fn rank_slot_of(id: i64) -> EquipSlot {
    if id == crate::model::EMPTY_EQUIP_ID {
        EquipSlot::Empty
    } else {
        EquipSlot::Unequipped { id, max_enhancement_level: None }
    }
}

/// Assembles a session state from raw per-unit data, piece by piece;
/// finishing fails while a required piece is missing.
#[derive(Debug)]
pub struct UnitStateBuilder {
    pub unit_id: i64,
    pub promotions: Vec<crate::model::UnitPromotion>,
    pub skill_data: crate::model::UnitSkillData,
    pub rarity: Option<i32>,
    pub level: Option<i32>,
    pub promotion: Option<i32>,
    pub skill: Option<UnitSkill>,
    pub equip_slot: Option<Vec<EquipSlot>>,
    pub unique_equip_slot: Vec<EquipSlot>,
    pub unlock_rarity_6_slot: Option<UnlockRarity6Slot>,
    pub story: Vec<StoryGroup>,
}

impl UnitStateBuilder {
    pub open spec fn promotions_spec(&self) -> Seq<crate::model::UnitPromotion> {
        self.promotions@
    }

    pub open spec fn skill_data_spec(&self) -> crate::model::UnitSkillData {
        self.skill_data
    }

    pub open spec fn unit_id_spec(&self) -> i64 {
        self.unit_id
    }

    /// Start from raw unit data: slots unworn, stories unwatched,
    /// everything else still unset.
    pub fn with_config(unit_config: &crate::data::UnitData) -> (b: UnitStateBuilder)
        requires
            unit_config.skill_data.wf(),
        ensures
            b.unit_id_spec() == unit_config.unit_id,
            b.rarity is None,
            b.level is None,
            b.promotion is None,
            b.skill is None,
            b.equip_slot is None,
            b.unique_equip_slot@.len() == unit_config.unique_equip@.len(),
            forall|i: int| 0 <= i < unit_config.unique_equip@.len()
                ==> b.unique_equip_slot@[i] == unique_slot_of(#[trigger] unit_config.unique_equip@[i]),
            (b.unlock_rarity_6_slot is Some <==> unit_config.unlock_rarity_6 is Some),
            b.unlock_rarity_6_slot is Some ==> b.unlock_rarity_6_slot->Some_0
                == (UnlockRarity6Slot { slot_1_level: 0, slot_2_level: 0, slot_3_level: 0 }),
            b.story@.len() == unit_config.stories@.len(),
            forall|i: int| 0 <= i < unit_config.stories@.len() ==> b.story@[i] == (StoryGroup {
                story_group_id: (#[trigger] unit_config.stories@[i]).0,
                total: unit_config.stories@[i].1.0@.len() as usize,
                watched: 0,
            }),
            b.promotions_spec().len() == unit_config.promotion@.len(),
            forall|i: int| 0 <= i < unit_config.promotion@.len() ==> {
                &&& (#[trigger] b.promotions_spec()[i]).unit_id
                    == unit_config.promotion@[i].promotion.unit_id
                &&& b.promotions_spec()[i].promotion_level
                    == unit_config.promotion@[i].promotion.promotion_level
                &&& b.promotions_spec()[i].equip_slot@
                    == unit_config.promotion@[i].promotion.equip_slot@
            },
            b.skill_data_spec().wf(),
            b.skill_data_spec().unit_id == unit_config.skill_data.unit_id,
            b.skill_data_spec().union_burst@ == unit_config.skill_data.union_burst@,
            b.skill_data_spec().union_burst_evolution
                == unit_config.skill_data.union_burst_evolution,
            b.skill_data_spec().main_skill@ == unit_config.skill_data.main_skill@,
            b.skill_data_spec().main_skill_evolution@
                == unit_config.skill_data.main_skill_evolution@,
            b.skill_data_spec().ex_skill@ == unit_config.skill_data.ex_skill@,
            b.skill_data_spec().ex_skill_evolution@
                == unit_config.skill_data.ex_skill_evolution@,
    {
        let unlock_rarity_6_slot = match &unit_config.unlock_rarity_6 {
            Option::Some(_) => Some(UnlockRarity6Slot {
                slot_1_level: 0,
                slot_2_level: 0,
                slot_3_level: 0,
            }),
            Option::None => None,
        };
        let mut unique_equip_slot: Vec<EquipSlot> = Vec::new();
        let mut i: usize = 0;
        while i < unit_config.unique_equip.len()
            invariant
                i <= unit_config.unique_equip@.len(),
                unique_equip_slot@.len() == i,
                forall|j: int| 0 <= j < i ==> unique_equip_slot@[j]
                    == unique_slot_of(#[trigger] unit_config.unique_equip@[j]),
            decreases unit_config.unique_equip@.len() - i,
        {
            let u = &unit_config.unique_equip[i];
            let s = if u.equip_id == crate::model::EMPTY_EQUIP_ID {
                EquipSlot::Empty
            } else {
                EquipSlot::Unequipped { id: u.equip_id, max_enhancement_level: None }
            };
            unique_equip_slot.push(s);
            i = i + 1;
        }
        let mut story: Vec<StoryGroup> = Vec::new();
        let mut i: usize = 0;
        while i < unit_config.stories.len()
            invariant
                i <= unit_config.stories@.len(),
                story@.len() == i,
                forall|j: int| 0 <= j < i ==> story@[j] == (StoryGroup {
                    story_group_id: (#[trigger] unit_config.stories@[j]).0,
                    total: unit_config.stories@[j].1.0@.len() as usize,
                    watched: 0,
                }),
            decreases unit_config.stories@.len() - i,
        {
            let gid = unit_config.stories[i].0;
            let total = unit_config.stories[i].1.0.len();
            story.push(StoryGroup { story_group_id: gid, total, watched: 0 });
            i = i + 1;
        }
        let mut promotions: Vec<crate::model::UnitPromotion> = Vec::new();
        let mut i: usize = 0;
        while i < unit_config.promotion.len()
            invariant
                i <= unit_config.promotion@.len(),
                promotions@.len() == i,
                forall|j: int| 0 <= j < i ==> {
                    &&& (#[trigger] promotions@[j]).unit_id
                        == unit_config.promotion@[j].promotion.unit_id
                    &&& promotions@[j].promotion_level
                        == unit_config.promotion@[j].promotion.promotion_level
                    &&& promotions@[j].equip_slot@
                        == unit_config.promotion@[j].promotion.equip_slot@
                },
            decreases unit_config.promotion@.len() - i,
        {
            let p = &unit_config.promotion[i].promotion;
            promotions.push(crate::model::UnitPromotion {
                unit_id: p.unit_id,
                promotion_level: p.promotion_level,
                equip_slot: crate::model::copy_ids(&p.equip_slot),
            });
            i = i + 1;
        }
        UnitStateBuilder {
            unit_id: unit_config.unit_id,
            promotions,
            skill_data: unit_config.skill_data.duplicate(),
            rarity: None,
            level: None,
            promotion: None,
            skill: None,
            equip_slot: None,
            unique_equip_slot,
            unlock_rarity_6_slot,
            story,
        }
    }

    /// Choose the unit's level.
    pub fn level(self, level: i32) -> (b: UnitStateBuilder)
        ensures
            b == (UnitStateBuilder { level: Some(level), ..self }),
    {
        let mut this = self;
        this.level = Some(level);
        this
    }

    /// Choose the promotion rank; the equipment slots take that rank's
    /// layout, all unworn.
    pub fn rank(self, rank: i32) -> (b: UnitStateBuilder)
        requires
            1 <= rank <= self.promotions_spec().len(),
        ensures
            b == (UnitStateBuilder {
                promotion: Some(rank),
                equip_slot: b.equip_slot,
                ..self
            }),
            b.equip_slot is Some,
            b.equip_slot->Some_0@.len() == self.promotions_spec()[rank - 1].equip_slot@.len(),
            forall|j: int| 0 <= j < self.promotions_spec()[rank - 1].equip_slot@.len()
                ==> b.equip_slot->Some_0@[j]
                    == rank_slot_of(#[trigger] self.promotions_spec()[rank - 1].equip_slot@[j]),
    {
        let mut this = self;
        this.promotion = Some(rank);
        let ids = &this.promotions[(rank - 1) as usize].equip_slot;
        let mut slots: Vec<EquipSlot> = Vec::new();
        let mut j: usize = 0;
        while j < ids.len()
            invariant
                j <= ids@.len(),
                slots@.len() == j,
                forall|k: int| 0 <= k < j ==> slots@[k] == rank_slot_of(#[trigger] ids@[k]),
            decreases ids@.len() - j,
        {
            let id = ids[j];
            let s = if id == crate::model::EMPTY_EQUIP_ID {
                EquipSlot::Empty
            } else {
                EquipSlot::Unequipped { id, max_enhancement_level: None }
            };
            slots.push(s);
            j = j + 1;
        }
        this.equip_slot = Some(slots);
        this
    }

    /// Choose the rarity; the skill roster is set up at level one.
    pub fn rarity(self, rarity: i32) -> (b: UnitStateBuilder)
        requires
            self.skill_data_spec().wf(),
        ensures
            b == (UnitStateBuilder { rarity: Some(rarity), skill: b.skill, ..self }),
            b.skill is Some,
            b.skill->Some_0.wf(),
            b.skill->Some_0.free_skill@.len() == 0,
            b.skill->Some_0.union_burst@.len() == self.skill_data_spec().union_burst@.len(),
            forall|i: int| 0 <= i < self.skill_data_spec().union_burst@.len()
                ==> b.skill->Some_0.union_burst@[i] == (crate::skill::SkillLevelInfo {
                    skill_id: self.skill_data_spec().union_burst@[i],
                    skill_evolution_id: ub_evo(self.skill_data_spec(), i),
                    skill_level: 1,
                }),
            b.skill->Some_0.main_skill@.len() == self.skill_data_spec().main_skill@.len(),
            forall|i: int| 0 <= i < self.skill_data_spec().main_skill@.len()
                ==> b.skill->Some_0.main_skill@[i] == (crate::skill::SkillLevelInfo {
                    skill_id: self.skill_data_spec().main_skill@[i],
                    skill_evolution_id: evo_at(self.skill_data_spec().main_skill_evolution@, i),
                    skill_level: 1,
                }),
            b.skill->Some_0.ex_skill@.len() == self.skill_data_spec().ex_skill@.len(),
            forall|i: int| 0 <= i < self.skill_data_spec().ex_skill@.len()
                ==> b.skill->Some_0.ex_skill@[i] == (crate::skill::SkillLevelInfo {
                    skill_id: self.skill_data_spec().ex_skill@[i],
                    skill_evolution_id: evo_at(self.skill_data_spec().ex_skill_evolution@, i),
                    skill_level: 1,
                }),
    {
        let mut this = self;
        this.rarity = Some(rarity);
        let skill = this.skill_data.unit_skill_state();
        this.skill = Some(skill);
        this
    }

    /// Finish the state. Every required piece must have been supplied,
    /// and the highest rarities need unlockable-slot data.
    pub fn build(self) -> (r: Result<UnitState, UnitStateBuilderError>)
        ensures
            match r {
                Result::Ok(st) => {
                    &&& self.rarity is Some
                    &&& self.level is Some
                    &&& self.promotion is Some
                    &&& self.skill is Some
                    &&& self.equip_slot is Some
                    &&& !(self.unlock_rarity_6_slot is None && self.rarity->Some_0 >= 6)
                    &&& st == (UnitState {
                        id: self.unit_id_spec(),
                        rarity: self.rarity->Some_0,
                        level: self.level->Some_0,
                        promotion: self.promotion->Some_0,
                        skill: st.skill,
                        equip_slot: st.equip_slot,
                        unique_equip_slot: st.unique_equip_slot,
                        unlock_rarity_6_slot: self.unlock_rarity_6_slot,
                        story: st.story,
                    })
                    &&& st.skill == self.skill->Some_0
                    &&& st.equip_slot == self.equip_slot->Some_0
                    &&& st.unique_equip_slot == self.unique_equip_slot
                    &&& st.story == self.story
                },
                Result::Err(e) => match e {
                    UnitStateBuilderError::Rarity => self.rarity is None,
                    UnitStateBuilderError::Level => self.rarity is Some && self.level is None,
                    UnitStateBuilderError::Promotion => self.rarity is Some
                        && self.level is Some && self.promotion is None,
                    UnitStateBuilderError::Skill => self.rarity is Some && self.level is Some
                        && self.promotion is Some && self.skill is None,
                    UnitStateBuilderError::EquipSlot => self.rarity is Some
                        && self.level is Some && self.promotion is Some && self.skill is Some
                        && self.equip_slot is None,
                    UnitStateBuilderError::Rarity6 => self.rarity is Some && self.level is Some
                        && self.promotion is Some && self.skill is Some
                        && self.equip_slot is Some && self.unlock_rarity_6_slot is None
                        && self.rarity->Some_0 >= 6,
                    _ => false,
                },
            },
    {
        let UnitStateBuilder {
            unit_id,
            promotions: _,
            skill_data: _,
            rarity,
            level,
            promotion,
            skill,
            equip_slot,
            unique_equip_slot,
            unlock_rarity_6_slot,
            story,
        } = self;
        let rarity = match rarity {
            Option::Some(r) => r,
            Option::None => {
                return Err(UnitStateBuilderError::Rarity);
            },
        };
        let level = match level {
            Option::Some(l) => l,
            Option::None => {
                return Err(UnitStateBuilderError::Level);
            },
        };
        let promotion = match promotion {
            Option::Some(p) => p,
            Option::None => {
                return Err(UnitStateBuilderError::Promotion);
            },
        };
        let skill = match skill {
            Option::Some(s) => s,
            Option::None => {
                return Err(UnitStateBuilderError::Skill);
            },
        };
        let equip_slot = match equip_slot {
            Option::Some(e) => e,
            Option::None => {
                return Err(UnitStateBuilderError::EquipSlot);
            },
        };
        if unlock_rarity_6_slot.is_none() && rarity >= 6 {
            return Err(UnitStateBuilderError::Rarity6);
        }
        Ok(UnitState {
            id: unit_id,
            rarity,
            level,
            promotion,
            skill,
            equip_slot,
            unique_equip_slot,
            unlock_rarity_6_slot,
            story,
        })
    }
}

} // verus!
