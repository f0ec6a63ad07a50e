//! The immutable per-unit cache: everything the power computation reads
//! besides the mutable session state. Built once from raw records and
//! shared read-only afterwards.

use vstd::prelude::*;
use crate::limits::{MAX_STAT, MAX_LEVEL, MAX_COUNT, B_EQUIP_ITEM, B_UNLOCK};
use crate::data::{StoryData, DataManagerError, equip_param_spec, equip_param_calc};
use crate::equip::{EquipSlot, UnlockRarity6Slot};
use crate::model::UnitStatusCoefficient;
use crate::skill::{UnitSkill, copy_skills};
use crate::state::{StoryGroup, UnitState};
use crate::status::{StatusVector, STATUS_LEN, seq_add, seq_scale, seq_emul, seq_round, seq_bounded, zero_status, fits_i128};

verus! {

/// One unlockable-slot step, pre-projected: the integral stats granted
/// at one unlock level.
#[derive(Debug, Clone)]
pub struct UnlockRarity6Cache {
    pub status: StatusVector,
}

impl UnlockRarity6Cache {
    pub open spec fn wf(&self) -> bool {
        &&& self.status.wf()
        &&& seq_bounded(self.status@, MAX_STAT as int)
    }
}

/// One piece of equipment, pre-projected for the stat formula.
#[derive(Debug, Clone)]
pub struct EquipmentCache {
    pub id: i64,
    pub data: StatusVector,
    pub enhance_rate: StatusVector,
    pub max_enhance_level: i32,
}

impl EquipmentCache {
    pub open spec fn wf(&self) -> bool {
        &&& self.data.wf()
        &&& self.enhance_rate.wf()
        &&& seq_bounded(self.data@, MAX_STAT as int)
        &&& seq_bounded(self.enhance_rate@, MAX_STAT as int)
    }

    /// Stats granted when worn at `enhancement_level`.
    pub fn param(&self, enhancement_level: i32) -> (r: StatusVector)
        requires
            self.wf(),
            0 <= enhancement_level <= MAX_LEVEL,
        ensures
            r.wf(),
            r@ == equip_param_spec(self.data@, self.enhance_rate@, enhancement_level as int),
            seq_bounded(r@, B_EQUIP_ITEM as int),
    {
        equip_param_calc(&self.data, &self.enhance_rate, enhancement_level)
    }

    /// The fresh, unworn slot for this equipment.
    pub fn slot(&self) -> (r: EquipSlot)
        ensures
            r == (EquipSlot::Unequipped {
                id: self.id,
                max_enhancement_level: Some(self.max_enhance_level),
            }),
    {
        EquipSlot::Unequipped { id: self.id, max_enhancement_level: Some(self.max_enhance_level) }
    }
}

/// A unit's unique equipment, pre-projected for the stat formula.
#[derive(Debug, Clone)]
pub struct UniqueEquipmentCache {
    pub id: i64,
    pub status: StatusVector,
    pub enhance_rate: StatusVector,
    pub max_enhancement_level: i32,
}

impl UniqueEquipmentCache {
    pub open spec fn wf(&self) -> bool {
        &&& self.status.wf()
        &&& self.enhance_rate.wf()
        &&& seq_bounded(self.status@, MAX_STAT as int)
        &&& seq_bounded(self.enhance_rate@, MAX_STAT as int)
    }

    /// Stats granted when worn at `enhancement_level`; the unique
    /// formula offsets the level by minus one.
    pub fn param(&self, enhancement_level: i32) -> (r: StatusVector)
        requires
            self.wf(),
            0 <= enhancement_level <= MAX_LEVEL,
        ensures
            r.wf(),
            r@ == equip_param_spec(self.status@, self.enhance_rate@, enhancement_level - 1),
            seq_bounded(r@, B_EQUIP_ITEM as int),
    {
        equip_param_calc(&self.status, &self.enhance_rate,
            enhancement_level + crate::model::UNIQUE_EQUIPMENT_ENHANCE_LV_OFFSET)
    }

    /// The fresh, unworn slot for this equipment.
    pub fn slot(&self) -> (r: EquipSlot)
        ensures
            r == (EquipSlot::Unequipped {
                id: self.id,
                max_enhancement_level: Some(self.max_enhancement_level),
            }),
    {
        EquipSlot::Unequipped {
            id: self.id,
            max_enhancement_level: Some(self.max_enhancement_level),
        }
    }
}

/// The fresh slot a promotion-rank equipment entry maps to.
pub open spec fn slot_of(e: Option<EquipmentCache>) -> EquipSlot {
    match e {
        Option::None => EquipSlot::Empty,
        Option::Some(e) => EquipSlot::Unequipped {
            id: e.id,
            max_enhancement_level: Some(e.max_enhance_level),
        },
    }
}

/// One promotion rank, pre-projected: six optional equipment entries and
/// optional flat and bonus stats.
#[derive(Debug, Clone)]
pub struct UnitPromotionCache {
    pub equipments: Vec<Option<EquipmentCache>>,
    pub status: Option<StatusVector>,
    pub bonus: Option<StatusVector>,
}

impl UnitPromotionCache {
    pub open spec fn wf(&self) -> bool {
        &&& self.equipments@.len() == 6
        &&& forall|i: int| 0 <= i < 6 ==> match #[trigger] self.equipments@[i] {
            Option::Some(e) => e.wf(),
            Option::None => true,
        }
        &&& match self.status {
            Option::Some(s) => s.wf() && seq_bounded(s@, MAX_STAT as int),
            Option::None => true,
        }
        &&& match self.bonus {
            Option::Some(b) => b.wf() && seq_bounded(b@, MAX_STAT as int),
            Option::None => true,
        }
    }

    /// Fresh slots for this rank: unworn where equipment exists, empty
    /// where none does.
    pub fn equipments_to_slots(&self) -> (r: Vec<EquipSlot>)
        ensures
            r@.len() == self.equipments@.len(),
            forall|i: int| 0 <= i < r@.len() ==> r@[i] == slot_of(#[trigger] self.equipments@[i]),
    {
        let mut r: Vec<EquipSlot> = Vec::new();
        let n = self.equipments.len();
        let mut i: usize = 0;
        while i < n
            invariant
                i <= n,
                n == self.equipments@.len(),
                r@.len() == i,
                forall|j: int| 0 <= j < i ==> r@[j] == slot_of(#[trigger] self.equipments@[j]),
            decreases n - i,
        {
            let s = match &self.equipments[i] {
                Option::Some(e) => e.slot(),
                Option::None => EquipSlot::Empty,
            };
            r.push(s);
            i = i + 1;
        }
        r
    }
}

/// Per-rarity base stats and growth, pre-projected.
#[derive(Debug, Clone)]
pub struct UnitRarityCache {
    pub status: StatusVector,
    pub growth: StatusVector,
}

impl UnitRarityCache {
    pub open spec fn wf(&self) -> bool {
        &&& self.status.wf()
        &&& self.growth.wf()
        &&& seq_bounded(self.status@, MAX_STAT as int)
        &&& seq_bounded(self.growth@, MAX_STAT as int)
    }
}

/// The immutable cache of one unit.
#[derive(Debug, Clone)]
pub struct UnitCache {
    /// Id.
    pub unit_id: i64,
    /// The skill roster, levels all one.
    pub skill: UnitSkill,
    /// Per-rarity data; index is rarity minus one.
    pub rarity: Vec<UnitRarityCache>,
    /// Per-rank data; index is promotion rank minus one.
    pub promotion: Vec<UnitPromotionCache>,
    /// The unique equipment, when the unit has one.
    pub unique_equip: Option<UniqueEquipmentCache>,
    /// Three ordered unlockable-slot lists, when the unit has them.
    pub unlock_rarity_6: Option<Vec<Vec<UnlockRarity6Cache>>>,
    /// Story groups keyed by group id; ids are distinct.
    pub story: Vec<(i64, StoryData)>,
    pub status_coefficient: UnitStatusCoefficient,
    /// The coefficient weight vector, kept at hand for the dot product.
    pub status_coefficient_cache: StatusVector,
}

pub open spec fn unlock_lists_wf(ls: Seq<Vec<UnlockRarity6Cache>>) -> bool {
    &&& ls.len() == 3
    &&& forall|k: int, j: int| 0 <= k < 3 && 0 <= j < (#[trigger] ls[k])@.len()
        ==> (#[trigger] ls[k]@[j]).wf()
    &&& forall|k: int| 0 <= k < 3 ==> 0 < (#[trigger] ls[k])@.len() <= MAX_COUNT
}

impl UnitCache {
    pub open spec fn wf(&self) -> bool {
        &&& self.skill.wf()
        &&& 1 <= self.rarity@.len() <= MAX_COUNT
        &&& forall|i: int| 0 <= i < self.rarity@.len() ==> (#[trigger] self.rarity@[i]).wf()
        &&& 1 <= self.promotion@.len() <= MAX_COUNT
        &&& forall|i: int| 0 <= i < self.promotion@.len() ==> (#[trigger] self.promotion@[i]).wf()
        &&& match self.unique_equip {
            Option::Some(u) => u.wf(),
            Option::None => true,
        }
        &&& match self.unlock_rarity_6 {
            Option::Some(ls) => unlock_lists_wf(ls@),
            Option::None => true,
        }
        &&& self.story@.len() <= MAX_COUNT
        &&& forall|i: int| 0 <= i < self.story@.len() ==> {
            &&& (#[trigger] self.story@[i]).1.wf()
            &&& self.story@[i].1.0@.len() > 0
            &&& self.story@[i].1.0@[0].story_id >= 0
            &&& self.story@[i].0 == self.story@[i].1.0@[0].story_id as int / 1000
        }
        &&& forall|i: int, j: int| 0 <= i < j < self.story@.len()
            ==> (#[trigger] self.story@[i]).0 != (#[trigger] self.story@[j]).0
        &&& self.status_coefficient.wf()
        &&& self.status_coefficient_cache.wf()
        &&& self.status_coefficient_cache@ == self.status_coefficient.weights@
    }

    /// Contribution of one unlockable slot at unlock level `lv`: the
    /// stats of step `lv` of its list, or nothing at level zero.
    pub open spec fn unlock_contrib(l: Vec<UnlockRarity6Cache>, lv: i32) -> Seq<int> {
        if lv > 0 {
            l@[lv - 1].status@
        } else {
            zero_status()
        }
    }

    /// The unlockable-slot parameter: the sum of the three slots'
    /// contributions at the given levels.
    pub open spec fn unlock_param_spec(ls: Seq<Vec<UnlockRarity6Cache>>, levels: Seq<i32>)
        -> Seq<int> {
        seq_add(seq_add(Self::unlock_contrib(ls[0], levels[0]),
            Self::unlock_contrib(ls[1], levels[1])), Self::unlock_contrib(ls[2], levels[2]))
    }

    /// The integral unlockable-slot parameter at the given slot levels.
    pub fn unlock_rarity_6_param(&self, level: [i32; 3]) -> (r: StatusVector)
        requires
            self.wf(),
            self.unlock_rarity_6 is Some,
            forall|k: int| 0 <= k < 3 ==>
                0 <= level@[k] <= (#[trigger] self.unlock_rarity_6->Some_0@[k])@.len(),
        ensures
            r.wf(),
            r@ == Self::unlock_param_spec(self.unlock_rarity_6->Some_0@, level@),
            seq_bounded(r@, B_UNLOCK as int),
    {
        let mut param = StatusVector::zeros();
        match &self.unlock_rarity_6 {
            Option::Some(ls) => {
                if level[0] > 0 {
                    param = param.add(&ls[0][(level[0] - 1) as usize].status);
                }
                if level[1] > 0 {
                    param = param.add(&ls[1][(level[1] - 1) as usize].status);
                }
                if level[2] > 0 {
                    param = param.add(&ls[2][(level[2] - 1) as usize].status);
                }
                assert(param@ =~= Self::unlock_param_spec(ls@, level@));
            },
            Option::None => {
                proof {
                    assert(false);
                }
            },
        }
        param
    }

    /// The unique equipment's stats at `enhancement_level`.
    pub fn unique_equip_param(&self, enhancement_level: i32) -> (r: StatusVector)
        requires
            self.wf(),
            self.unique_equip is Some,
            0 <= enhancement_level <= MAX_LEVEL,
        ensures
            r.wf(),
            r@ == equip_param_spec(self.unique_equip->Some_0.status@,
                self.unique_equip->Some_0.enhance_rate@, enhancement_level - 1),
            seq_bounded(r@, B_EQUIP_ITEM as int),
    {
        match &self.unique_equip {
            Option::Some(u) => u.param(enhancement_level),
            Option::None => {
                proof {
                    assert(false);
                }
                StatusVector::zeros()
            },
        }
    }
}

} // verus!

verus! {

/// Whether one equipment slot's enhancement level is within limits.
pub open spec fn slot_level_wf(s: EquipSlot) -> bool {
    match s {
        EquipSlot::Equipped { enhancement_level, .. } => 0 <= enhancement_level <= MAX_LEVEL,
        _ => true,
    }
}

/// Well-formedness of a session state against its cache: every index the
/// computation takes is in range, every level within limits, and the
/// slot layout matches the current promotion rank.
pub open spec fn state_wf(cache: UnitCache, state: UnitState) -> bool {
    &&& 1 <= state.rarity <= cache.rarity@.len()
    &&& 0 <= state.level <= MAX_LEVEL
    &&& 1 <= state.promotion <= cache.promotion@.len()
    &&& cache.promotion@[state.promotion - 1].status is Some
    &&& state.skill.wf()
    &&& state.equip_slot@.len() == 6
    &&& forall|j: int| 0 <= j < 6 ==> slot_level_wf(#[trigger] state.equip_slot@[j])
    &&& forall|j: int| 0 <= j < 6 ==>
        (cache.promotion@[state.promotion - 1].equipments@[j] is None
            ==> #[trigger] state.equip_slot@[j] is Empty)
    &&& match cache.unique_equip {
        Option::Some(_) => {
            &&& state.unique_equip_slot@.len() == 1
            &&& !(state.unique_equip_slot@[0] is Empty)
            &&& slot_level_wf(state.unique_equip_slot@[0])
        },
        Option::None => state.unique_equip_slot@.len() == 0,
    }
    &&& (state.unlock_rarity_6_slot is Some <==> cache.unlock_rarity_6 is Some)
    &&& (state.rarity >= 6 ==> state.unlock_rarity_6_slot is Some)
    &&& match (state.unlock_rarity_6_slot, cache.unlock_rarity_6) {
        (Option::Some(sl), Option::Some(ls)) => {
            &&& 0 <= sl.slot_1_level <= ls@[0]@.len()
            &&& 0 <= sl.slot_2_level <= ls@[1]@.len()
            &&& 0 <= sl.slot_3_level <= ls@[2]@.len()
        },
        _ => true,
    }
    &&& state.story@.len() == cache.story@.len()
    &&& forall|i: int| 0 <= i < state.story@.len() ==> {
        &&& (#[trigger] state.story@[i]).story_group_id == cache.story@[i].0
        &&& state.story@[i].total == cache.story@[i].1.0@.len()
        &&& state.story@[i].watched <= state.story@[i].total
    }
}

impl UnitCache {
    /// A fresh session state with the documented defaults: the lowest
    /// rarity and promotion rank the cache supports, level one, every
    /// skill at level one, every equipment slot unworn, no unlockable
    /// slot filled and no story watched.
    pub fn unit_state(&self) -> (r: UnitState)
        requires
            self.wf(),
            self.promotion@[0].status is Some,
        ensures
            state_wf(*self, r),
            r.id == self.unit_id,
            r.rarity == 1,
            r.level == 1,
            r.promotion == 1,
            r.skill.union_burst@ == self.skill.union_burst@,
            r.skill.main_skill@ == self.skill.main_skill@,
            r.skill.ex_skill@ == self.skill.ex_skill@,
            r.skill.free_skill@ == self.skill.free_skill@,
            forall|j: int| 0 <= j < 6 ==>
                r.equip_slot@[j] == slot_of(#[trigger] self.promotion@[0].equipments@[j]),
            match self.unique_equip {
                Option::Some(u) => r.unique_equip_slot@.len() == 1
                    && r.unique_equip_slot@[0] == (EquipSlot::Unequipped {
                        id: u.id,
                        max_enhancement_level: Some(u.max_enhancement_level),
                    }),
                Option::None => r.unique_equip_slot@.len() == 0,
            },
            match r.unlock_rarity_6_slot {
                Option::Some(sl) => self.unlock_rarity_6 is Some
                    && sl.slot_1_level == 0 && sl.slot_2_level == 0 && sl.slot_3_level == 0,
                Option::None => self.unlock_rarity_6 is None,
            },
            forall|i: int| 0 <= i < self.story@.len() ==> {
                &&& (#[trigger] r.story@[i]).story_group_id == self.story@[i].0
                &&& r.story@[i].total == self.story@[i].1.0@.len()
                &&& r.story@[i].watched == 0
            },
    {
        let equip_slot = self.promotion[0].equipments_to_slots();
        proof {
            assert forall|j: int| 0 <= j < 6 implies
                slot_level_wf(#[trigger] equip_slot@[j]) by {
                assert(equip_slot@[j] == slot_of(self.promotion@[0].equipments@[j]));
            }
        }
        let mut unique_equip_slot: Vec<EquipSlot> = Vec::new();
        match &self.unique_equip {
            Option::Some(u) => {
                unique_equip_slot.push(u.slot());
            },
            Option::None => {},
        }
        let unlock_rarity_6_slot = match &self.unlock_rarity_6 {
            Option::Some(_) => Some(UnlockRarity6Slot {
                slot_1_level: 0,
                slot_2_level: 0,
                slot_3_level: 0,
            }),
            Option::None => None,
        };
        let mut story: Vec<StoryGroup> = Vec::new();
        let n = self.story.len();
        let mut i: usize = 0;
        while i < n
            invariant
                i <= n,
                n == self.story@.len(),
                story@.len() == i,
                forall|j: int| 0 <= j < i ==> {
                    &&& (#[trigger] story@[j]).story_group_id == self.story@[j].0
                    &&& story@[j].total == self.story@[j].1.0@.len()
                    &&& story@[j].watched == 0
                },
            decreases n - i,
        {
            let g = self.story[i].1.story_group();
            story.push(g);
            i = i + 1;
        }
        let skill = UnitSkill {
            union_burst: copy_skills(&self.skill.union_burst),
            main_skill: copy_skills(&self.skill.main_skill),
            ex_skill: copy_skills(&self.skill.ex_skill),
            free_skill: copy_skills(&self.skill.free_skill),
        };
        UnitState {
            id: self.unit_id,
            rarity: 1,
            level: 1,
            promotion: 1,
            skill,
            equip_slot,
            unique_equip_slot,
            unlock_rarity_6_slot,
            story,
        }
    }
}

} // verus!

verus! {

/// Whether an equipment record with the given id exists.
pub open spec fn equip_id_present(equips: Seq<crate::data::EquipmentData>, id: i64) -> bool {
    exists|j: int| 0 <= j < equips.len() && (#[trigger] equips[j]).id == id
}

/// Whether a unique equipment record with the given id exists.
pub open spec fn unique_id_present(
    uniques: Seq<crate::data::UniqueEquipmentData>,
    id: i64,
) -> bool {
    exists|j: int| 0 <= j < uniques.len() && (#[trigger] uniques[j]).id == id
}

pub open spec fn equips_wf(equips: Seq<crate::data::EquipmentData>) -> bool {
    forall|j: int| 0 <= j < equips.len() ==> (#[trigger] equips[j]).wf()
}

pub open spec fn uniques_wf(uniques: Seq<crate::data::UniqueEquipmentData>) -> bool {
    forall|j: int| 0 <= j < uniques.len() ==> (#[trigger] uniques[j]).wf()
}

/// Every equipment id a rank references has a record.
pub open spec fn rank_resolvable(
    p: crate::model::UnitPromotion,
    equips: Seq<crate::data::EquipmentData>,
) -> bool {
    forall|j: int| 0 <= j < p.equip_slot@.len()
        ==> ((#[trigger] p.equip_slot@[j]) != crate::model::EMPTY_EQUIP_ID
            ==> equip_id_present(equips, p.equip_slot@[j]))
}

/// How a built promotion-rank cache relates to its source data.
pub open spec fn promo_cache_matches(
    pc: UnitPromotionCache,
    p: crate::data::UnitPromotion,
    equips: Seq<crate::data::EquipmentData>,
) -> bool {
    &&& pc.equipments@.len() == 6
    &&& forall|j: int| 0 <= j < 6 ==> match #[trigger] pc.equipments@[j] {
        Option::None => p.promotion.equip_slot@[j] == crate::model::EMPTY_EQUIP_ID,
        Option::Some(e) => {
            &&& p.promotion.equip_slot@[j] != crate::model::EMPTY_EQUIP_ID
            &&& e.id == p.promotion.equip_slot@[j]
            &&& exists|k: int| 0 <= k < equips.len() && {
                let q = #[trigger] equips[k];
                &&& q.id == e.id
                &&& e.data@ == q.data.status@
                &&& e.enhance_rate@ == q.enhance_rate.status@
                &&& e.max_enhance_level == q.max_enhance_level
            }
        },
    }
    &&& match (pc.status, p.status) {
        (Option::None, Option::None) => true,
        (Option::Some(a), Option::Some(b)) => a@ == b.status@,
        _ => false,
    }
    &&& match (pc.bonus, p.bonus) {
        (Option::None, Option::None) => true,
        (Option::Some(a), Option::Some(b)) => a@ == b.status@,
        _ => false,
    }
}

/// Look an equipment record up by id and pre-project it.
fn find_equip(equips: &Vec<crate::data::EquipmentData>, id: i64) -> (r: Option<EquipmentCache>)
    requires
        equips_wf(equips@),
    ensures
        match r {
            Option::Some(c) => {
                &&& c.wf()
                &&& c.id == id
                &&& exists|j: int| 0 <= j < equips@.len() && {
                    let q = #[trigger] equips@[j];
                    &&& q.id == id
                    &&& c.data@ == q.data.status@
                    &&& c.enhance_rate@ == q.enhance_rate.status@
                    &&& c.max_enhance_level == q.max_enhance_level
                }
            },
            Option::None => !equip_id_present(equips@, id),
        },
{
    let mut j: usize = 0;
    while j < equips.len()
        invariant
            j <= equips@.len(),
            forall|k: int| 0 <= k < j ==> (#[trigger] equips@[k]).id != id,
        decreases equips@.len() - j,
    {
        if equips[j].id == id {
            return Some(equips[j].cached());
        }
        j = j + 1;
    }
    None
}

/// Look a unique equipment record up by id and pre-project it.
fn find_unique(uniques: &Vec<crate::data::UniqueEquipmentData>, id: i64)
    -> (r: Option<UniqueEquipmentCache>)
    requires
        uniques_wf(uniques@),
    ensures
        match r {
            Option::Some(c) => {
                &&& c.wf()
                &&& c.id == id
                &&& exists|j: int| 0 <= j < uniques@.len() && {
                    let q = #[trigger] uniques@[j];
                    &&& q.id == id
                    &&& c.status@ == q.data.status@
                    &&& c.enhance_rate@ == q.enhance_rate.status@
                    &&& c.max_enhancement_level == q.max_enhancement_level
                }
            },
            Option::None => !unique_id_present(uniques@, id),
        },
{
    let mut j: usize = 0;
    while j < uniques.len()
        invariant
            j <= uniques@.len(),
            forall|k: int| 0 <= k < j ==> (#[trigger] uniques@[k]).id != id,
        decreases uniques@.len() - j,
    {
        if uniques[j].id == id {
            return Some(uniques[j].cached());
        }
        j = j + 1;
    }
    None
}

/// Resolve the six equipment ids of one promotion rank.
fn resolve_rank(p: &crate::data::UnitPromotion, equips: &Vec<crate::data::EquipmentData>)
    -> (r: Result<UnitPromotionCache, DataManagerError>)
    requires
        equips_wf(equips@),
        p.promotion.equip_slot@.len() == 6,
        match p.status {
            Option::Some(s) => s.status.wf() && seq_bounded(s.status@, MAX_STAT as int),
            Option::None => true,
        },
        match p.bonus {
            Option::Some(b) => b.status.wf() && seq_bounded(b.status@, MAX_STAT as int),
            Option::None => true,
        },
    ensures
        r is Ok <==> rank_resolvable(p.promotion, equips@),
        match r {
            Result::Ok(pc) => pc.wf() && promo_cache_matches(pc, *p, equips@),
            Result::Err(e) => match e {
                DataManagerError::EquipNotFound(id) => exists|j: int|
                    0 <= j < 6 && (#[trigger] p.promotion.equip_slot@[j]) == id
                        && id != crate::model::EMPTY_EQUIP_ID && !equip_id_present(equips@, id),
                _ => false,
            },
        },
{
    let mut equipments: Vec<Option<EquipmentCache>> = Vec::new();
    let mut j: usize = 0;
    while j < 6
        invariant
            j <= 6,
            equipments@.len() == j,
            forall|k: int| 0 <= k < j ==> match #[trigger] equipments@[k] {
                Option::None => p.promotion.equip_slot@[k] == crate::model::EMPTY_EQUIP_ID,
                Option::Some(e) => {
                    &&& p.promotion.equip_slot@[k] != crate::model::EMPTY_EQUIP_ID
                    &&& e.id == p.promotion.equip_slot@[k]
                    &&& e.wf()
                    &&& exists|m: int| 0 <= m < equips@.len() && {
                        let q = #[trigger] equips@[m];
                        &&& q.id == e.id
                        &&& e.data@ == q.data.status@
                        &&& e.enhance_rate@ == q.enhance_rate.status@
                        &&& e.max_enhance_level == q.max_enhance_level
                    }
                },
            },
            forall|k: int| 0 <= k < j ==> ((#[trigger] p.promotion.equip_slot@[k])
                != crate::model::EMPTY_EQUIP_ID
                ==> equip_id_present(equips@, p.promotion.equip_slot@[k])),
        decreases 6 - j,
    {
        let id = p.promotion.equip_slot[j];
        if id == crate::model::EMPTY_EQUIP_ID {
            equipments.push(None);
        } else {
            match find_equip(equips, id) {
                Option::Some(c) => {
                    equipments.push(Some(c));
                },
                Option::None => {
                    return Err(DataManagerError::EquipNotFound(id));
                },
            }
        }
        j = j + 1;
    }
    let status = match &p.status {
        Option::Some(s) => Some(s.status.duplicate()),
        Option::None => None,
    };
    let bonus = match &p.bonus {
        Option::Some(b) => Some(b.status.duplicate()),
        Option::None => None,
    };
    Ok(UnitPromotionCache { equipments, status, bonus })
}

} // verus!

verus! {

/// Whether a cache can be built from this data: every referenced
/// equipment id has a record, and the unit declares at most one unique
/// equipment whose record exists.
pub open spec fn cache_resolvable(
    d: crate::data::UnitData,
    equips: Seq<crate::data::EquipmentData>,
    uniques: Seq<crate::data::UniqueEquipmentData>,
) -> bool {
    &&& forall|i: int| 0 <= i < d.promotion@.len()
        ==> rank_resolvable((#[trigger] d.promotion@[i]).promotion, equips)
    &&& d.unique_equip@.len() <= 1
    &&& (d.unique_equip@.len() == 1 ==> unique_id_present(uniques, d.unique_equip@[0].equip_id))
}

/// Well-formedness of assembled unit data as input of the cache builder.
pub open spec fn unit_data_wf(d: crate::data::UnitData) -> bool {
    &&& 1 <= d.promotion@.len() <= MAX_COUNT
    &&& forall|i: int| 0 <= i < d.promotion@.len() ==> {
        let p = #[trigger] d.promotion@[i];
        &&& p.promotion.equip_slot@.len() == 6
        &&& match p.status {
            Option::Some(s) => s.status.wf() && seq_bounded(s.status@, MAX_STAT as int),
            Option::None => true,
        }
        &&& match p.bonus {
            Option::Some(b) => b.status.wf() && seq_bounded(b.status@, MAX_STAT as int),
            Option::None => true,
        }
    }
    &&& 1 <= d.rarity@.len() <= MAX_COUNT
    &&& forall|i: int| 0 <= i < d.rarity@.len() ==> {
        let r = #[trigger] d.rarity@[i];
        &&& r.status.wf()
        &&& r.growth.wf()
        &&& seq_bounded(r.status@, MAX_STAT as int)
        &&& seq_bounded(r.growth@, MAX_STAT as int)
    }
    &&& match d.unlock_rarity_6 {
        Option::Some(ls) => {
            &&& ls@.len() == 3
            &&& forall|k: int| 0 <= k < 3 ==> 0 < (#[trigger] ls@[k])@.len() <= MAX_COUNT
            &&& forall|k: int, j: int| 0 <= k < 3 && 0 <= j < (#[trigger] ls@[k])@.len()
                ==> (#[trigger] ls@[k]@[j]).status.wf()
                    && seq_bounded(ls@[k]@[j].status@, MAX_STAT as int)
        },
        Option::None => true,
    }
    &&& d.stories@.len() <= MAX_COUNT
    &&& forall|i: int| 0 <= i < d.stories@.len() ==> {
        let g = #[trigger] d.stories@[i];
        &&& g.1.wf()
        &&& g.1.0@.len() > 0
        &&& g.1.0@[0].story_id >= 0
        &&& g.0 == g.1.0@[0].story_id as int / 1000
    }
    &&& forall|a: int, b: int| 0 <= a < b < d.stories@.len()
        ==> (#[trigger] d.stories@[a]).0 != (#[trigger] d.stories@[b]).0
    &&& d.skill_data.wf()
}

/// Build one unit's immutable cache from its assembled data, the
/// equipment records its ranks reference, the unit's unique equipment
/// records, and the global coefficient table.
#[verifier::rlimit(60)]
pub fn unit_cache(
    unit_data: &crate::data::UnitData,
    equips: &Vec<crate::data::EquipmentData>,
    unique_equips: &Vec<crate::data::UniqueEquipmentData>,
    status_coefficient: &UnitStatusCoefficient,
) -> (r: Result<UnitCache, DataManagerError>)
    requires
        unit_data_wf(*unit_data),
        equips_wf(equips@),
        uniques_wf(unique_equips@),
        status_coefficient.wf(),
    ensures
        r is Ok <==> cache_resolvable(*unit_data, equips@, unique_equips@),
        match r {
            Result::Ok(c) => {
                &&& c.wf()
                &&& c.unit_id == unit_data.unit_id
                &&& c.promotion@.len() == unit_data.promotion@.len()
                &&& forall|i: int| 0 <= i < c.promotion@.len() ==> promo_cache_matches(
                    #[trigger] c.promotion@[i], unit_data.promotion@[i], equips@)
                &&& c.rarity@.len() == unit_data.rarity@.len()
                &&& forall|i: int| 0 <= i < c.rarity@.len() ==> {
                    &&& (#[trigger] c.rarity@[i]).status@ == unit_data.rarity@[i].status@
                    &&& c.rarity@[i].growth@ == unit_data.rarity@[i].growth@
                }
                &&& match c.unique_equip {
                    Option::None => unit_data.unique_equip@.len() == 0,
                    Option::Some(u) => {
                        &&& unit_data.unique_equip@.len() == 1
                        &&& u.id == unit_data.unique_equip@[0].equip_id
                        &&& exists|k: int| 0 <= k < unique_equips@.len() && {
                            let q = #[trigger] unique_equips@[k];
                            &&& q.id == u.id
                            &&& u.status@ == q.data.status@
                            &&& u.enhance_rate@ == q.enhance_rate.status@
                            &&& u.max_enhancement_level == q.max_enhancement_level
                        }
                    },
                }
                &&& (c.unlock_rarity_6 is Some <==> unit_data.unlock_rarity_6 is Some)
                &&& match (c.unlock_rarity_6, unit_data.unlock_rarity_6) {
                    (Option::Some(cls), Option::Some(dls)) => {
                        &&& cls@.len() == 3
                        &&& forall|k: int| 0 <= k < 3
                            ==> (#[trigger] cls@[k])@.len() == dls@[k]@.len()
                        &&& forall|k: int, j: int| 0 <= k < 3 && 0 <= j < (#[trigger] cls@[k])@.len()
                            ==> (#[trigger] cls@[k]@[j]).status@ == dls@[k]@[j].status@
                    },
                    (Option::None, Option::None) => true,
                    _ => false,
                }
                &&& c.story@.len() == unit_data.stories@.len()
                &&& forall|i: int| 0 <= i < c.story@.len() ==> {
                    &&& (#[trigger] c.story@[i]).0 == unit_data.stories@[i].0
                    &&& c.story@[i].1.0@.len() == unit_data.stories@[i].1.0@.len()
                }
                &&& forall|i: int, j: int| 0 <= i < c.story@.len()
                    && 0 <= j < (#[trigger] c.story@[i]).1.0@.len() ==> {
                    &&& (#[trigger] c.story@[i].1.0@[j]).story_id
                        == unit_data.stories@[i].1.0@[j].story_id
                    &&& c.story@[i].1.0@[j].status@ == unit_data.stories@[i].1.0@[j].status@
                }
                &&& c.skill.free_skill@.len() == 0
                &&& c.skill.union_burst@.len() == unit_data.skill_data.union_burst@.len()
                &&& forall|i: int| 0 <= i < unit_data.skill_data.union_burst@.len()
                    ==> c.skill.union_burst@[i] == (crate::skill::SkillLevelInfo {
                        skill_id: unit_data.skill_data.union_burst@[i],
                        skill_evolution_id: crate::state::ub_evo(unit_data.skill_data, i),
                        skill_level: 1,
                    })
                &&& c.skill.main_skill@.len() == unit_data.skill_data.main_skill@.len()
                &&& forall|i: int| 0 <= i < unit_data.skill_data.main_skill@.len()
                    ==> c.skill.main_skill@[i] == (crate::skill::SkillLevelInfo {
                        skill_id: unit_data.skill_data.main_skill@[i],
                        skill_evolution_id: crate::state::evo_at(
                            unit_data.skill_data.main_skill_evolution@, i),
                        skill_level: 1,
                    })
                &&& c.skill.ex_skill@.len() == unit_data.skill_data.ex_skill@.len()
                &&& forall|i: int| 0 <= i < unit_data.skill_data.ex_skill@.len()
                    ==> c.skill.ex_skill@[i] == (crate::skill::SkillLevelInfo {
                        skill_id: unit_data.skill_data.ex_skill@[i],
                        skill_evolution_id: crate::state::evo_at(
                            unit_data.skill_data.ex_skill_evolution@, i),
                        skill_level: 1,
                    })
                &&& c.status_coefficient.weights@ == status_coefficient.weights@
                &&& c.status_coefficient.skill_lv_coefficient
                    == status_coefficient.skill_lv_coefficient
                &&& c.status_coefficient.exskill_evolution_coefficient
                    == status_coefficient.exskill_evolution_coefficient
                &&& c.status_coefficient.skill1_evolution_coefficient
                    == status_coefficient.skill1_evolution_coefficient
                &&& c.status_coefficient.skill1_evolution_slv_coefficient
                    == status_coefficient.skill1_evolution_slv_coefficient
                &&& c.status_coefficient.ub_evolution_coefficient
                    == status_coefficient.ub_evolution_coefficient
                &&& c.status_coefficient.ub_evolution_slv_coefficient
                    == status_coefficient.ub_evolution_slv_coefficient
                &&& c.status_coefficient_cache@ == status_coefficient.weights@
            },
            Result::Err(e) => match e {
                DataManagerError::EquipNotFound(id) => {
                    ||| exists|i: int, j: int| 0 <= i < unit_data.promotion@.len() && 0 <= j < 6
                        && (#[trigger] unit_data.promotion@[i].promotion.equip_slot@[j]) == id
                        && id != crate::model::EMPTY_EQUIP_ID && !equip_id_present(equips@, id)
                    ||| (unit_data.unique_equip@.len() == 1
                        && id == unit_data.unique_equip@[0].equip_id
                        && !unique_id_present(unique_equips@, id))
                },
                DataManagerError::InvalidUniqueEquipMoreThanOne(uid) =>
                    unit_data.unique_equip@.len() > 1 && uid == unit_data.unit_id,
                _ => false,
            },
        },
{
    let mut promotion_cache: Vec<UnitPromotionCache> = Vec::new();
    let n = unit_data.promotion.len();
    let mut i: usize = 0;
    while i < n
        invariant
            i <= n,
            n == unit_data.promotion@.len(),
            promotion_cache@.len() == i,
            forall|k: int| 0 <= k < i ==> (#[trigger] promotion_cache@[k]).wf()
                && promo_cache_matches(promotion_cache@[k], unit_data.promotion@[k], equips@),
            forall|k: int| 0 <= k < i
                ==> rank_resolvable((#[trigger] unit_data.promotion@[k]).promotion, equips@),
        decreases n - i,
    {
        match resolve_rank(&unit_data.promotion[i], equips) {
            Result::Ok(pc) => {
                promotion_cache.push(pc);
            },
            Result::Err(e) => {
                return Err(e);
            },
        }
        i = i + 1;
    }
    let unique_equip: Option<UniqueEquipmentCache> = if unit_data.unique_equip.len() == 1 {
        let id = unit_data.unique_equip[0].equip_id;
        match find_unique(unique_equips, id) {
            Option::Some(u) => Some(u),
            Option::None => {
                return Err(DataManagerError::EquipNotFound(id));
            },
        }
    } else if unit_data.unique_equip.len() == 0 {
        None
    } else {
        return Err(DataManagerError::InvalidUniqueEquipMoreThanOne(unit_data.unit_id));
    };
    let unlock_rarity_6: Option<Vec<Vec<UnlockRarity6Cache>>> = match &unit_data.unlock_rarity_6 {
        Option::Some(dls) => {
            let mut cls: Vec<Vec<UnlockRarity6Cache>> = Vec::new();
            let mut k: usize = 0;
            while k < 3
                invariant
                    k <= 3,
                    cls@.len() == k,
                    dls@.len() == 3,
                    unit_data.unlock_rarity_6 == Some(*dls),
                    unit_data_wf(*unit_data),
                    forall|a: int| 0 <= a < k
                        ==> (#[trigger] cls@[a])@.len() == dls@[a]@.len(),
                    forall|a: int, j: int| 0 <= a < k && 0 <= j < (#[trigger] cls@[a])@.len()
                        ==> (#[trigger] cls@[a]@[j]).wf()
                            && cls@[a]@[j].status@ == dls@[a]@[j].status@,
                decreases 3 - k,
            {
                let src = &dls[k];
                let mut l: Vec<UnlockRarity6Cache> = Vec::new();
                let m = src.len();
                let mut j: usize = 0;
                while j < m
                    invariant
                        j <= m,
                        m == src@.len(),
                        l@.len() == j,
                        k < 3,
                        dls@.len() == 3,
                        src == &dls@[k as int],
                        unit_data.unlock_rarity_6 == Some(*dls),
                        unit_data_wf(*unit_data),
                        forall|a: int| 0 <= a < j ==> (#[trigger] l@[a]).wf()
                            && l@[a].status@ == src@[a].status@,
                    decreases m - j,
                {
                    l.push(src[j].cached());
                    j = j + 1;
                }
                cls.push(l);
                k = k + 1;
            }
            Some(cls)
        },
        Option::None => None,
    };
    let mut rarity: Vec<UnitRarityCache> = Vec::new();
    let nr = unit_data.rarity.len();
    let mut i: usize = 0;
    while i < nr
        invariant
            i <= nr,
            nr == unit_data.rarity@.len(),
            rarity@.len() == i,
            forall|k: int| 0 <= k < i ==> {
                &&& (#[trigger] rarity@[k]).wf()
                &&& rarity@[k].status@ == unit_data.rarity@[k].status@
                &&& rarity@[k].growth@ == unit_data.rarity@[k].growth@
            },
        decreases nr - i,
    {
        rarity.push(unit_data.rarity[i].cached());
        i = i + 1;
    }
    let mut story: Vec<(i64, StoryData)> = Vec::new();
    let ns = unit_data.stories.len();
    let mut i: usize = 0;
    while i < ns
        invariant
            i <= ns,
            ns == unit_data.stories@.len(),
            story@.len() == i,
            forall|k: int| 0 <= k < i ==> {
                &&& (#[trigger] story@[k]).0 == unit_data.stories@[k].0
                &&& story@[k].1.wf()
                &&& story@[k].1.0@.len() == unit_data.stories@[k].1.0@.len()
            },
            forall|k: int, j: int| 0 <= k < i && 0 <= j < (#[trigger] story@[k]).1.0@.len() ==> {
                &&& (#[trigger] story@[k].1.0@[j]).story_id
                    == unit_data.stories@[k].1.0@[j].story_id
                &&& story@[k].1.0@[j].status@ == unit_data.stories@[k].1.0@[j].status@
            },
        decreases ns - i,
    {
        let gid = unit_data.stories[i].0;
        let sd = unit_data.stories[i].1.duplicate();
        story.push((gid, sd));
        i = i + 1;
    }
    let skill = unit_data.skill_data.unit_skill_state();
    Ok(UnitCache {
        unit_id: unit_data.unit_id,
        skill,
        rarity,
        promotion: promotion_cache,
        unique_equip,
        unlock_rarity_6,
        story,
        status_coefficient: status_coefficient.duplicate(),
        status_coefficient_cache: status_coefficient.weights.duplicate(),
    })
}

} // verus!

verus! {

/// Base parameter computed directly from chosen rank, level and rarity,
/// with absent promotion rows contributing nothing.
pub open spec fn base_param_direct_spec(c: UnitCache, rank: int, level: int, rarity: int)
    -> Seq<int> {
    let rc = c.rarity@[rarity - 1];
    let p = c.promotion@[rank - 1];
    let grown = seq_add(seq_add(rc.status@, seq_scale(rc.growth@, level)),
        seq_emul(rc.growth@, crate::calc::rank_up_bonus_spec(rank)));
    let with_status = match p.status {
        Option::Some(s) => seq_add(grown, s@),
        Option::None => grown,
    };
    let with_bonus = match p.bonus {
        Option::Some(b) => seq_add(with_status, b@),
        Option::None => with_status,
    };
    seq_round(with_bonus)
}

/// One slot's contribution under an explicit worn-flag and level pair.
pub open spec fn pair_contrib_spec(c: UnitCache, rank: int, equip: Seq<(bool, i32)>, j: int)
    -> Seq<int> {
    match c.promotion@[rank - 1].equipments@[j] {
        Option::Some(e) => if equip[j].0 {
            crate::data::equip_param_spec(e.data@, e.enhance_rate@, equip[j].1 as int)
        } else {
            zero_status()
        },
        Option::None => zero_status(),
    }
}

pub open spec fn pair_equip_prefix_spec(c: UnitCache, rank: int, equip: Seq<(bool, i32)>, j: int)
    -> Seq<int>
    decreases j,
{
    if j <= 0 {
        zero_status()
    } else {
        seq_add(pair_equip_prefix_spec(c, rank, equip, j - 1),
            pair_contrib_spec(c, rank, equip, j - 1))
    }
}

/// The story parameter when watch counts come as a list keyed by group
/// id: the first matching count applies, absent groups count zero.
pub open spec fn watched_of(wb: Seq<(i64, i64)>, gid: i64) -> int
    decreases wb.len(),
{
    if wb.len() == 0 {
        0
    } else if wb[0].0 == gid {
        wb[0].1 as int
    } else {
        watched_of(wb.drop_first(), gid)
    }
}

pub open spec fn story_accum_by_spec(c: UnitCache, wb: Seq<(i64, i64)>, i: int) -> Seq<int>
    decreases i,
{
    if i <= 0 {
        zero_status()
    } else {
        seq_add(story_accum_by_spec(c, wb, i - 1),
            crate::data::story_prefix(c.story@[i - 1].1.0@, watched_of(wb, c.story@[i - 1].0)))
    }
}

/// Find the watched count recorded for a group id; zero when absent.
fn find_watched(wb: &Vec<(i64, i64)>, gid: i64) -> (r: i64)
    requires
        forall|i: int| 0 <= i < wb@.len() ==> 0 <= (#[trigger] wb@[i]).1 <= MAX_LEVEL,
    ensures
        r == watched_of(wb@, gid),
        0 <= r <= MAX_LEVEL,
{
    let n = wb.len();
    let mut i: usize = 0;
    proof {
        assert(wb@.skip(0) =~= wb@);
    }
    while i < n
        invariant
            i <= n,
            n == wb@.len(),
            watched_of(wb@, gid) == watched_of(wb@.skip(i as int), gid),
            forall|k: int| 0 <= k < wb@.len() ==> 0 <= (#[trigger] wb@[k]).1 <= MAX_LEVEL,
        decreases n - i,
    {
        proof {
            assert(wb@.skip(i as int)[0] == wb@[i as int]);
            assert(wb@.skip(i as int).drop_first() =~= wb@.skip(i + 1 as int));
        }
        if wb[i].0 == gid {
            return wb[i].1;
        }
        i = i + 1;
    }
    proof {
        assert(wb@.skip(n as int) =~= Seq::<(i64, i64)>::empty());
    }
    0
}

impl UnitCache {
    /// Base parameter at an explicit rank, level and rarity; promotion
    /// rows that are absent contribute nothing.
    pub fn base_param(&self, rank: i32, level: i32, rarity: i32) -> (r: StatusVector)
        requires
            self.wf(),
            1 <= rarity <= self.rarity@.len(),
            1 <= rank <= self.promotion@.len(),
            0 <= level <= MAX_LEVEL,
        ensures
            r.wf(),
            r@ == base_param_direct_spec(*self, rank as int, level as int, rarity as int),
            seq_bounded(r@, crate::limits::B_BASE as int),
    {
        let rc = &self.rarity[(rarity - 1) as usize];
        proof {
            assert forall|i: int| 0 <= i < STATUS_LEN implies
                fits_i128(#[trigger] rc.growth@[i] * level as int)
                && -(MAX_STAT as int * MAX_LEVEL as int) <= rc.growth@[i] * level as int
                    <= MAX_STAT as int * MAX_LEVEL as int by {
                crate::status::lemma_abs_mul_bound(rc.growth@[i], level as int,
                    MAX_STAT as int, MAX_LEVEL as int);
            }
        }
        let grown = rc.growth.scale_mul(level as i128);
        let mut param = rc.status.add(&grown);
        let rank_up = crate::calc::rank_up_bonus(rank);
        proof {
            assert forall|i: int| 0 <= i < STATUS_LEN implies
                fits_i128(#[trigger] rc.growth@[i] * rank_up@[i])
                && -(MAX_STAT as int * MAX_LEVEL as int) <= rc.growth@[i] * rank_up@[i]
                    <= MAX_STAT as int * MAX_LEVEL as int by {
                crate::status::lemma_abs_mul_bound(rc.growth@[i], rank_up@[i],
                    MAX_STAT as int, MAX_LEVEL as int);
            }
        }
        let ranked = rc.growth.component_mul(&rank_up);
        param = param.add(&ranked);
        let promotion = &self.promotion[(rank - 1) as usize];
        match &promotion.status {
            Option::Some(s) => {
                param = param.add(s);
            },
            Option::None => {},
        }
        match &promotion.bonus {
            Option::Some(b) => {
                param = param.add(b);
            },
            Option::None => {},
        }
        let r = param.round_vec();
        proof {
            assert forall|i: int| 0 <= i < STATUS_LEN implies
                -(crate::limits::B_BASE as int) <= #[trigger] r@[i]
                    <= crate::limits::B_BASE as int by {
                crate::round::lemma_round_cy_bound(param@[i],
                    (crate::limits::B_RARITY + crate::limits::B_PROMOTION) as int);
            }
        }
        r
    }

    /// Equipment parameter at an explicit rank, with one worn-flag and
    /// enhancement-level pair per slot; the result is unrounded.
    pub fn equip_param(&self, rank: i32, equip: &Vec<(bool, i32)>) -> (r: StatusVector)
        requires
            self.wf(),
            1 <= rank <= self.promotion@.len(),
            equip@.len() == 6,
            forall|j: int| 0 <= j < 6 ==> 0 <= (#[trigger] equip@[j]).1 <= MAX_LEVEL,
        ensures
            r.wf(),
            r@ == pair_equip_prefix_spec(*self, rank as int, equip@, 6),
            seq_bounded(r@, 6 * B_EQUIP_ITEM as int),
    {
        let promotion = &self.promotion[(rank - 1) as usize];
        let mut param = StatusVector::zeros();
        let mut j: usize = 0;
        while j < 6
            invariant
                j <= 6,
                param.wf(),
                param@ == pair_equip_prefix_spec(*self, rank as int, equip@, j as int),
                seq_bounded(param@, (j as int) * (B_EQUIP_ITEM as int)),
            decreases 6 - j,
        {
            let (equipped, enhance_level) = equip[j];
            match &promotion.equipments[j] {
                Option::Some(e) => {
                    if equipped {
                        let p = e.param(enhance_level);
                        param = param.add(&p);
                    } else {
                        let z = StatusVector::zeros();
                        param = param.add(&z);
                    }
                },
                Option::None => {
                    let z = StatusVector::zeros();
                    param = param.add(&z);
                },
            }
            assert(param@ =~= pair_equip_prefix_spec(*self, rank as int, equip@, j + 1 as int));
            j = j + 1;
        }
        param
    }

    /// Story parameter from a list of per-group watched counts; groups
    /// without an entry count as unwatched.
    pub fn story_param(&self, watched_bonus: &Vec<(i64, i64)>) -> (r: StatusVector)
        requires
            self.wf(),
            forall|i: int| 0 <= i < watched_bonus@.len()
                ==> 0 <= (#[trigger] watched_bonus@[i]).1 <= MAX_LEVEL,
        ensures
            r.wf(),
            r@ == story_accum_by_spec(*self, watched_bonus@, self.story@.len() as int),
            seq_bounded(r@, crate::limits::B_STORY as int),
    {
        let mut param = StatusVector::zeros();
        let n = self.story.len();
        let mut i: usize = 0;
        while i < n
            invariant
                i <= n,
                n == self.story@.len(),
                param.wf(),
                param@ == story_accum_by_spec(*self, watched_bonus@, i as int),
                forall|slot: int| 0 <= slot < STATUS_LEN ==>
                    -((i as int) * (crate::limits::B_STORY_GROUP as int)) <= #[trigger] param@[slot]
                        <= (i as int) * (crate::limits::B_STORY_GROUP as int),
            decreases n - i,
        {
            let gid = self.story[i].0;
            let watched = find_watched(watched_bonus, gid);
            self.story[i].1.param_append(watched as usize, &mut param);
            assert(param@ =~= story_accum_by_spec(*self, watched_bonus@, i + 1 as int));
            i = i + 1;
        }
        param
    }

    /// Flat skill power at the given level. Main-skill evolution applies
    /// only when the unique equipment is actually worn.
    pub fn skill_level(&self, level: i32, rarity: i32, is_unique_equipped: bool) -> (r: i128)
        requires
            self.wf(),
            0 <= level <= MAX_LEVEL,
        ensures
            r == crate::skill::skill_power_flat_spec(self.status_coefficient, self.skill, level,
                rarity as int, is_unique_equipped),
    {
        crate::skill::skill_level(&self.skill, level, &self.status_coefficient, rarity,
            is_unique_equipped)
    }
}

} // verus!

verus! {

/// Base parameter computed straight from the raw per-unit records.
pub open spec fn data_base_param_spec(
    d: crate::data::UnitData,
    level: int,
    rarity: int,
    rank: int,
) -> Seq<int> {
    let rc = d.rarity@[rarity - 1];
    let p = d.promotion@[rank - 1];
    let with_status = match p.status {
        Option::Some(s) => seq_add(rc.status@, s.status@),
        Option::None => rc.status@,
    };
    let grown = seq_add(seq_add(with_status, seq_scale(rc.growth@, level)),
        seq_emul(rc.growth@, crate::calc::rank_up_bonus_spec(rank)));
    let with_bonus = match p.bonus {
        Option::Some(b) => seq_add(grown, b.status@),
        Option::None => grown,
    };
    seq_round(with_bonus)
}

impl crate::data::UnitData {
    /// Base parameter at an explicit level, rarity and rank, straight
    /// from the raw records; absent promotion rows contribute nothing.
    pub fn base_param(&self, level: i32, rarity: i32, rank: i32) -> (r: StatusVector)
        requires
            unit_data_wf(*self),
            1 <= rarity <= self.rarity@.len(),
            1 <= rank <= self.promotion@.len(),
            0 <= level <= MAX_LEVEL,
        ensures
            r.wf(),
            r@ == data_base_param_spec(*self, level as int, rarity as int, rank as int),
            seq_bounded(r@, crate::limits::B_BASE as int),
    {
        let rc = &self.rarity[(rarity - 1) as usize];
        let promotion = &self.promotion[(rank - 1) as usize];
        let mut param = rc.status.duplicate();
        assert(param.wf());
        match &promotion.status {
            Option::Some(s) => {
                param = param.add(&s.status);
            },
            Option::None => {},
        }
        proof {
            assert forall|i: int| 0 <= i < STATUS_LEN implies
                fits_i128(#[trigger] rc.growth@[i] * level as int)
                && -(MAX_STAT as int * MAX_LEVEL as int) <= rc.growth@[i] * level as int
                    <= MAX_STAT as int * MAX_LEVEL as int by {
                crate::status::lemma_abs_mul_bound(rc.growth@[i], level as int,
                    MAX_STAT as int, MAX_LEVEL as int);
            }
        }
        let grown = rc.growth.scale_mul(level as i128);
        param = param.add(&grown);
        let rank_up = crate::calc::rank_up_bonus(rank);
        proof {
            assert forall|i: int| 0 <= i < STATUS_LEN implies
                fits_i128(#[trigger] rc.growth@[i] * rank_up@[i])
                && -(MAX_STAT as int * MAX_LEVEL as int) <= rc.growth@[i] * rank_up@[i]
                    <= MAX_STAT as int * MAX_LEVEL as int by {
                crate::status::lemma_abs_mul_bound(rc.growth@[i], rank_up@[i],
                    MAX_STAT as int, MAX_LEVEL as int);
            }
        }
        let ranked = rc.growth.component_mul(&rank_up);
        param = param.add(&ranked);
        match &promotion.bonus {
            Option::Some(b) => {
                param = param.add(&b.status);
            },
            Option::None => {},
        }
        let r = param.round_vec();
        proof {
            assert forall|i: int| 0 <= i < STATUS_LEN implies
                -(crate::limits::B_BASE as int) <= #[trigger] r@[i]
                    <= crate::limits::B_BASE as int by {
                crate::round::lemma_round_cy_bound(param@[i],
                    (crate::limits::B_RARITY + crate::limits::B_PROMOTION) as int);
            }
        }
        r
    }
}

} // verus!

verus! {

impl crate::model::UnitRarity {
    /// Pre-project this rarity row for the calculator.
    pub fn cached(&self) -> (r: UnitRarityCache)
        ensures
            r.status@ == self.status@,
            r.growth@ == self.growth@,
            (self.status.wf() && self.growth.wf() && seq_bounded(self.status@, MAX_STAT as int)
                && seq_bounded(self.growth@, MAX_STAT as int)) ==> r.wf(),
    {
        UnitRarityCache { status: self.status.duplicate(), growth: self.growth.duplicate() }
    }
}

impl crate::model::UnlockRarity6 {
    /// Pre-project this unlockable-slot row for the calculator.
    pub fn cached(&self) -> (r: UnlockRarity6Cache)
        ensures
            r.status@ == self.status@,
            (self.status.wf() && seq_bounded(self.status@, MAX_STAT as int)) ==> r.wf(),
    {
        UnlockRarity6Cache { status: self.status.duplicate() }
    }
}

impl crate::data::EquipmentData {
    /// Pre-project this resolved equipment for the calculator.
    pub fn cached(&self) -> (r: EquipmentCache)
        ensures
            r.id == self.id,
            r.data@ == self.data.status@,
            r.enhance_rate@ == self.enhance_rate.status@,
            r.max_enhance_level == self.max_enhance_level,
            self.wf() ==> r.wf(),
    {
        EquipmentCache {
            id: self.id,
            data: self.data.status.duplicate(),
            enhance_rate: self.enhance_rate.status.duplicate(),
            max_enhance_level: self.max_enhance_level,
        }
    }
}

impl crate::data::UniqueEquipmentData {
    /// Pre-project this resolved unique equipment for the calculator.
    pub fn cached(&self) -> (r: UniqueEquipmentCache)
        ensures
            r.id == self.id,
            r.status@ == self.data.status@,
            r.enhance_rate@ == self.enhance_rate.status@,
            r.max_enhancement_level == self.max_enhancement_level,
            self.wf() ==> r.wf(),
    {
        UniqueEquipmentCache {
            id: self.id,
            status: self.data.status.duplicate(),
            enhance_rate: self.enhance_rate.status.duplicate(),
            max_enhancement_level: self.max_enhancement_level,
        }
    }
}

} // verus!
