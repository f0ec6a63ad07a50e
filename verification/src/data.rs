//! Per-unit data assembled from raw records, and the story bonus
//! accumulation with its prefix semantics.

use vstd::prelude::*;
use crate::limits::{MAX_STAT, MAX_LEVEL, MAX_COUNT, B_STORY_ENTRY, B_STORY_GROUP, B_STORY_PRE,
    B_ENHANCE_RAW, B_EQUIP_ITEM, SCALE};
use crate::model;
use crate::status::{StatusVector, STATUS_LEN, seq_add, seq_scale, seq_ceil_scale, seq_bounded,
    zero_status, fits_i128, lemma_abs_mul_bound};
use crate::sums::{sum_terms, lemma_sum_terms_step, lemma_sum_terms_take_all,
    lemma_sum_terms_bound};

verus! {

/// Construction-time failures of the per-unit data and cache builders.
#[derive(Debug)]
pub enum DataManagerError {
    /// The unlockable-slot table has rows, but the given slot has none.
    UnlockRarity6NotFound(usize),
    /// An unlockable-slot row names a slot outside one to three.
    UnlockRarity6SlotOutOfRange(i64),
    /// An equipment id resolved by a promotion rank has no record.
    EquipNotFound(i64),
    /// No enhancement table exists for the given equipment.
    EquipmentEnhanceData(i64),
    /// No enhancement table exists for the given unique equipment.
    UniqueEquipmentEnhanceData(i64),
    /// The unit declares more than one unique equipment.
    InvalidUniqueEquipMoreThanOne(i64),
}

/// The ordered story entries of one story group.
#[derive(Debug, Clone)]
pub struct StoryData(pub Vec<model::CharaStoryStatus>);

/// The term one `(slot index, value)` pair contributes to `slot`.
pub open spec fn pair_fn(slot: int) -> spec_fn((i64, i64)) -> int {
    |p: (i64, i64)| if p.0 == slot + 1 { p.1 as int } else { 0 }
}

/// What one story entry contributes to `slot` when watched.
pub open spec fn story_entry_delta(s: model::CharaStoryStatus, slot: int) -> int {
    sum_terms(s.status@, pair_fn(slot))
}

/// The per-entry term of `slot`, over story entries.
pub open spec fn entry_fn(slot: int) -> spec_fn(model::CharaStoryStatus) -> int {
    |s: model::CharaStoryStatus| story_entry_delta(s, slot)
}

/// Number of entries of `g` a watched count of `w` claims: the first `w`,
/// or all of them when `w` exceeds the group size.
pub open spec fn clamp_watched(g: Seq<model::CharaStoryStatus>, w: int) -> int {
    if w <= g.len() {
        w
    } else {
        g.len() as int
    }
}

/// The seventeen-slot bonus granted by the first `w` entries of `g`.
pub open spec fn story_prefix(g: Seq<model::CharaStoryStatus>, w: int) -> Seq<int> {
    Seq::new(STATUS_LEN as nat, |slot: int| sum_terms(g.take(clamp_watched(g, w)), entry_fn(slot)))
}

pub open spec fn story_entry_wf(s: model::CharaStoryStatus) -> bool {
    &&& s.status@.len() <= MAX_COUNT
    &&& forall|i: int| 0 <= i < s.status@.len() ==> {
        &&& 1 <= (#[trigger] s.status@[i]).0 <= STATUS_LEN
        &&& -MAX_STAT <= s.status@[i].1 <= MAX_STAT
    }
}

/// A bounded story entry contributes at most `B_STORY_ENTRY` per slot.
pub proof fn lemma_story_entry_delta_bound(s: model::CharaStoryStatus, slot: int)
    requires
        story_entry_wf(s),
    ensures
        -B_STORY_ENTRY <= story_entry_delta(s, slot) <= B_STORY_ENTRY,
{
    let f = pair_fn(slot);
    assert forall|i: int| 0 <= i < s.status@.len() implies
        -(MAX_STAT as int) <= #[trigger] f(s.status@[i]) <= MAX_STAT as int by {
        assert(1 <= s.status@[i].0 <= STATUS_LEN && -MAX_STAT <= s.status@[i].1 <= MAX_STAT);
    }
    lemma_sum_terms_bound(s.status@, f, MAX_STAT as int);
    assert(s.status@.len() * MAX_STAT <= MAX_COUNT as int * MAX_STAT) by (nonlinear_arith)
        requires
            s.status@.len() <= MAX_COUNT,
    ;
}

/// The bonus vector of one watched story entry.
fn story_entry_param(s: &model::CharaStoryStatus) -> (d: StatusVector)
    requires
        story_entry_wf(*s),
    ensures
        d.wf(),
        forall|slot: int| 0 <= slot < STATUS_LEN ==> d@[slot] == story_entry_delta(*s, slot),
{
    let mut d = StatusVector::zeros();
    let n = s.status.len();
    let mut j: usize = 0;
    while j < n
        invariant
            j <= n,
            n == s.status@.len(),
            d.wf(),
            forall|slot: int| 0 <= slot < STATUS_LEN ==>
                #[trigger] d@[slot] == sum_terms(s.status@.take(j as int), pair_fn(slot)),
            forall|slot: int| 0 <= slot < STATUS_LEN ==>
                -((j as int) * (MAX_STAT as int)) <= #[trigger] d@[slot]
                    <= (j as int) * (MAX_STAT as int),
        decreases n - j,
    {
        let (idx, value) = s.status[j];
        let ghost before = d@;
        d.add_at((idx - 1) as usize, value as i128);
        proof {
            assert forall|slot: int| 0 <= slot < STATUS_LEN implies
                #[trigger] d@[slot] == sum_terms(s.status@.take(j + 1 as int), pair_fn(slot)) by {
                lemma_sum_terms_step(s.status@, pair_fn(slot), j as int);
                assert(pair_fn(slot)(s.status@[j as int])
                    == if idx == slot + 1 { value as int } else { 0 });
                if slot == idx - 1 {
                    assert(d@[slot] == before[slot] + value);
                } else {
                    assert(d@[slot] == before[slot]);
                }
            }
        }
        j = j + 1;
    }
    proof {
        assert forall|slot: int| 0 <= slot < STATUS_LEN implies
            #[trigger] d@[slot] == story_entry_delta(*s, slot) by {
            lemma_sum_terms_take_all(s.status@, pair_fn(slot));
            assert(s.status@.take(n as int) == s.status@.take(s.status@.len() as int));
        }
    }
    d
}

impl StoryData {
    pub open spec fn wf(&self) -> bool {
        &&& self.0@.len() <= MAX_COUNT
        &&& forall|i: int| 0 <= i < self.0@.len() ==> story_entry_wf(#[trigger] self.0@[i])
    }

    /// Add the bonus of the first `bonus_stories` entries (all of them if
    /// fewer exist) into `param`, slot by slot.
    pub fn param_append(&self, bonus_stories: usize, param: &mut StatusVector)
        requires
            self.wf(),
            old(param).wf(),
            seq_bounded(old(param)@, B_STORY_PRE as int),
        ensures
            final(param).wf(),
            final(param)@ == seq_add(old(param)@, story_prefix(self.0@, bonus_stories as int)),
            forall|slot: int| 0 <= slot < STATUS_LEN ==>
                -B_STORY_GROUP <= #[trigger] final(param)@[slot] - old(param)@[slot]
                    <= B_STORY_GROUP,
    {
        let n = self.0.len();
        let k: usize = if bonus_stories <= n {
            bonus_stories
        } else {
            n
        };
        let ghost g = self.0@;
        let mut i: usize = 0;
        while i < k
            invariant
                i <= k,
                k == clamp_watched(g, bonus_stories as int),
                param.wf(),
                forall|slot: int| 0 <= slot < STATUS_LEN ==>
                    #[trigger] param@[slot] == old(param)@[slot]
                        + sum_terms(g.take(i as int), entry_fn(slot)),
                forall|slot: int| 0 <= slot < STATUS_LEN ==>
                    -((i as int) * B_STORY_ENTRY) <= #[trigger] param@[slot] - old(param)@[slot]
                        <= (i as int) * B_STORY_ENTRY,
            decreases k - i,
        {
            let d = story_entry_param(&self.0[i]);
            proof {
                assert forall|slot: int| 0 <= slot < STATUS_LEN implies
                    fits_i128(param@[slot] + d@[slot]) by {
                    lemma_story_entry_delta_bound(g[i as int], slot);
                }
            }
            let np = param.add(&d);
            *param = np;
            proof {
                assert forall|slot: int| 0 <= slot < STATUS_LEN implies
                    #[trigger] param@[slot] == old(param)@[slot]
                        + sum_terms(g.take(i + 1 as int), entry_fn(slot)) by {
                    lemma_sum_terms_step(g, entry_fn(slot), i as int);
                    assert(entry_fn(slot)(g[i as int]) == story_entry_delta(g[i as int], slot));
                }
                assert forall|slot: int| 0 <= slot < STATUS_LEN implies
                    -((i + 1 as int) * B_STORY_ENTRY) <= #[trigger] param@[slot]
                        - old(param)@[slot] <= (i + 1 as int) * B_STORY_ENTRY by {
                    lemma_story_entry_delta_bound(g[i as int], slot);
                    lemma_sum_terms_step(g, entry_fn(slot), i as int);
                }
            }
            i = i + 1;
        }
        proof {
            assert(param@ =~= seq_add(old(param)@, story_prefix(g, bonus_stories as int)));
            assert forall|slot: int| 0 <= slot < STATUS_LEN implies
                -B_STORY_GROUP <= #[trigger] param@[slot] - old(param)@[slot]
                    <= B_STORY_GROUP by {
                assert((i as int) * B_STORY_ENTRY <= MAX_COUNT as int * B_STORY_ENTRY)
                    by (nonlinear_arith)
                    requires
                        i <= MAX_COUNT,
                ;
            }
        }
    }

    /// The bonus granted by watching the first `bonus_stories` entries.
    pub fn param(&self, bonus_stories: usize) -> (r: StatusVector)
        requires
            self.wf(),
        ensures
            r.wf(),
            r@ == story_prefix(self.0@, bonus_stories as int),
    {
        let mut param = StatusVector::zeros();
        self.param_append(bonus_stories, &mut param);
        assert(param@ =~= story_prefix(self.0@, bonus_stories as int));
        param
    }

    /// The bonus granted by watching the whole group.
    pub fn param_all(&self) -> (r: StatusVector)
        requires
            self.wf(),
        ensures
            r.wf(),
            r@ == story_prefix(self.0@, self.0@.len() as int),
    {
        let n = self.0.len();
        self.param(n)
    }

    /// Fresh watch-progress state for this group: nothing watched yet.
    /// The group id is the story id of the first entry with its last
    /// three digits dropped.
    pub fn story_group(&self) -> (r: crate::state::StoryGroup)
        requires
            self.0@.len() > 0,
            self.0@[0].story_id >= 0,
        ensures
            r.story_group_id == self.0@[0].story_id as int / 1000,
            r.total == self.0@.len(),
            r.watched == 0,
    {
        crate::state::StoryGroup {
            story_group_id: self.0[0].story_id / 1000,
            total: self.0.len(),
            watched: 0,
        }
    }
}

/// One promotion rank of a unit: its equipment layout and optional
/// flat and bonus stats.
#[derive(Debug, Clone)]
pub struct UnitPromotion {
    pub promotion: model::UnitPromotion,
    pub status: Option<model::UnitPromotionStatus>,
    pub bonus: Option<model::PromotionBonus>,
}

/// One piece of equipment with its enhancement table already resolved.
#[derive(Debug, Clone)]
pub struct EquipmentData {
    pub id: i64,
    pub data: model::EquipmentData,
    pub enhance_rate: model::EquipmentEnhanceRate,
    pub max_enhance_level: i32,
}

/// `base + ceil(rate * (level + offset))`, the equipment stat formula,
/// over raw fixed-point vectors.
pub open spec fn equip_param_spec(base: Seq<int>, rate: Seq<int>, level: int) -> Seq<int> {
    seq_add(base, seq_ceil_scale(seq_scale(rate, level)))
}

/// Compute the equipment stat formula.
pub fn equip_param_calc(base: &StatusVector, rate: &StatusVector, level: i32) -> (r: StatusVector)
    requires
        base.wf(),
        rate.wf(),
        seq_bounded(base@, MAX_STAT as int),
        seq_bounded(rate@, MAX_STAT as int),
        -MAX_LEVEL <= level <= MAX_LEVEL,
    ensures
        r.wf(),
        r@ == equip_param_spec(base@, rate@, level as int),
        seq_bounded(r@, B_EQUIP_ITEM as int),
{
    proof {
        assert forall|i: int| 0 <= i < STATUS_LEN implies
            -(B_ENHANCE_RAW as int) <= #[trigger] rate@[i] * level <= B_ENHANCE_RAW as int by {
            lemma_abs_mul_bound(rate@[i], level as int, MAX_STAT as int, MAX_LEVEL as int);
        }
    }
    let scaled = rate.scale_mul(level as i128);
    let ceiled = scaled.ceil_vec();
    let r = base.add(&ceiled);
    r
}

impl EquipmentData {
    pub open spec fn wf(&self) -> bool {
        &&& self.data.status.wf()
        &&& self.enhance_rate.status.wf()
        &&& seq_bounded(self.data.status@, MAX_STAT as int)
        &&& seq_bounded(self.enhance_rate.status@, MAX_STAT as int)
    }

    /// Stats granted when worn at `enhancement_level`.
    pub fn param(&self, enhancement_level: i32) -> (r: StatusVector)
        requires
            self.wf(),
            0 <= enhancement_level <= MAX_LEVEL,
        ensures
            r.wf(),
            r@ == equip_param_spec(self.data.status@, self.enhance_rate.status@,
                enhancement_level as int),
            seq_bounded(r@, B_EQUIP_ITEM as int),
    {
        equip_param_calc(&self.data.status, &self.enhance_rate.status, enhancement_level)
    }
}

/// A unit's unique equipment with its enhancement table already resolved.
#[derive(Debug, Clone)]
pub struct UniqueEquipmentData {
    pub id: i64,
    pub data: model::UniqueEquipmentData,
    pub enhance_rate: model::UniqueEquipmentEnhanceRate,
    pub max_enhancement_level: i32,
}

impl UniqueEquipmentData {
    pub open spec fn wf(&self) -> bool {
        &&& self.data.status.wf()
        &&& self.enhance_rate.status.wf()
        &&& seq_bounded(self.data.status@, MAX_STAT as int)
        &&& seq_bounded(self.enhance_rate.status@, MAX_STAT as int)
    }

    /// Stats granted when worn at `enhancement_level`. The unique
    /// formula applies its offset of minus one to the level.
    pub fn param(&self, enhancement_level: i32) -> (r: StatusVector)
        requires
            self.wf(),
            0 <= enhancement_level <= MAX_LEVEL,
        ensures
            r.wf(),
            r@ == equip_param_spec(self.data.status@, self.enhance_rate.status@,
                enhancement_level + model::UNIQUE_EQUIPMENT_ENHANCE_LV_OFFSET),
            seq_bounded(r@, B_EQUIP_ITEM as int),
    {
        equip_param_calc(&self.data.status, &self.enhance_rate.status,
            enhancement_level + model::UNIQUE_EQUIPMENT_ENHANCE_LV_OFFSET)
    }
}

/// Everything needed to build one unit's cache.
#[derive(Debug, Clone)]
pub struct UnitData {
    pub unit_id: i64,
    pub promotion: Vec<UnitPromotion>,
    pub rarity: Vec<model::UnitRarity>,
    pub unique_equip: Vec<model::UnitUniqueEquip>,
    /// Three ordered unlock-level lists, one per unlockable slot.
    pub unlock_rarity_6: Option<Vec<Vec<model::UnlockRarity6>>>,
    pub skill_data: model::UnitSkillData,
    /// Story groups keyed by group id; ids are distinct.
    pub stories: Vec<(i64, StoryData)>,
}

} // verus!

verus! {

/// An element-for-element copy of a pair list.
fn copy_pairs(v: &Vec<(i64, i64)>) -> (r: Vec<(i64, i64)>)
    ensures
        r@ == v@,
{
    let mut r: Vec<(i64, i64)> = Vec::new();
    let mut i: usize = 0;
    while i < v.len()
        invariant
            i <= v@.len(),
            r@ == v@.take(i as int),
        decreases v@.len() - i,
    {
        r.push(v[i]);
        assert(r@ =~= v@.take(i + 1 as int));
        i = i + 1;
    }
    assert(r@ =~= v@);
    r
}

impl model::UnitPromotionStatus {
    /// A field-for-field copy.
    pub fn duplicate(&self) -> (r: model::UnitPromotionStatus)
        ensures
            r.unit_id == self.unit_id,
            r.promotion_level == self.promotion_level,
            r.status@ == self.status@,
    {
        model::UnitPromotionStatus {
            unit_id: self.unit_id,
            promotion_level: self.promotion_level,
            status: self.status.duplicate(),
        }
    }
}

impl model::PromotionBonus {
    /// A field-for-field copy.
    pub fn duplicate(&self) -> (r: model::PromotionBonus)
        ensures
            r.unit_id == self.unit_id,
            r.promotion_level == self.promotion_level,
            r.status@ == self.status@,
    {
        model::PromotionBonus {
            unit_id: self.unit_id,
            promotion_level: self.promotion_level,
            status: self.status.duplicate(),
        }
    }
}

impl model::UnlockRarity6 {
    /// A field-for-field copy.
    pub fn duplicate(&self) -> (r: model::UnlockRarity6)
        ensures
            r.unit_id == self.unit_id,
            r.slot_id == self.slot_id,
            r.unlock_level == self.unlock_level,
            r.unlock_flag == self.unlock_flag,
            r.consume_gold == self.consume_gold,
            r.material_type == self.material_type,
            r.material_id == self.material_id,
            r.material_count == self.material_count,
            r.status@ == self.status@,
    {
        model::UnlockRarity6 {
            unit_id: self.unit_id,
            slot_id: self.slot_id,
            unlock_level: self.unlock_level,
            unlock_flag: self.unlock_flag,
            consume_gold: self.consume_gold,
            material_type: self.material_type,
            material_id: self.material_id,
            material_count: self.material_count,
            status: self.status.duplicate(),
        }
    }
}

impl model::CharaStoryStatus {
    /// A copy that keeps every contract-relevant field.
    pub fn duplicate(&self) -> (r: model::CharaStoryStatus)
        ensures
            r.story_id == self.story_id,
            r.status@ == self.status@,
            r.chara_id@ == self.chara_id@,
            r.unlock_story_name@ == self.unlock_story_name@,
    {
        model::CharaStoryStatus {
            story_id: self.story_id,
            unlock_story_name: self.unlock_story_name.clone(),
            status: copy_pairs(&self.status),
            chara_id: crate::model::copy_ids(&self.chara_id),
        }
    }
}

impl model::UnitRarity {
    /// A field-for-field copy.
    pub fn duplicate(&self) -> (r: model::UnitRarity)
        ensures
            r.unit_id == self.unit_id,
            r.rarity == self.rarity,
            r.status@ == self.status@,
            r.growth@ == self.growth@,
            r.unit_material_id == self.unit_material_id,
            r.consume_num == self.consume_num,
            r.consume_gold == self.consume_gold,
    {
        model::UnitRarity {
            unit_id: self.unit_id,
            rarity: self.rarity,
            status: self.status.duplicate(),
            growth: self.growth.duplicate(),
            unit_material_id: self.unit_material_id,
            consume_num: self.consume_num,
            consume_gold: self.consume_gold,
        }
    }
}

/// Whether some enhancement row of the given promotion level exists.
pub open spec fn has_enhance_level(rows: Seq<model::EquipmentEnhanceData>, lvl: i64) -> bool
    decreases rows.len(),
{
    if rows.len() == 0 {
        false
    } else {
        rows.last().promotion_level == lvl || has_enhance_level(rows.drop_last(), lvl)
    }
}

/// The largest enhancement level among rows of the given promotion
/// level; zero when no such row exists.
pub open spec fn max_enhance_spec(rows: Seq<model::EquipmentEnhanceData>, lvl: i64) -> int
    decreases rows.len(),
{
    if rows.len() == 0 {
        0
    } else {
        let r = rows.last();
        let rest = rows.drop_last();
        if r.promotion_level == lvl {
            if has_enhance_level(rest, lvl) {
                let m = max_enhance_spec(rest, lvl);
                if r.equipment_enhance_level > m {
                    r.equipment_enhance_level as int
                } else {
                    m
                }
            } else {
                r.equipment_enhance_level as int
            }
        } else {
            max_enhance_spec(rest, lvl)
        }
    }
}

/// Without a matching row the maximum defaults to zero.
proof fn lemma_max_enhance_absent(rows: Seq<model::EquipmentEnhanceData>, lvl: i64)
    requires
        !has_enhance_level(rows, lvl),
    ensures
        max_enhance_spec(rows, lvl) == 0,
    decreases rows.len(),
{
    if rows.len() > 0 {
        lemma_max_enhance_absent(rows.drop_last(), lvl);
    }
}

/// Without a matching row the unique maximum defaults to zero.
proof fn lemma_max_unique_enhance_absent(rows: Seq<model::UniqueEquipmentEnhanceData>)
    requires
        !has_unique_enhance(rows),
    ensures
        max_unique_enhance_spec(rows) == 0,
    decreases rows.len(),
{
    if rows.len() > 0 {
        lemma_max_unique_enhance_absent(rows.drop_last());
    }
}

/// Resolve one piece of equipment: its base stats, enhancement rate and
/// the largest enhancement level its table offers. The sentinel id means
/// no equipment exists.
pub fn equip_data(
    equipment_data: model::EquipmentData,
    equipment_enhance_rate: model::EquipmentEnhanceRate,
    enhance_data: &Vec<model::EquipmentEnhanceData>,
) -> (r: Result<EquipmentData, DataManagerError>)
    requires
        forall|i: int| 0 <= i < enhance_data@.len()
            ==> 0 <= (#[trigger] enhance_data@[i]).equipment_enhance_level <= MAX_LEVEL,
    ensures
        match r {
            Result::Ok(e) => {
                &&& equipment_data.equipment_id != crate::model::EMPTY_EQUIP_ID
                &&& e.id == equipment_data.equipment_id
                &&& e.data == equipment_data
                &&& e.enhance_rate == equipment_enhance_rate
                &&& e.max_enhance_level
                    == max_enhance_spec(enhance_data@, equipment_data.promotion_level)
            },
            Result::Err(e) => {
                &&& equipment_data.equipment_id == crate::model::EMPTY_EQUIP_ID
                &&& e == DataManagerError::EquipNotFound(crate::model::EMPTY_EQUIP_ID)
            },
        },
{
    if equipment_data.equipment_id == crate::model::EMPTY_EQUIP_ID {
        return Err(DataManagerError::EquipNotFound(equipment_data.equipment_id));
    }
    let lvl = equipment_data.promotion_level;
    let n = enhance_data.len();
    let mut found = false;
    let mut cur: i64 = 0;
    let mut i: usize = 0;
    while i < n
        invariant
            i <= n,
            n == enhance_data@.len(),
            found == has_enhance_level(enhance_data@.take(i as int), lvl),
            found ==> cur == max_enhance_spec(enhance_data@.take(i as int), lvl),
            !found ==> cur == 0,
            0 <= cur <= MAX_LEVEL,
        decreases n - i,
    {
        let row = &enhance_data[i];
        proof {
            assert(enhance_data@.take(i + 1 as int).drop_last() =~= enhance_data@.take(i as int));
            assert(enhance_data@.take(i + 1 as int).last() == enhance_data@[i as int]);
        }
        if row.promotion_level == lvl {
            if !found || row.equipment_enhance_level > cur {
                cur = row.equipment_enhance_level;
            }
            found = true;
        }
        i = i + 1;
    }
    proof {
        assert(enhance_data@.take(n as int) =~= enhance_data@);
        if !found {
            lemma_max_enhance_absent(enhance_data@, lvl);
        }
    }
    Ok(EquipmentData {
        id: equipment_data.equipment_id,
        data: equipment_data,
        enhance_rate: equipment_enhance_rate,
        max_enhance_level: cur as i32,
    })
}

/// Whether some unique enhancement row of the first slot exists.
pub open spec fn has_unique_enhance(rows: Seq<model::UniqueEquipmentEnhanceData>) -> bool
    decreases rows.len(),
{
    if rows.len() == 0 {
        false
    } else {
        rows.last().equip_slot == 1 || has_unique_enhance(rows.drop_last())
    }
}

/// The largest enhancement level among the unique rows of the first
/// slot; zero when no such row exists.
pub open spec fn max_unique_enhance_spec(rows: Seq<model::UniqueEquipmentEnhanceData>) -> int
    decreases rows.len(),
{
    if rows.len() == 0 {
        0
    } else {
        let r = rows.last();
        let rest = rows.drop_last();
        if r.equip_slot == 1 {
            if has_unique_enhance(rest) {
                let m = max_unique_enhance_spec(rest);
                if r.enhance_level > m {
                    r.enhance_level as int
                } else {
                    m
                }
            } else {
                r.enhance_level as int
            }
        } else {
            max_unique_enhance_spec(rest)
        }
    }
}

/// Resolve a unit's unique equipment; fails when its enhancement table
/// has no rows for the first slot.
pub fn unique_equip_data(
    unique_equipment_data: model::UniqueEquipmentData,
    unique_equipment_enhance_rate: model::UniqueEquipmentEnhanceRate,
    enhance_data: &Vec<model::UniqueEquipmentEnhanceData>,
) -> (r: Result<UniqueEquipmentData, DataManagerError>)
    requires
        forall|i: int| 0 <= i < enhance_data@.len()
            ==> 0 <= (#[trigger] enhance_data@[i]).enhance_level <= MAX_LEVEL,
    ensures
        match r {
            Result::Ok(e) => {
                &&& has_unique_enhance(enhance_data@)
                &&& e.id == unique_equipment_data.equipment_id
                &&& e.data == unique_equipment_data
                &&& e.enhance_rate == unique_equipment_enhance_rate
                &&& e.max_enhancement_level == max_unique_enhance_spec(enhance_data@)
            },
            Result::Err(e) => {
                &&& !has_unique_enhance(enhance_data@)
                &&& e == DataManagerError::UniqueEquipmentEnhanceData(
                    unique_equipment_data.equipment_id)
            },
        },
{
    let n = enhance_data.len();
    let mut found = false;
    let mut cur: i64 = 0;
    let mut i: usize = 0;
    while i < n
        invariant
            i <= n,
            n == enhance_data@.len(),
            found == has_unique_enhance(enhance_data@.take(i as int)),
            found ==> cur == max_unique_enhance_spec(enhance_data@.take(i as int)),
            !found ==> cur == 0,
            0 <= cur <= MAX_LEVEL,
        decreases n - i,
    {
        let row = &enhance_data[i];
        proof {
            assert(enhance_data@.take(i + 1 as int).drop_last() =~= enhance_data@.take(i as int));
            assert(enhance_data@.take(i + 1 as int).last() == enhance_data@[i as int]);
        }
        if row.equip_slot == 1 {
            if !found || row.enhance_level > cur {
                cur = row.enhance_level;
            }
            found = true;
        }
        i = i + 1;
    }
    proof {
        assert(enhance_data@.take(n as int) =~= enhance_data@);
        if !found {
            lemma_max_unique_enhance_absent(enhance_data@);
        }
    }
    if !found {
        return Err(DataManagerError::UniqueEquipmentEnhanceData(
            unique_equipment_data.equipment_id));
    }
    Ok(UniqueEquipmentData {
        id: unique_equipment_data.equipment_id,
        data: unique_equipment_data,
        enhance_rate: unique_equipment_enhance_rate,
        max_enhancement_level: cur as i32,
    })
}

} // verus!

verus! {

/// Find the flat-stat row of one promotion level.
fn find_status(statuses: &Vec<model::UnitPromotionStatus>, level: i64)
    -> (r: Option<model::UnitPromotionStatus>)
    ensures
        match r {
            Option::Some(s) => exists|j: int| 0 <= j < statuses@.len() && {
                let row = #[trigger] statuses@[j];
                &&& row.promotion_level == level
                &&& s.unit_id == row.unit_id
                &&& s.promotion_level == row.promotion_level
                &&& s.status@ == row.status@
            },
            Option::None => forall|j: int| 0 <= j < statuses@.len()
                ==> (#[trigger] statuses@[j]).promotion_level != level,
        },
{
    let mut i: usize = 0;
    while i < statuses.len()
        invariant
            i <= statuses@.len(),
            forall|j: int| 0 <= j < i ==> (#[trigger] statuses@[j]).promotion_level != level,
        decreases statuses@.len() - i,
    {
        if statuses[i].promotion_level == level {
            return Some(statuses[i].duplicate());
        }
        i = i + 1;
    }
    None
}

/// Find the bonus row of one promotion level.
fn find_bonus(bonuses: &Vec<model::PromotionBonus>, level: i64)
    -> (r: Option<model::PromotionBonus>)
    ensures
        match r {
            Option::Some(b) => exists|j: int| 0 <= j < bonuses@.len() && {
                let row = #[trigger] bonuses@[j];
                &&& row.promotion_level == level
                &&& b.unit_id == row.unit_id
                &&& b.promotion_level == row.promotion_level
                &&& b.status@ == row.status@
            },
            Option::None => forall|j: int| 0 <= j < bonuses@.len()
                ==> (#[trigger] bonuses@[j]).promotion_level != level,
        },
{
    let mut i: usize = 0;
    while i < bonuses.len()
        invariant
            i <= bonuses@.len(),
            forall|j: int| 0 <= j < i ==> (#[trigger] bonuses@[j]).promotion_level != level,
        decreases bonuses@.len() - i,
    {
        if bonuses[i].promotion_level == level {
            return Some(bonuses[i].duplicate());
        }
        i = i + 1;
    }
    None
}

/// Attach each promotion rank's flat-stat and bonus rows to its
/// equipment layout. Rank `i + 1` lives at index `i`.
pub fn assemble_promotions(
    promotions: &Vec<model::UnitPromotion>,
    statuses: &Vec<model::UnitPromotionStatus>,
    bonuses: &Vec<model::PromotionBonus>,
) -> (r: Vec<UnitPromotion>)
    requires
        forall|i: int| 0 <= i < promotions@.len()
            ==> (#[trigger] promotions@[i]).promotion_level == i + 1,
    ensures
        r@.len() == promotions@.len(),
        forall|i: int| 0 <= i < r@.len() ==> {
            let p = #[trigger] r@[i];
            &&& p.promotion.unit_id == promotions@[i].unit_id
            &&& p.promotion.promotion_level == promotions@[i].promotion_level
            &&& p.promotion.equip_slot@ == promotions@[i].equip_slot@
            &&& match p.status {
                Option::Some(s) => exists|j: int| 0 <= j < statuses@.len() && {
                    let row = #[trigger] statuses@[j];
                    &&& row.promotion_level == i + 1
                    &&& s.unit_id == row.unit_id
                    &&& s.promotion_level == row.promotion_level
                    &&& s.status@ == row.status@
                },
                Option::None => forall|j: int| 0 <= j < statuses@.len()
                    ==> (#[trigger] statuses@[j]).promotion_level != i + 1,
            }
            &&& match p.bonus {
                Option::Some(b) => exists|j: int| 0 <= j < bonuses@.len() && {
                    let row = #[trigger] bonuses@[j];
                    &&& row.promotion_level == i + 1
                    &&& b.unit_id == row.unit_id
                    &&& b.promotion_level == row.promotion_level
                    &&& b.status@ == row.status@
                },
                Option::None => forall|j: int| 0 <= j < bonuses@.len()
                    ==> (#[trigger] bonuses@[j]).promotion_level != i + 1,
            }
        },
{
    let mut r: Vec<UnitPromotion> = Vec::new();
    let n = promotions.len();
    let mut i: usize = 0;
    while i < n
        invariant
            i <= n,
            n == promotions@.len(),
            r@.len() == i,
            forall|k: int| 0 <= k < i ==> {
                let p = #[trigger] r@[k];
                &&& p.promotion.unit_id == promotions@[k].unit_id
                &&& p.promotion.promotion_level == promotions@[k].promotion_level
                &&& p.promotion.equip_slot@ == promotions@[k].equip_slot@
                &&& match p.status {
                    Option::Some(s) => exists|j: int| 0 <= j < statuses@.len() && {
                        let row = #[trigger] statuses@[j];
                        &&& row.promotion_level == k + 1
                        &&& s.unit_id == row.unit_id
                        &&& s.promotion_level == row.promotion_level
                        &&& s.status@ == row.status@
                    },
                    Option::None => forall|j: int| 0 <= j < statuses@.len()
                        ==> (#[trigger] statuses@[j]).promotion_level != k + 1,
                }
                &&& match p.bonus {
                    Option::Some(b) => exists|j: int| 0 <= j < bonuses@.len() && {
                        let row = #[trigger] bonuses@[j];
                        &&& row.promotion_level == k + 1
                        &&& b.unit_id == row.unit_id
                        &&& b.promotion_level == row.promotion_level
                        &&& b.status@ == row.status@
                    },
                    Option::None => forall|j: int| 0 <= j < bonuses@.len()
                        ==> (#[trigger] bonuses@[j]).promotion_level != k + 1,
                }
            },
        decreases n - i,
    {
        let base = &promotions[i];
        let level = base.promotion_level;
        let status = find_status(statuses, level);
        let bonus = find_bonus(bonuses, level);
        let entry = UnitPromotion {
            promotion: model::UnitPromotion {
                unit_id: base.unit_id,
                promotion_level: base.promotion_level,
                equip_slot: crate::model::copy_ids(&base.equip_slot),
            },
            status,
            bonus,
        };
        r.push(entry);
        i = i + 1;
    }
    r
}

/// The unlock-level and stat view of one unlockable-slot row.
pub open spec fn unlock_view(r: model::UnlockRarity6) -> (i64, Seq<int>) {
    (r.unlock_level, r.status@)
}

/// The views of the rows of one slot, in input order.
pub open spec fn unlock_slot_views(rows: Seq<model::UnlockRarity6>, slot: i64)
    -> Seq<(i64, Seq<int>)>
    decreases rows.len(),
{
    if rows.len() == 0 {
        Seq::empty()
    } else {
        let rest = unlock_slot_views(rows.drop_last(), slot);
        if rows.last().slot_id == slot {
            rest.push(unlock_view(rows.last()))
        } else {
            rest
        }
    }
}

pub open spec fn unlock_views(l: Seq<model::UnlockRarity6>) -> Seq<(i64, Seq<int>)> {
    l.map_values(|r: model::UnlockRarity6| unlock_view(r))
}

/// A slot has rows exactly when its view list is nonempty.
proof fn lemma_unlock_slot_views_nonempty(rows: Seq<model::UnlockRarity6>, slot: i64)
    ensures
        unlock_slot_views(rows, slot).len() > 0
            <==> exists|i: int| 0 <= i < rows.len() && (#[trigger] rows[i]).slot_id == slot,
    decreases rows.len(),
{
    if rows.len() > 0 {
        lemma_unlock_slot_views_nonempty(rows.drop_last(), slot);
        if rows.last().slot_id == slot {
            assert(rows[rows.len() - 1].slot_id == slot);
        } else {
            assert forall|i: int| 0 <= i < rows.len() && (#[trigger] rows[i]).slot_id == slot
                implies exists|j: int| 0 <= j < rows.len() - 1
                    && (#[trigger] rows.drop_last()[j]).slot_id == slot by {
                assert(rows.drop_last()[i] == rows[i]);
            }
        }
    }
}

/// Every row's slot id lies between one and three.
pub open spec fn unlock_rows_in_range(rows: Seq<model::UnlockRarity6>) -> bool {
    forall|i: int| 0 <= i < rows.len() ==> 1 <= (#[trigger] rows[i]).slot_id <= 3
}

/// Whether some row names the given slot.
pub open spec fn slot_present(rows: Seq<model::UnlockRarity6>, slot: i64) -> bool {
    exists|i: int| 0 <= i < rows.len() && (#[trigger] rows[i]).slot_id == slot
}

/// Each of the three slots has at least one row.
pub open spec fn unlock_rows_cover(rows: Seq<model::UnlockRarity6>) -> bool {
    slot_present(rows, 1) && slot_present(rows, 2) && slot_present(rows, 3)
}

/// The rows of one slot, duplicated in input order.
fn collect_slot(rows: &Vec<model::UnlockRarity6>, slot: i64) -> (r: Vec<model::UnlockRarity6>)
    requires
        forall|i: int| 0 <= i < rows@.len() ==> {
            &&& (#[trigger] rows@[i]).status.wf()
            &&& seq_bounded(rows@[i].status@, MAX_STAT as int)
        },
        rows@.len() <= MAX_COUNT,
    ensures
        unlock_views(r@) == unlock_slot_views(rows@, slot),
        r@.len() <= rows@.len(),
        forall|j: int| 0 <= j < r@.len() ==> {
            &&& (#[trigger] r@[j]).slot_id == slot
            &&& r@[j].status.wf()
            &&& seq_bounded(r@[j].status@, MAX_STAT as int)
        },
{
    let mut r: Vec<model::UnlockRarity6> = Vec::new();
    let n = rows.len();
    let mut i: usize = 0;
    while i < n
        invariant
            i <= n,
            n == rows@.len(),
            unlock_views(r@) == unlock_slot_views(rows@.take(i as int), slot),
            r@.len() <= i,
            forall|j: int| 0 <= j < r@.len() ==> {
                &&& (#[trigger] r@[j]).slot_id == slot
                &&& r@[j].status.wf()
                &&& seq_bounded(r@[j].status@, MAX_STAT as int)
            },
        decreases n - i,
    {
        proof {
            assert(rows@.take(i + 1 as int).drop_last() =~= rows@.take(i as int));
            assert(rows@.take(i + 1 as int).last() == rows@[i as int]);
        }
        if rows[i].slot_id == slot {
            let ghost before = r@;
            r.push(rows[i].duplicate());
            proof {
                assert(unlock_views(r@) =~= unlock_views(before).push(unlock_view(rows@[i as int])));
            }
        }
        i = i + 1;
    }
    proof {
        assert(rows@.take(n as int) =~= rows@);
    }
    r
}

/// Split the unlockable-slot rows into the three per-slot lists.
/// No rows at all means the unit has no unlockable slots; rows that name
/// a slot outside one to three, or that leave a slot empty, are
/// construction errors.
pub fn split_unlock_rows(rows: &Vec<model::UnlockRarity6>)
    -> (r: Result<Option<Vec<Vec<model::UnlockRarity6>>>, DataManagerError>)
    requires
        forall|i: int| 0 <= i < rows@.len() ==> {
            &&& (#[trigger] rows@[i]).status.wf()
            &&& seq_bounded(rows@[i].status@, MAX_STAT as int)
        },
        rows@.len() <= MAX_COUNT,
    ensures
        r is Ok <==> (rows@.len() == 0
            || (unlock_rows_in_range(rows@) && unlock_rows_cover(rows@))),
        match r {
            Result::Ok(opt) => match opt {
                Option::Some(ls) => {
                    &&& rows@.len() > 0
                    &&& ls@.len() == 3
                    &&& forall|k: int| 0 <= k < 3 ==>
                        unlock_views((#[trigger] ls@[k])@) == unlock_slot_views(rows@, (k + 1) as i64)
                    &&& forall|k: int| 0 <= k < 3 ==> 0 < (#[trigger] ls@[k])@.len() <= MAX_COUNT
                    &&& forall|k: int, j: int| 0 <= k < 3 && 0 <= j < (#[trigger] ls@[k])@.len()
                        ==> (#[trigger] ls@[k]@[j]).status.wf()
                            && seq_bounded(ls@[k]@[j].status@, MAX_STAT as int)
                },
                Option::None => rows@.len() == 0,
            },
            Result::Err(e) => match e {
                DataManagerError::UnlockRarity6SlotOutOfRange(s) => exists|i: int|
                    0 <= i < rows@.len() && (#[trigger] rows@[i]).slot_id == s && !(1 <= s <= 3),
                DataManagerError::UnlockRarity6NotFound(k) => {
                    &&& rows@.len() > 0
                    &&& unlock_rows_in_range(rows@)
                    &&& k < 3
                    &&& forall|i: int| 0 <= i < rows@.len()
                        ==> (#[trigger] rows@[i]).slot_id != k + 1
                },
                _ => false,
            },
        },
{
    if rows.len() == 0 {
        return Ok(None);
    }
    let n = rows.len();
    let mut i: usize = 0;
    while i < n
        invariant
            i <= n,
            n == rows@.len(),
            forall|j: int| 0 <= j < i ==> 1 <= (#[trigger] rows@[j]).slot_id <= 3,
        decreases n - i,
    {
        let s = rows[i].slot_id;
        if s < 1 || s > 3 {
            return Err(DataManagerError::UnlockRarity6SlotOutOfRange(s));
        }
        i = i + 1;
    }
    let l0 = collect_slot(rows, 1);
    let l1 = collect_slot(rows, 2);
    let l2 = collect_slot(rows, 3);
    proof {
        lemma_unlock_slot_views_nonempty(rows@, 1);
        lemma_unlock_slot_views_nonempty(rows@, 2);
        lemma_unlock_slot_views_nonempty(rows@, 3);
    }
    if l0.len() == 0 {
        return Err(DataManagerError::UnlockRarity6NotFound(0));
    }
    if l1.len() == 0 {
        return Err(DataManagerError::UnlockRarity6NotFound(1));
    }
    if l2.len() == 0 {
        return Err(DataManagerError::UnlockRarity6NotFound(2));
    }
    let mut ls: Vec<Vec<model::UnlockRarity6>> = Vec::new();
    ls.push(l0);
    ls.push(l1);
    ls.push(l2);
    proof {
        assert forall|k: int| 0 <= k < 3 implies
            unlock_views((#[trigger] ls@[k])@) == unlock_slot_views(rows@, (k + 1) as i64) by {
        }
    }
    Ok(Some(ls))
}

} // verus!

verus! {

/// The contract-relevant view of one story entry.
pub open spec fn story_view(s: model::CharaStoryStatus) -> (i64, Seq<(i64, i64)>, Seq<i64>) {
    (s.story_id, s.status@, s.chara_id@)
}

/// The views of the rows of one story group, in input order.
pub open spec fn story_gid_views(rows: Seq<model::CharaStoryStatus>, gid: int)
    -> Seq<(i64, Seq<(i64, i64)>, Seq<i64>)>
    decreases rows.len(),
{
    if rows.len() == 0 {
        Seq::empty()
    } else {
        let rest = story_gid_views(rows.drop_last(), gid);
        if rows.last().story_id as int / 1000 == gid {
            rest.push(story_view(rows.last()))
        } else {
            rest
        }
    }
}

pub open spec fn entries_views(sd: StoryData) -> Seq<(i64, Seq<(i64, i64)>, Seq<i64>)> {
    sd.0@.map_values(|s: model::CharaStoryStatus| story_view(s))
}

/// Whether some group carries the given id.
pub open spec fn gid_present(groups: Seq<(i64, StoryData)>, gid: int) -> bool {
    exists|idx: int| 0 <= idx < groups.len() && (#[trigger] groups[idx]).0 == gid
}

/// A group id has rows exactly when its view list is nonempty.
proof fn lemma_story_gid_views_present(rows: Seq<model::CharaStoryStatus>, gid: int)
    ensures
        story_gid_views(rows, gid).len() > 0
            <==> exists|i: int| 0 <= i < rows.len()
                && (#[trigger] rows[i]).story_id as int / 1000 == gid,
    decreases rows.len(),
{
    if rows.len() > 0 {
        lemma_story_gid_views_present(rows.drop_last(), gid);
        if rows.last().story_id as int / 1000 == gid {
            assert(rows[rows.len() - 1].story_id as int / 1000 == gid);
        } else {
            assert forall|i: int| 0 <= i < rows.len()
                && (#[trigger] rows[i]).story_id as int / 1000 == gid
                implies exists|j: int| 0 <= j < rows.len() - 1
                    && (#[trigger] rows.drop_last()[j]).story_id as int / 1000 == gid by {
                assert(rows.drop_last()[i] == rows[i]);
            }
        }
    }
}

/// Group the story rows by id with the last three digits dropped. The
/// rows arrive ordered by story id, so each group is contiguous; the
/// result keys are strictly increasing and each group keeps its rows in
/// reading order.
pub fn group_story_rows(rows: &Vec<model::CharaStoryStatus>) -> (r: Vec<(i64, StoryData)>)
    requires
        rows@.len() <= MAX_COUNT,
        forall|i: int| 0 <= i < rows@.len() ==> (#[trigger] rows@[i]).story_id >= 0,
        forall|i: int| 0 <= i < rows@.len() ==> story_entry_wf(#[trigger] rows@[i]),
        forall|i: int| 0 <= i < rows@.len() - 1
            ==> (#[trigger] rows@[i]).story_id <= rows@[i + 1].story_id,
    ensures
        r@.len() <= rows@.len(),
        forall|a: int, b: int| 0 <= a < b < r@.len()
            ==> (#[trigger] r@[a]).0 < (#[trigger] r@[b]).0,
        forall|idx: int| 0 <= idx < r@.len() ==> {
            let g = #[trigger] r@[idx];
            &&& g.1.wf()
            &&& 0 < g.1.0@.len() <= MAX_COUNT
            &&& g.1.0@[0].story_id >= 0
            &&& g.0 == g.1.0@[0].story_id as int / 1000
            &&& entries_views(g.1) == story_gid_views(rows@, g.0 as int)
        },
        forall|j: int| 0 <= j < rows@.len()
            ==> gid_present(r@, (#[trigger] rows@[j]).story_id as int / 1000),
{
    let mut groups: Vec<(i64, StoryData)> = Vec::new();
    let n = rows.len();
    let mut i: usize = 0;
    while i < n
        invariant
            i <= n,
            n == rows@.len(),
            groups@.len() <= i,
            forall|a: int, b: int| 0 <= a < b < groups@.len()
                ==> (#[trigger] groups@[a]).0 < (#[trigger] groups@[b]).0,
            forall|idx: int| 0 <= idx < groups@.len() ==> {
                let g = #[trigger] groups@[idx];
                &&& g.1.wf()
                &&& 0 < g.1.0@.len() <= i
                &&& g.1.0@[0].story_id >= 0
                &&& g.0 == g.1.0@[0].story_id as int / 1000
                &&& entries_views(g.1) == story_gid_views(rows@.take(i as int), g.0 as int)
            },
            forall|j: int| 0 <= j < i
                ==> gid_present(groups@, (#[trigger] rows@[j]).story_id as int / 1000),
            i > 0 ==> groups@.len() > 0
                && groups@.last().0 == rows@[i - 1].story_id as int / 1000,
        decreases n - i,
    {
        let row = &rows[i];
        let gid = row.story_id / 1000;
        proof {
            assert(rows@.take(i + 1 as int).drop_last() =~= rows@.take(i as int));
            assert(rows@.take(i + 1 as int).last() == rows@[i as int]);
            if i > 0 {
                vstd::arithmetic::div_mod::lemma_div_is_ordered(
                    rows@[i - 1].story_id as int, rows@[i as int].story_id as int, 1000);
            }
        }
        let is_same = if groups.len() > 0 {
            groups[groups.len() - 1].0 == gid
        } else {
            false
        };
        let ghost old_groups = groups@;
        if is_same {
            let popped = groups.pop();
            match popped {
                Option::Some(p) => {
                    let (k, mut sd) = p;
                    let ghost old_entries = sd.0@;
                    sd.0.push(row.duplicate());
                    proof {
                        assert(entries_views(sd) =~= entries_views(StoryData {
                            0: old_groups.last().1.0 }).push(story_view(rows@[i as int])));
                    }
                    groups.push((k, sd));
                    proof {
                        assert forall|idx: int| 0 <= idx < groups@.len() - 1 implies
                            #[trigger] groups@[idx] == old_groups[idx] by {}
                        assert(groups@.len() == old_groups.len());
                    }
                },
                Option::None => {
                    proof {
                        assert(false);
                    }
                },
            }
        } else {
            let mut v: Vec<model::CharaStoryStatus> = Vec::new();
            v.push(row.duplicate());
            let sd = StoryData(v);
            proof {
                assert(entries_views(sd) =~= Seq::empty().push(story_view(rows@[i as int])));
                if groups@.len() > 0 {
                    assert(old_groups.last().0 < gid);
                }
                lemma_story_gid_views_present(rows@.take(i as int), gid as int);
                assert forall|j: int| 0 <= j < i implies
                    (#[trigger] rows@.take(i as int)[j]).story_id as int / 1000 != gid as int by {
                    assert(gid_present(old_groups, rows@[j].story_id as int / 1000));
                }
                assert(story_gid_views(rows@.take(i as int), gid as int) =~= Seq::empty());
            }
            groups.push((gid, sd));
        }
        proof {
            assert forall|idx: int| 0 <= idx < groups@.len() implies {
                let g = #[trigger] groups@[idx];
                entries_views(g.1) == story_gid_views(rows@.take(i + 1 as int), g.0 as int)
            } by {
                let g = groups@[idx];
                if idx < old_groups.len() && !(is_same && idx == groups@.len() - 1) {
                    assert(g == old_groups[idx]);
                    assert(g.0 as int != rows@[i as int].story_id as int / 1000);
                }
            }
            assert forall|j: int| 0 <= j < i + 1 implies
                gid_present(groups@, (#[trigger] rows@[j]).story_id as int / 1000) by {
                if j < i {
                    let g0 = rows@[j].story_id as int / 1000;
                    assert(gid_present(old_groups, g0));
                    let widx = choose|idx: int| 0 <= idx < old_groups.len()
                        && (#[trigger] old_groups[idx]).0 == g0;
                    assert(groups@[widx].0 == old_groups[widx].0);
                } else {
                    assert(groups@[groups@.len() - 1].0 == gid);
                }
            }
        }
        i = i + 1;
    }
    proof {
        assert(rows@.take(n as int) =~= rows@);
    }
    groups
}

} // verus!

verus! {

/// Assemble one unit's data from its raw records: promotion ranks get
/// their stat rows attached, unlockable-slot rows are split per slot and
/// validated, and story rows are grouped by their group id.
pub fn build_unit_data(
    unit_id: i64,
    promotions: &Vec<model::UnitPromotion>,
    promotion_statuses: &Vec<model::UnitPromotionStatus>,
    promotion_bonuses: &Vec<model::PromotionBonus>,
    rarity: Vec<model::UnitRarity>,
    unlock_rows: &Vec<model::UnlockRarity6>,
    unique_equip: Vec<model::UnitUniqueEquip>,
    skill_data: model::UnitSkillData,
    story_rows: &Vec<model::CharaStoryStatus>,
) -> (r: Result<UnitData, DataManagerError>)
    requires
        forall|i: int| 0 <= i < promotions@.len()
            ==> (#[trigger] promotions@[i]).promotion_level == i + 1,
        forall|i: int| 0 <= i < unlock_rows@.len() ==> {
            &&& (#[trigger] unlock_rows@[i]).status.wf()
            &&& seq_bounded(unlock_rows@[i].status@, MAX_STAT as int)
        },
        unlock_rows@.len() <= MAX_COUNT,
        story_rows@.len() <= MAX_COUNT,
        forall|i: int| 0 <= i < story_rows@.len() ==> (#[trigger] story_rows@[i]).story_id >= 0,
        forall|i: int| 0 <= i < story_rows@.len() ==> story_entry_wf(#[trigger] story_rows@[i]),
        forall|i: int| 0 <= i < story_rows@.len() - 1
            ==> (#[trigger] story_rows@[i]).story_id <= story_rows@[i + 1].story_id,
    ensures
        r is Ok <==> (unlock_rows@.len() == 0
            || (unlock_rows_in_range(unlock_rows@) && unlock_rows_cover(unlock_rows@))),
        match r {
            Result::Ok(d) => {
                &&& d.unit_id == unit_id
                &&& d.rarity == rarity
                &&& d.unique_equip == unique_equip
                &&& d.skill_data == skill_data
                &&& d.promotion@.len() == promotions@.len()
                &&& forall|i: int| 0 <= i < d.promotion@.len() ==> {
                    let p = #[trigger] d.promotion@[i];
                    &&& p.promotion.unit_id == promotions@[i].unit_id
                    &&& p.promotion.promotion_level == promotions@[i].promotion_level
                    &&& p.promotion.equip_slot@ == promotions@[i].equip_slot@
                    &&& match p.status {
                        Option::Some(s) => exists|j: int| 0 <= j < promotion_statuses@.len() && {
                            let row = #[trigger] promotion_statuses@[j];
                            &&& row.promotion_level == i + 1
                            &&& s.unit_id == row.unit_id
                            &&& s.promotion_level == row.promotion_level
                            &&& s.status@ == row.status@
                        },
                        Option::None => forall|j: int| 0 <= j < promotion_statuses@.len()
                            ==> (#[trigger] promotion_statuses@[j]).promotion_level != i + 1,
                    }
                    &&& match p.bonus {
                        Option::Some(b) => exists|j: int| 0 <= j < promotion_bonuses@.len() && {
                            let row = #[trigger] promotion_bonuses@[j];
                            &&& row.promotion_level == i + 1
                            &&& b.unit_id == row.unit_id
                            &&& b.promotion_level == row.promotion_level
                            &&& b.status@ == row.status@
                        },
                        Option::None => forall|j: int| 0 <= j < promotion_bonuses@.len()
                            ==> (#[trigger] promotion_bonuses@[j]).promotion_level != i + 1,
                    }
                }
                &&& match d.unlock_rarity_6 {
                    Option::Some(ls) => {
                        &&& unlock_rows@.len() > 0
                        &&& ls@.len() == 3
                        &&& forall|k: int| 0 <= k < 3 ==> unlock_views((#[trigger] ls@[k])@)
                            == unlock_slot_views(unlock_rows@, (k + 1) as i64)
                        &&& forall|k: int| 0 <= k < 3 ==> 0 < (#[trigger] ls@[k])@.len() <= MAX_COUNT
                        &&& forall|k: int, j: int| 0 <= k < 3 && 0 <= j < (#[trigger] ls@[k])@.len()
                            ==> (#[trigger] ls@[k]@[j]).status.wf()
                                && seq_bounded(ls@[k]@[j].status@, MAX_STAT as int)
                    },
                    Option::None => unlock_rows@.len() == 0,
                }
                &&& d.stories@.len() <= story_rows@.len()
                &&& forall|a: int, b: int| 0 <= a < b < d.stories@.len()
                    ==> (#[trigger] d.stories@[a]).0 < (#[trigger] d.stories@[b]).0
                &&& forall|idx: int| 0 <= idx < d.stories@.len() ==> {
                    let g = #[trigger] d.stories@[idx];
                    &&& g.1.wf()
                    &&& 0 < g.1.0@.len() <= MAX_COUNT
                    &&& g.1.0@[0].story_id >= 0
                    &&& g.0 == g.1.0@[0].story_id as int / 1000
                    &&& entries_views(g.1) == story_gid_views(story_rows@, g.0 as int)
                }
                &&& forall|j: int| 0 <= j < story_rows@.len()
                    ==> gid_present(d.stories@, (#[trigger] story_rows@[j]).story_id as int / 1000)
            },
            Result::Err(e) => match e {
                DataManagerError::UnlockRarity6SlotOutOfRange(s) => exists|i: int|
                    0 <= i < unlock_rows@.len() && (#[trigger] unlock_rows@[i]).slot_id == s
                        && !(1 <= s <= 3),
                DataManagerError::UnlockRarity6NotFound(k) => {
                    &&& unlock_rows@.len() > 0
                    &&& unlock_rows_in_range(unlock_rows@)
                    &&& k < 3
                    &&& forall|i: int| 0 <= i < unlock_rows@.len()
                        ==> (#[trigger] unlock_rows@[i]).slot_id != k + 1
                },
                _ => false,
            },
        },
{
    let promotion = assemble_promotions(promotions, promotion_statuses, promotion_bonuses);
    let unlock_rarity_6 = match split_unlock_rows(unlock_rows) {
        Result::Ok(u) => u,
        Result::Err(e) => {
            return Err(e);
        },
    };
    let stories = group_story_rows(story_rows);
    Ok(UnitData {
        unit_id,
        promotion,
        rarity,
        unique_equip,
        unlock_rarity_6,
        skill_data,
        stories,
    })
}

/// Watching nothing grants nothing.
pub proof fn lemma_watch_zero(g: Seq<model::CharaStoryStatus>)
    ensures
        story_prefix(g, 0) == zero_status(),
{
    assert(g.take(0) =~= Seq::empty());
    assert(story_prefix(g, 0) =~= zero_status());
}

/// Watching every entry of a group grants exactly the whole-group bonus:
/// the prefix of length `n` is the full sum, and any watched count past
/// the end grants no more.
pub proof fn lemma_watch_all(g: Seq<model::CharaStoryStatus>, w: int)
    requires
        w >= g.len(),
    ensures
        story_prefix(g, w) == story_prefix(g, g.len() as int),
{
    assert(clamp_watched(g, w) == g.len() as int);
}

/// Two groups whose entries grant the same bonuses grant the same
/// prefix bonus for every watched count.
pub proof fn lemma_story_prefix_congruent(
    g1: Seq<model::CharaStoryStatus>,
    g2: Seq<model::CharaStoryStatus>,
    w: int,
)
    requires
        w >= 0,
        g1.len() == g2.len(),
        forall|i: int| 0 <= i < g1.len() ==> (#[trigger] g1[i]).status@ == g2[i].status@,
    ensures
        story_prefix(g1, w) == story_prefix(g2, w),
{
    let k = clamp_watched(g1, w);
    assert forall|slot: int| 0 <= slot < STATUS_LEN implies
        sum_terms(g1.take(k), #[trigger] entry_fn(slot)) == sum_terms(g2.take(k), entry_fn(slot)) by {
        let f = entry_fn(slot);
        assert forall|i: int| 0 <= i < g1.take(k).len() implies
            #[trigger] f(g1.take(k)[i]) == f(g2.take(k)[i]) by {
            assert(g1.take(k)[i] == g1[i] && g2.take(k)[i] == g2[i]);
            assert(story_entry_delta(g1[i], slot) == story_entry_delta(g2[i], slot));
        }
        crate::sums::lemma_sum_terms_congruent(g1.take(k), g2.take(k), f);
    }
    assert(story_prefix(g1, w) =~= story_prefix(g2, w));
}

} // verus!

verus! {

impl StoryData {
    /// An entry-for-entry copy.
    pub fn duplicate(&self) -> (r: StoryData)
        ensures
            r.0@.len() == self.0@.len(),
            forall|i: int| 0 <= i < self.0@.len() ==> {
                &&& (#[trigger] r.0@[i]).story_id == self.0@[i].story_id
                &&& r.0@[i].status@ == self.0@[i].status@
                &&& r.0@[i].chara_id@ == self.0@[i].chara_id@
            },
            self.wf() ==> r.wf(),
    {
        let mut v: Vec<model::CharaStoryStatus> = Vec::new();
        let n = self.0.len();
        let mut i: usize = 0;
        while i < n
            invariant
                i <= n,
                n == self.0@.len(),
                v@.len() == i,
                forall|j: int| 0 <= j < i ==> {
                    &&& (#[trigger] v@[j]).story_id == self.0@[j].story_id
                    &&& v@[j].status@ == self.0@[j].status@
                    &&& v@[j].chara_id@ == self.0@[j].chara_id@
                },
            decreases n - i,
        {
            v.push(self.0[i].duplicate());
            i = i + 1;
        }
        StoryData(v)
    }
}

impl model::UnitStatusCoefficient {
    /// A field-for-field copy.
    pub fn duplicate(&self) -> (r: model::UnitStatusCoefficient)
        ensures
            r.coefficient_id == self.coefficient_id,
            r.weights@ == self.weights@,
            r.skill_lv_coefficient == self.skill_lv_coefficient,
            r.exskill_evolution_coefficient == self.exskill_evolution_coefficient,
            r.overall_coefficient == self.overall_coefficient,
            r.skill1_evolution_coefficient == self.skill1_evolution_coefficient,
            r.skill1_evolution_slv_coefficient == self.skill1_evolution_slv_coefficient,
            r.ub_evolution_coefficient == self.ub_evolution_coefficient,
            r.ub_evolution_slv_coefficient == self.ub_evolution_slv_coefficient,
            self.wf() ==> r.wf(),
    {
        model::UnitStatusCoefficient {
            coefficient_id: self.coefficient_id,
            weights: self.weights.duplicate(),
            skill_lv_coefficient: self.skill_lv_coefficient,
            exskill_evolution_coefficient: self.exskill_evolution_coefficient,
            overall_coefficient: self.overall_coefficient,
            skill1_evolution_coefficient: self.skill1_evolution_coefficient,
            skill1_evolution_slv_coefficient: self.skill1_evolution_slv_coefficient,
            ub_evolution_coefficient: self.ub_evolution_coefficient,
            ub_evolution_slv_coefficient: self.ub_evolution_slv_coefficient,
        }
    }
}

} // verus!
