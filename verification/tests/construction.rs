//! Tests of the per-unit data and cache construction, the story prefix
//! semantics and the state builder.

use powermagic::data::{build_unit_data, equip_data, unique_equip_data, DataManagerError,
    StoryData, UnitData};
use powermagic::cache::unit_cache;
use powermagic::limits::SCALE;
use powermagic::model::{CharaStoryStatus, EquipmentData, EquipmentEnhanceData,
    EquipmentEnhanceRate, UniqueEquipmentData, UniqueEquipmentEnhanceData,
    UniqueEquipmentEnhanceRate, UnitPromotion, UnitPromotionStatus, UnitSkillData,
    UnitUniqueEquip, UnitStatusCoefficient, UnlockRarity6, EMPTY_EQUIP_ID};
use powermagic::state::{UnitStateBuilder, UnitStateBuilderError};
use powermagic::status::{StatusVector, STATUS_LEN};

fn sv(vals: &[(usize, i128)]) -> StatusVector {
    let mut v = vec![0i128; STATUS_LEN];
    for (i, x) in vals {
        v[*i] = *x;
    }
    StatusVector::from_vec(v).unwrap()
}

fn story_entry(story_id: i64, pairs: &[(i64, i64)]) -> CharaStoryStatus {
    CharaStoryStatus {
        story_id,
        unlock_story_name: String::new(),
        status: pairs.to_vec(),
        chara_id: vec![1001],
    }
}

fn skill_data() -> UnitSkillData {
    UnitSkillData {
        unit_id: 100101,
        union_burst: vec![1001],
        union_burst_evolution: 1011,
        main_skill: vec![1002, 1003],
        main_skill_evolution: vec![1012, 0],
        ex_skill: vec![1004],
        ex_skill_evolution: vec![0],
        sp_union_burst: 0,
        sp_skill: vec![],
        sp_skill_evolution: vec![],
    }
}

fn unlock_row(slot_id: i64, unlock_level: i64, hp: i128) -> UnlockRarity6 {
    UnlockRarity6 {
        unit_id: 100101,
        slot_id,
        unlock_level,
        unlock_flag: 1,
        consume_gold: 0,
        material_type: 0,
        material_id: 0,
        material_count: 0,
        status: sv(&[(0, hp)]),
    }
}

fn promotion_row(level: i64, slots: [i64; 6]) -> UnitPromotion {
    UnitPromotion { unit_id: 100101, promotion_level: level, equip_slot: slots.to_vec() }
}

fn build_plain_data(unlock_rows: &Vec<UnlockRarity6>) -> Result<UnitData, DataManagerError> {
    let promotions = vec![promotion_row(1, [EMPTY_EQUIP_ID; 6])];
    let statuses = vec![UnitPromotionStatus {
        unit_id: 100101,
        promotion_level: 1,
        status: sv(&[(0, 5 * SCALE)]),
    }];
    let bonuses = vec![];
    let rarity = vec![powermagic::model::UnitRarity {
        unit_id: 100101,
        rarity: 1,
        status: sv(&[(0, 100 * SCALE)]),
        growth: sv(&[(0, SCALE)]),
        unit_material_id: 0,
        consume_num: 0,
        consume_gold: 0,
    }];
    let stories = vec![
        story_entry(501001, &[(1, 100)]),
        story_entry(501002, &[(1, 50), (2, 25)]),
        story_entry(502001, &[(3, 10)]),
    ];
    build_unit_data(100101, &promotions, &statuses, &bonuses, rarity, unlock_rows, vec![],
        skill_data(), &stories)
}

#[test]
fn story_prefix_counts_only_watched_entries() {
    let group = StoryData(vec![
        story_entry(501001, &[(1, 100)]),
        story_entry(501002, &[(1, 50), (2, 25)]),
        story_entry(501003, &[(3, 10)]),
    ]);
    let none = group.param(0);
    for i in 0..17 {
        assert_eq!(none.get(i), 0);
    }
    let two = group.param(2);
    assert_eq!(two.get(0), 150);
    assert_eq!(two.get(1), 25);
    assert_eq!(two.get(2), 0);
    let all = group.param_all();
    assert_eq!(all.get(0), 150);
    assert_eq!(all.get(2), 10);
    let past_the_end = group.param(9);
    for i in 0..17 {
        assert_eq!(past_the_end.get(i), all.get(i));
    }
}

#[test]
fn story_group_key_drops_three_digits() {
    let group = StoryData(vec![story_entry(501001, &[(1, 1)]), story_entry(501002, &[(1, 1)])]);
    let g = group.story_group();
    assert_eq!(g.story_group_id, 501);
    assert_eq!(g.total, 2);
    assert_eq!(g.watched, 0);
}

#[test]
fn build_groups_stories_and_splits_unlock_rows() {
    let rows = vec![unlock_row(1, 1, 10), unlock_row(2, 1, 20), unlock_row(3, 1, 30),
        unlock_row(3, 2, 40)];
    let d = build_plain_data(&rows).unwrap();
    assert_eq!(d.stories.len(), 2);
    assert_eq!(d.stories[0].0, 501);
    assert_eq!(d.stories[0].1.0.len(), 2);
    assert_eq!(d.stories[1].0, 502);
    assert_eq!(d.stories[1].1.0.len(), 1);
    let ls = d.unlock_rarity_6.as_ref().unwrap();
    assert_eq!(ls.len(), 3);
    assert_eq!(ls[2].len(), 2);
    assert_eq!(ls[2][1].unlock_level, 2);
    assert_eq!(d.promotion.len(), 1);
    assert!(d.promotion[0].status.is_some());
    assert!(d.promotion[0].bonus.is_none());
}

#[test]
fn unlock_slot_out_of_range_is_rejected() {
    let rows = vec![unlock_row(1, 1, 10), unlock_row(4, 1, 20)];
    match build_plain_data(&rows) {
        Err(DataManagerError::UnlockRarity6SlotOutOfRange(4)) => {},
        other => panic!("unexpected result: {:?}", other.map(|_| ())),
    }
}

#[test]
fn unlock_slot_without_rows_is_rejected() {
    let rows = vec![unlock_row(1, 1, 10), unlock_row(3, 1, 30)];
    match build_plain_data(&rows) {
        Err(DataManagerError::UnlockRarity6NotFound(1)) => {},
        other => panic!("unexpected result: {:?}", other.map(|_| ())),
    }
}

fn equipment_row(id: i64, promotion_level: i64, hp: i128) -> EquipmentData {
    EquipmentData {
        equipment_id: id,
        equipment_name: String::new(),
        description: String::new(),
        promotion_level,
        require_level: 1,
        status: sv(&[(0, hp)]),
    }
}

#[test]
fn equipment_resolution_picks_largest_enhance_level() {
    let table = vec![
        EquipmentEnhanceData { promotion_level: 2, equipment_enhance_level: 1, needed_point: 1,
            total_point: 1 },
        EquipmentEnhanceData { promotion_level: 2, equipment_enhance_level: 5, needed_point: 1,
            total_point: 2 },
        EquipmentEnhanceData { promotion_level: 3, equipment_enhance_level: 9, needed_point: 1,
            total_point: 3 },
    ];
    let rate = EquipmentEnhanceRate {
        equipment_id: 900,
        promotion_level: 2,
        status: sv(&[(0, SCALE / 2)]),
    };
    let e = equip_data(equipment_row(900, 2, 3 * SCALE), rate, &table).unwrap();
    assert_eq!(e.max_enhance_level, 5);
    let p = e.param(3);
    assert_eq!(p.get(0), 3 * SCALE + 2 * SCALE);
    match equip_data(equipment_row(EMPTY_EQUIP_ID, 2, 0),
        EquipmentEnhanceRate { equipment_id: EMPTY_EQUIP_ID, promotion_level: 2, status: sv(&[]) },
        &vec![]) {
        Err(DataManagerError::EquipNotFound(id)) => assert_eq!(id, EMPTY_EQUIP_ID),
        _ => panic!("the sentinel id must be rejected"),
    }
}

#[test]
fn unique_equipment_needs_an_enhance_table() {
    let data = UniqueEquipmentData {
        equipment_id: 901,
        equipment_name: String::new(),
        description: String::new(),
        promotion_level: 1,
        status: sv(&[(0, SCALE)]),
    };
    let rate = UniqueEquipmentEnhanceRate { equipment_id: 901, status: sv(&[]) };
    match unique_equip_data(data.clone(), rate.clone(), &vec![]) {
        Err(DataManagerError::UniqueEquipmentEnhanceData(901)) => {},
        _ => panic!("an empty table must be rejected"),
    }
    let table = vec![
        UniqueEquipmentEnhanceData { equip_slot: 1, enhance_level: 30, needed_point: 1,
            total_point: 1, needed_mana: 1, rank: 1 },
        UniqueEquipmentEnhanceData { equip_slot: 1, enhance_level: 50, needed_point: 1,
            total_point: 2, needed_mana: 1, rank: 2 },
        UniqueEquipmentEnhanceData { equip_slot: 2, enhance_level: 99, needed_point: 1,
            total_point: 3, needed_mana: 1, rank: 3 },
    ];
    let u = unique_equip_data(data, rate, &table).unwrap();
    assert_eq!(u.max_enhancement_level, 50);
}

fn zero_coefficient() -> UnitStatusCoefficient {
    UnitStatusCoefficient {
        coefficient_id: 1,
        weights: sv(&[]),
        skill_lv_coefficient: 0,
        exskill_evolution_coefficient: 0,
        overall_coefficient: 0,
        skill1_evolution_coefficient: 0,
        skill1_evolution_slv_coefficient: 0,
        ub_evolution_coefficient: 0,
        ub_evolution_slv_coefficient: 0,
    }
}

#[test]
fn cache_construction_resolves_equipment_by_id() {
    let mut d = build_plain_data(&vec![]).unwrap();
    d.promotion[0].promotion.equip_slot = vec![900, EMPTY_EQUIP_ID, EMPTY_EQUIP_ID,
        EMPTY_EQUIP_ID, EMPTY_EQUIP_ID, EMPTY_EQUIP_ID];
    let equips = vec![powermagic::data::EquipmentData {
        id: 900,
        data: equipment_row(900, 2, 3 * SCALE),
        enhance_rate: EquipmentEnhanceRate { equipment_id: 900, promotion_level: 2,
            status: sv(&[]) },
        max_enhance_level: 5,
    }];
    let c = unit_cache(&d, &equips, &vec![], &zero_coefficient()).unwrap();
    match &c.promotion[0].equipments[0] {
        Some(e) => {
            assert_eq!(e.id, 900);
            assert_eq!(e.max_enhance_level, 5);
        },
        None => panic!("the referenced equipment must resolve"),
    }
    assert!(c.promotion[0].equipments[1].is_none());
    assert_eq!(c.story.len(), 2);
    assert_eq!(c.skill.main_skill.len(), 2);
    assert_eq!(c.skill.main_skill[0].skill_evolution_id, Some(1012));
    assert_eq!(c.skill.main_skill[1].skill_evolution_id, None);
    assert_eq!(c.skill.union_burst[0].skill_evolution_id, Some(1011));
}

#[test]
fn cache_construction_rejects_missing_equipment() {
    let mut d = build_plain_data(&vec![]).unwrap();
    d.promotion[0].promotion.equip_slot = vec![900, EMPTY_EQUIP_ID, EMPTY_EQUIP_ID,
        EMPTY_EQUIP_ID, EMPTY_EQUIP_ID, EMPTY_EQUIP_ID];
    match unit_cache(&d, &vec![], &vec![], &zero_coefficient()) {
        Err(DataManagerError::EquipNotFound(900)) => {},
        _ => panic!("a missing record must be rejected"),
    }
}

#[test]
fn cache_construction_rejects_two_unique_equipments() {
    let mut d = build_plain_data(&vec![]).unwrap();
    d.unique_equip = vec![
        UnitUniqueEquip { unit_id: 100101, equip_slot: 1, equip_id: 901 },
        UnitUniqueEquip { unit_id: 100101, equip_slot: 2, equip_id: 902 },
    ];
    match unit_cache(&d, &vec![], &vec![], &zero_coefficient()) {
        Err(DataManagerError::InvalidUniqueEquipMoreThanOne(100101)) => {},
        _ => panic!("two unique equipments must be rejected"),
    }
}

#[test]
fn builder_requires_every_piece() {
    let d = build_plain_data(&vec![]).unwrap();
    match UnitStateBuilder::with_config(&d).build() {
        Err(UnitStateBuilderError::Rarity) => {},
        _ => panic!("rarity must be required first"),
    }
    match UnitStateBuilder::with_config(&d).rarity(1).build() {
        Err(UnitStateBuilderError::Level) => {},
        _ => panic!("level must be required next"),
    }
    match UnitStateBuilder::with_config(&d).rarity(1).level(10).build() {
        Err(UnitStateBuilderError::Promotion) => {},
        _ => panic!("promotion must be required next"),
    }
    let state = UnitStateBuilder::with_config(&d).rarity(1).level(10).rank(1).build().unwrap();
    assert_eq!(state.rarity, 1);
    assert_eq!(state.level, 10);
    assert_eq!(state.promotion, 1);
    assert_eq!(state.equip_slot.len(), 6);
    assert_eq!(state.story.len(), 2);
    assert_eq!(state.story[0].total, 2);
}

#[test]
fn builder_rejects_rarity_six_without_unlock_data() {
    let d = build_plain_data(&vec![]).unwrap();
    match UnitStateBuilder::with_config(&d).rarity(6).level(10).rank(1).build() {
        Err(UnitStateBuilderError::Rarity6) => {},
        _ => panic!("the highest rarity needs unlockable-slot data"),
    }
}
