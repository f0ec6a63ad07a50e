//! Tests of the standalone aggregate reads on the cache and the watch
//! and unlock setters through the calculator.

use powermagic::calc::UnitCalculator;
use powermagic::cache::{UnitCache, UnitPromotionCache, UnitRarityCache, UnlockRarity6Cache};
use powermagic::data::StoryData;
use powermagic::equip::UnlockRarity6Slot;
use powermagic::limits::SCALE;
use powermagic::model::{CharaStoryStatus, UnitStatusCoefficient, UnitPromotion, UnitRarity,
    UnitSkillData, EMPTY_EQUIP_ID};
use powermagic::skill::{SkillLevelInfo, UnitSkill};
use powermagic::status::{StatusVector, STATUS_LEN};

fn sv(vals: &[(usize, i128)]) -> StatusVector {
    let mut v = vec![0i128; STATUS_LEN];
    for (i, x) in vals {
        v[*i] = *x;
    }
    StatusVector::from_vec(v).unwrap()
}

fn story_entry(story_id: i64, pairs: &[(i64, i64)]) -> CharaStoryStatus {
    CharaStoryStatus {
        story_id,
        unlock_story_name: String::new(),
        status: pairs.to_vec(),
        chara_id: vec![1001],
    }
}

fn coefficient() -> UnitStatusCoefficient {
    UnitStatusCoefficient {
        coefficient_id: 1,
        weights: sv(&[(0, SCALE)]),
        skill_lv_coefficient: 0,
        exskill_evolution_coefficient: 0,
        overall_coefficient: 0,
        skill1_evolution_coefficient: 0,
        skill1_evolution_slv_coefficient: 0,
        ub_evolution_coefficient: 0,
        ub_evolution_slv_coefficient: 0,
    }
}

fn storied_cache() -> UnitCache {
    UnitCache {
        unit_id: 100101,
        skill: UnitSkill {
            union_burst: vec![],
            main_skill: vec![],
            ex_skill: vec![],
            free_skill: vec![SkillLevelInfo { skill_id: 1, skill_evolution_id: None,
                skill_level: 1 }],
        },
        rarity: vec![UnitRarityCache {
            status: sv(&[(0, 10 * SCALE)]),
            growth: sv(&[(0, SCALE)]),
        }],
        promotion: vec![UnitPromotionCache {
            equipments: vec![None, None, None, None, None, None],
            status: Some(StatusVector::zeros()),
            bonus: None,
        }],
        unique_equip: None,
        unlock_rarity_6: Some(vec![
            vec![UnlockRarity6Cache { status: sv(&[(0, 7)]) }],
            vec![UnlockRarity6Cache { status: sv(&[(0, 11)]) }],
            vec![
                UnlockRarity6Cache { status: sv(&[(0, 13)]) },
                UnlockRarity6Cache { status: sv(&[(0, 29)]) },
            ],
        ]),
        story: vec![
            (501, StoryData(vec![
                story_entry(501001, &[(1, 100)]),
                story_entry(501002, &[(1, 50)]),
            ])),
            (502, StoryData(vec![story_entry(502001, &[(2, 9)])])),
        ],
        status_coefficient: coefficient(),
        status_coefficient_cache: sv(&[(0, SCALE)]),
    }
}

#[test]
fn watch_story_claims_exactly_the_prefix() {
    let cache = storied_cache();
    let calculator = UnitCalculator::new(&cache).watch_story(501, 1);
    let story = calculator.story_param();
    assert_eq!(story.get(0), 100);
    assert_eq!(story.get(1), 0);
    let calculator = calculator.watch_story(501, 2).watch_story(502, 1);
    let story = calculator.story_param();
    assert_eq!(story.get(0), 150);
    assert_eq!(story.get(1), 9);
    let all = calculator.cache.story[0].1.param_all();
    assert_eq!(all.get(0), 150);
}

#[test]
fn watch_order_of_other_groups_does_not_matter() {
    let cache = storied_cache();
    let first_then_second = UnitCalculator::new(&cache).watch_story(501, 2).watch_story(502, 1);
    let cache2 = storied_cache();
    let second_then_first = UnitCalculator::new(&cache2).watch_story(502, 1).watch_story(501, 2);
    let a = first_then_second.story_param();
    let b = second_then_first.story_param();
    for i in 0..17 {
        assert_eq!(a.get(i), b.get(i));
    }
}

#[test]
fn unlockable_slots_contribute_per_level() {
    let cache = storied_cache();
    let mut state = cache.unit_state();
    state.unlock_rarity_6_slot = Some(UnlockRarity6Slot {
        slot_1_level: 1,
        slot_2_level: 0,
        slot_3_level: 2,
    });
    let calculator = UnitCalculator { cache: &cache, state };
    let r6 = calculator.rarity_6_param();
    assert_eq!(r6.get(0), 7 + 29);
    let equip = calculator.equip_param();
    assert_eq!(equip.get(0), 7 + 29);
}

#[test]
fn standalone_cache_reads_match_the_formulas() {
    let cache = storied_cache();
    let base = cache.base_param(1, 20, 1);
    assert_eq!(base.get(0), 10 + 20 + 1);
    let equip = cache.equip_param(1, &vec![(false, 0); 6]);
    assert_eq!(equip.get(0), 0);
    let story = cache.story_param(&vec![(501, 1)]);
    assert_eq!(story.get(0), 100);
    let story_all = cache.story_param(&vec![(501, 2), (502, 1)]);
    assert_eq!(story_all.get(0), 150);
    assert_eq!(story_all.get(1), 9);
    assert_eq!(cache.skill_level(8, 1, false), 8 * SCALE);
}

#[test]
fn unit_data_base_param_matches_cache_base_param() {
    let d = powermagic::data::UnitData {
        unit_id: 100101,
        promotion: vec![powermagic::data::UnitPromotion {
            promotion: UnitPromotion {
                unit_id: 100101,
                promotion_level: 1,
                equip_slot: vec![EMPTY_EQUIP_ID; 6],
            },
            status: None,
            bonus: None,
        }],
        rarity: vec![UnitRarity {
            unit_id: 100101,
            rarity: 1,
            status: sv(&[(0, 10 * SCALE)]),
            growth: sv(&[(0, SCALE)]),
            unit_material_id: 0,
            consume_num: 0,
            consume_gold: 0,
        }],
        unique_equip: vec![],
        unlock_rarity_6: None,
        skill_data: UnitSkillData {
            unit_id: 100101,
            union_burst: vec![],
            union_burst_evolution: 0,
            main_skill: vec![],
            main_skill_evolution: vec![],
            ex_skill: vec![],
            ex_skill_evolution: vec![],
            sp_union_burst: 0,
            sp_skill: vec![],
            sp_skill_evolution: vec![],
        },
        stories: vec![],
    };
    let base = d.base_param(20, 1, 1);
    assert_eq!(base.get(0), 10 + 20 + 1);
}

#[test]
fn watch_stories_folds_in_order() {
    let cache = storied_cache();
    let ops = vec![(501i64, 1usize), (502, 1), (501, 2)];
    let pure = UnitCalculator::new(&cache).watch_stories(&ops);
    let story = pure.story_param();
    assert_eq!(story.get(0), 150);
    assert_eq!(story.get(1), 9);
    assert_eq!(pure.state.story[0].watched, 2);
    assert_eq!(pure.state.story[1].watched, 1);
    let cache2 = storied_cache();
    let mut memorized = UnitCalculator::new(&cache2).memorized().watch_stories(&ops);
    let story2 = memorized.story_param();
    for i in 0..17 {
        assert_eq!(story.get(i), story2.get(i));
    }
}

#[test]
fn cached_projections_carry_the_rows() {
    let rarity_row = UnitRarity {
        unit_id: 100101,
        rarity: 2,
        status: sv(&[(0, 5 * SCALE)]),
        growth: sv(&[(1, 3 * SCALE)]),
        unit_material_id: 0,
        consume_num: 0,
        consume_gold: 0,
    };
    let rc = rarity_row.cached();
    assert_eq!(rc.status.get(0), 5 * SCALE);
    assert_eq!(rc.growth.get(1), 3 * SCALE);

    let unlock_row = powermagic::model::UnlockRarity6 {
        unit_id: 100101,
        slot_id: 1,
        unlock_level: 1,
        unlock_flag: 1,
        consume_gold: 0,
        material_type: 0,
        material_id: 0,
        material_count: 0,
        status: sv(&[(0, 42)]),
    };
    assert_eq!(unlock_row.cached().status.get(0), 42);

    let equipment = powermagic::data::EquipmentData {
        id: 900,
        data: powermagic::model::EquipmentData {
            equipment_id: 900,
            equipment_name: String::new(),
            description: String::new(),
            promotion_level: 2,
            require_level: 1,
            status: sv(&[(0, 7 * SCALE)]),
        },
        enhance_rate: powermagic::model::EquipmentEnhanceRate {
            equipment_id: 900,
            promotion_level: 2,
            status: sv(&[(0, SCALE)]),
        },
        max_enhance_level: 5,
    };
    let ec = equipment.cached();
    assert_eq!(ec.id, 900);
    assert_eq!(ec.data.get(0), 7 * SCALE);
    assert_eq!(ec.enhance_rate.get(0), SCALE);
    assert_eq!(ec.max_enhance_level, 5);

    let unique = powermagic::data::UniqueEquipmentData {
        id: 901,
        data: powermagic::model::UniqueEquipmentData {
            equipment_id: 901,
            equipment_name: String::new(),
            description: String::new(),
            promotion_level: 1,
            status: sv(&[(0, 9 * SCALE)]),
        },
        enhance_rate: powermagic::model::UniqueEquipmentEnhanceRate {
            equipment_id: 901,
            status: sv(&[(0, 2 * SCALE)]),
        },
        max_enhancement_level: 30,
    };
    let uc = unique.cached();
    assert_eq!(uc.id, 901);
    assert_eq!(uc.status.get(0), 9 * SCALE);
    assert_eq!(uc.enhance_rate.get(0), 2 * SCALE);
    assert_eq!(uc.max_enhancement_level, 30);
}
