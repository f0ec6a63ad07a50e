//! Tests of the rounding policy, the slot machine, the vector type and
//! the calculator formulas on concrete values.

use powermagic::calc::{rank_up_bonus, UnitCalculator};
use powermagic::cache::{EquipmentCache, UnitCache, UnitPromotionCache, UnitRarityCache,
    UniqueEquipmentCache, UnlockRarity6Cache};
use powermagic::equip::{EquipSlot, UnlockRarity6Slot};
use powermagic::limits::SCALE;
use powermagic::model::UnitStatusCoefficient;
use powermagic::round::{ceil_scaled, partial_max, round_scaled, CyRound};
use powermagic::skill::{is_evolution_skill, SkillLevelInfo, UnitSkill};
use powermagic::status::{StatusVector, UnitStatusTrait, STATUS_LEN};

fn sv(vals: &[(usize, i128)]) -> StatusVector {
    let mut v = vec![0i128; STATUS_LEN];
    for (i, x) in vals {
        v[*i] = *x;
    }
    StatusVector::from_vec(v).unwrap()
}

fn zeros() -> StatusVector {
    StatusVector::zeros()
}

fn fixed(x: f64) -> i128 {
    (x * SCALE as f64) as i128
}

fn empty_skill() -> UnitSkill {
    UnitSkill { union_burst: vec![], main_skill: vec![], ex_skill: vec![], free_skill: vec![] }
}

fn zero_coefficient() -> UnitStatusCoefficient {
    UnitStatusCoefficient {
        coefficient_id: 1,
        weights: zeros(),
        skill_lv_coefficient: 0,
        exskill_evolution_coefficient: 0,
        overall_coefficient: 0,
        skill1_evolution_coefficient: 0,
        skill1_evolution_slv_coefficient: 0,
        ub_evolution_coefficient: 0,
        ub_evolution_slv_coefficient: 0,
    }
}

fn empty_rank() -> UnitPromotionCache {
    UnitPromotionCache {
        equipments: vec![None, None, None, None, None, None],
        status: Some(zeros()),
        bonus: None,
    }
}

/// A cache with `n_ranks` empty promotion ranks and five rarities whose
/// hp column follows the given base and growth.
fn plain_cache(hp_status: i128, hp_growth: i128, n_ranks: usize) -> UnitCache {
    let mut rarity = Vec::new();
    for _ in 0..5 {
        rarity.push(UnitRarityCache {
            status: sv(&[(0, hp_status)]),
            growth: sv(&[(0, hp_growth)]),
        });
    }
    let mut promotion = Vec::new();
    for _ in 0..n_ranks {
        promotion.push(empty_rank());
    }
    UnitCache {
        unit_id: 100101,
        skill: empty_skill(),
        rarity,
        promotion,
        unique_equip: None,
        unlock_rarity_6: None,
        story: vec![],
        status_coefficient: UnitStatusCoefficient {
            weights: sv(&[(0, SCALE)]),
            ..zero_coefficient()
        },
        status_coefficient_cache: sv(&[(0, SCALE)]),
    }
}

#[test]
fn round_half_up_boundary() {
    assert_eq!(round_scaled(4_500_000), 5);
    assert_eq!(round_scaled(4_499_999), 4);
    assert_eq!(round_scaled(fixed(4.5)), 5);
    assert_eq!(round_scaled(fixed(4.499999999999999)), 4);
    assert_eq!(round_scaled(0), 0);
    assert_eq!(round_scaled(1_499_999), 1);
    assert_eq!(round_scaled(1_500_000), 2);
}

#[test]
fn round_negative_truncates_toward_zero() {
    assert_eq!(round_scaled(-500_000), 0);
    assert_eq!(round_scaled(-999_999), 0);
    assert_eq!(round_scaled(-1_500_000), -1);
    assert_eq!(round_scaled(-2_700_000), -2);
}

#[test]
fn ceil_values() {
    assert_eq!(ceil_scaled(0), 0);
    assert_eq!(ceil_scaled(1), 1);
    assert_eq!(ceil_scaled(1_000_000), 1);
    assert_eq!(ceil_scaled(1_000_001), 2);
    assert_eq!(ceil_scaled(-1_500_000), -1);
    assert_eq!(ceil_scaled(-2_000_000), -2);
}

#[test]
fn cy_round_trait_matches_free_function() {
    assert_eq!(4_500_000i128.cy_round(), 5);
    assert_eq!(4_499_999i128.cy_round(), 4);
    assert_eq!(partial_max(3, 7), 7);
    assert_eq!(partial_max(7, 3), 7);
}

#[test]
fn equip_slot_round_trip() {
    let mut slot = EquipSlot::Unequipped { id: 42, max_enhancement_level: Some(5) };
    assert!(slot.equip(3));
    match slot {
        EquipSlot::Equipped { id, enhancement_level, max_enhancement_level } => {
            assert_eq!(id, 42);
            assert_eq!(enhancement_level, 3);
            assert_eq!(max_enhancement_level, Some(5));
        },
        _ => panic!("expected a worn slot"),
    }
    assert!(slot.unequip());
    match slot {
        EquipSlot::Unequipped { id, max_enhancement_level } => {
            assert_eq!(id, 42);
            assert_eq!(max_enhancement_level, Some(5));
        },
        _ => panic!("expected an unworn slot"),
    }
}

#[test]
fn equip_full_reaches_max() {
    let mut slot = EquipSlot::Unequipped { id: 7, max_enhancement_level: Some(5) };
    assert!(slot.equip_full());
    assert!(matches!(slot, EquipSlot::Equipped { enhancement_level: 5, .. }));
    let mut unknown = EquipSlot::Unequipped { id: 7, max_enhancement_level: None };
    assert!(unknown.equip_full());
    assert!(matches!(unknown, EquipSlot::Equipped { enhancement_level: 0, .. }));
}

#[test]
fn empty_slot_is_terminal() {
    let mut slot = EquipSlot::Empty;
    assert!(!slot.equip(3));
    assert!(matches!(slot, EquipSlot::Empty));
    assert!(!slot.unequip());
    assert!(!slot.equip_full());
    assert!(slot.is_none());
    assert!(!slot.is_equipped());
}

#[test]
fn equip_same_level_reports_no_change() {
    let mut slot = EquipSlot::Equipped { id: 1, enhancement_level: 2, max_enhancement_level: None };
    assert!(!slot.equip(2));
    assert!(slot.equip(4));
}

#[test]
fn evolution_skill_ids() {
    assert!(is_evolution_skill(1011));
    assert!(!is_evolution_skill(1001));
    assert!(is_evolution_skill(11));
    assert!(!is_evolution_skill(21));
    assert!(is_evolution_skill(110));
}

#[test]
fn status_vector_ops() {
    let a = sv(&[(0, 10), (16, 3)]);
    let b = sv(&[(0, 5), (1, 2)]);
    let s = a.add(&b);
    assert_eq!(s.get(0), 15);
    assert_eq!(s.get(1), 2);
    assert_eq!(s.get(16), 3);
    let d = a.sub(&b);
    assert_eq!(d.get(0), 5);
    assert_eq!(d.get(1), -2);
    let m = a.scale_mul(3);
    assert_eq!(m.get(0), 30);
    let e = a.component_mul(&b);
    assert_eq!(e.get(0), 50);
    assert_eq!(e.get(16), 0);
    assert_eq!(a.dot(&b), 50);
    assert!(StatusVector::from_vec(vec![0i128; 5]).is_none());
}

#[test]
fn named_accessors_follow_slot_order() {
    let v = sv(&[(0, 1), (1, 2), (2, 3), (7, 8), (16, 17)]);
    assert_eq!(v.hp(), 1);
    assert_eq!(v.atk(), 2);
    assert_eq!(v.def(), 3);
    assert_eq!(v.dodge(), 8);
    assert_eq!(v.accuracy(), 17);
}

#[test]
fn rank_up_bonus_shape() {
    let b = rank_up_bonus(20);
    for i in 0..5 {
        assert_eq!(b.get(i), 20);
    }
    for i in 5..17 {
        assert_eq!(b.get(i), 1);
    }
}

#[test]
fn skill_power_formulas() {
    let c = UnitStatusCoefficient {
        ub_evolution_coefficient: 2 * SCALE,
        ub_evolution_slv_coefficient: fixed(1.2),
        skill1_evolution_coefficient: 3 * SCALE,
        skill1_evolution_slv_coefficient: fixed(1.5),
        exskill_evolution_coefficient: 1 * SCALE,
        ..zero_coefficient()
    };
    assert_eq!(c.union_burst_power(10, true), 14 * SCALE);
    assert_eq!(c.union_burst_power(10, false), 10 * SCALE);
    assert_eq!(c.main_skill_power(4, true), 9 * SCALE);
    assert_eq!(c.main_skill_power(4, false), 4 * SCALE);
    assert_eq!(c.ex_skill_power(5, true), 6 * SCALE);
    assert_eq!(c.ex_skill_power(5, false), 5 * SCALE);
    assert_eq!(c.free_skill_power(7), 7 * SCALE);
}

#[test]
fn end_to_end_rarity_five_scenario() {
    let cache = plain_cache(1000 * SCALE, 50 * SCALE, 20);
    let calculator = UnitCalculator::new(&cache)
        .set_star(5)
        .set_all_level(190)
        .set_rank(20)
        .unequip_all_equipments()
        .watch_all_stories();
    let rarity_param = calculator.rarity_param();
    assert_eq!(rarity_param.get(0), 11_500 * SCALE);
    let base = calculator.base_param();
    assert_eq!(base.get(0), 11_500);
    let status = calculator.param();
    assert_eq!(status.get(0), 11_500);
    let mut memorized = calculator.memorized();
    assert_eq!(memorized.power(), 11_500 * SCALE * SCALE);
}

#[test]
fn memoized_getters_match_pure_calculator() {
    let cache = plain_cache(777 * SCALE, 13 * SCALE, 3);
    let pure = UnitCalculator::new(&cache).set_star(4).set_all_level(50).set_rank(2);
    let expected = pure.power();
    let cache2 = plain_cache(777 * SCALE, 13 * SCALE, 3);
    let mut memorized = UnitCalculator::new(&cache2)
        .memorized()
        .set_star(4)
        .set_all_level(50)
        .set_rank(2);
    assert_eq!(memorized.power(), expected);
    assert_eq!(memorized.power(), expected);
    assert_eq!(memorized.base_param().get(0), pure.base_param().get(0));
}

#[test]
fn setter_leaves_unrelated_aggregates_unchanged() {
    let cache = plain_cache(100 * SCALE, 2 * SCALE, 4);
    let mut memorized = UnitCalculator::new(&cache).memorized();
    let story_before = memorized.story_param();
    let promotion_before = memorized.promotion_param();
    let mut memorized = memorized.set_level(99);
    let story_after = memorized.story_param();
    let promotion_after = memorized.promotion_param();
    for i in 0..17 {
        assert_eq!(story_before.get(i), story_after.get(i));
        assert_eq!(promotion_before.get(i), promotion_after.get(i));
    }
    assert_eq!(memorized.power(), 2 * SCALE * SCALE * 99 + 100 * SCALE * SCALE + 2 * SCALE * SCALE);
}

#[test]
fn default_state_is_fresh() {
    let cache = plain_cache(10 * SCALE, SCALE, 2);
    let state = cache.unit_state();
    assert_eq!(state.rarity, 1);
    assert_eq!(state.level, 1);
    assert_eq!(state.promotion, 1);
    assert_eq!(state.equip_slot.len(), 6);
    assert!(state.equip_slot.iter().all(|s| s.is_none()));
    assert!(state.unique_equip_slot.is_empty());
    assert!(state.unlock_rarity_6_slot.is_none());
    assert!(state.story.is_empty());
}

/// The unique equipment's fraction accumulates with the worn slots and
/// rounds with them, while the unlockable-slot bonus, already integral,
/// joins only after the rounding: two fractions of three tenths round up
/// together where each alone would have vanished.
#[test]
fn equip_rounding_layering_is_pinned() {
    let mut cache = plain_cache(0, 0, 1);
    cache.promotion[0].equipments[0] = Some(EquipmentCache {
        id: 900,
        data: sv(&[(0, fixed(0.3))]),
        enhance_rate: zeros(),
        max_enhance_level: 5,
    });
    cache.unique_equip = Some(UniqueEquipmentCache {
        id: 901,
        status: sv(&[(0, fixed(0.3))]),
        enhance_rate: zeros(),
        max_enhancement_level: 5,
    });
    cache.unlock_rarity_6 = Some(vec![
        vec![UnlockRarity6Cache { status: sv(&[(0, 2)]) }],
        vec![UnlockRarity6Cache { status: sv(&[(1, 1)]) }],
        vec![UnlockRarity6Cache { status: sv(&[(2, 1)]) }],
    ]);
    let mut state = cache.unit_state();
    state.unlock_rarity_6_slot = Some(UnlockRarity6Slot {
        slot_1_level: 1,
        slot_2_level: 0,
        slot_3_level: 0,
    });
    let calculator = UnitCalculator { cache: &cache, state }
        .wear_all_equipments(0)
        .wear_unique_equipment(1);
    let equip = calculator.equip_param();
    assert_eq!(equip.get(0), 1 + 2);
    assert_eq!(equip.get(1), 0);
}

#[test]
fn unique_equipment_level_offset_is_pinned() {
    let mut cache = plain_cache(0, 0, 1);
    cache.unique_equip = Some(UniqueEquipmentCache {
        id: 901,
        status: zeros(),
        enhance_rate: sv(&[(0, SCALE)]),
        max_enhancement_level: 10,
    });
    let state = cache.unit_state();
    let calculator = UnitCalculator { cache: &cache, state }.wear_unique_equipment(4);
    let unique = calculator.unique_equip_param();
    assert_eq!(unique.get(0), 3 * SCALE);
}

#[test]
fn main_skill_evolves_only_with_unique_worn() {
    let mut cache = plain_cache(0, 0, 1);
    cache.skill = UnitSkill {
        union_burst: vec![],
        main_skill: vec![SkillLevelInfo {
            skill_id: 1001,
            skill_evolution_id: Some(1011),
            skill_level: 1,
        }],
        ex_skill: vec![],
        free_skill: vec![],
    };
    cache.unique_equip = Some(UniqueEquipmentCache {
        id: 901,
        status: zeros(),
        enhance_rate: zeros(),
        max_enhancement_level: 10,
    });
    cache.status_coefficient.skill1_evolution_coefficient = 3 * SCALE;
    cache.status_coefficient.skill1_evolution_slv_coefficient = 2 * SCALE;
    let unworn = UnitCalculator::new(&cache).set_all_level(10);
    assert_eq!(unworn.skill_power(), 10 * SCALE);
    let worn = UnitCalculator::new(&cache).set_all_level(10).wear_unique_equipment(1);
    assert_eq!(worn.skill_power(), 23 * SCALE);
    assert_eq!(cache.skill_level(10, 6, false), 10 * SCALE);
    assert_eq!(cache.skill_level(10, 6, true), 23 * SCALE);
}
