use farming_game::crop::{
    calculate_fertility_modifier, calculate_harvest_yield, calculate_harvest_yield_with_fertility,
    compute_yield, get_crop_config, CropType,
};
use farming_game::tools::get_water_modifier;

// Decay boundary on the wheat-shaped curve: full yield at the end of the
// optimal window, minimum yield at the end of the decay window, and the
// exact linear midpoint in between.
#[test]
fn decay_boundary() {
    assert_eq!(calculate_harvest_yield(20, 100, 20, 60, 20), Ok(100));
    assert_eq!(calculate_harvest_yield(60, 100, 20, 60, 20), Ok(20));
    assert_eq!(calculate_harvest_yield(40, 100, 20, 60, 20), Ok(60));
}

#[test]
fn decay_is_linear_between_boundaries() {
    // loss = 80 * (elapsed - 20) / 40
    assert_eq!(calculate_harvest_yield(30, 100, 20, 60, 20), Ok(80));
    assert_eq!(calculate_harvest_yield(50, 100, 20, 60, 20), Ok(40));
    // Multiply-before-divide keeps sub-step precision: at 25 seconds the
    // loss is 80*5/40 = 10, not 0.
    assert_eq!(calculate_harvest_yield(25, 100, 20, 60, 20), Ok(90));
}

#[test]
fn yield_constant_inside_optimal_window() {
    assert_eq!(calculate_harvest_yield(0, 300, 30, 90, 60), Ok(300));
    assert_eq!(calculate_harvest_yield(15, 300, 30, 90, 60), Ok(300));
    assert_eq!(calculate_harvest_yield(30, 300, 30, 90, 60), Ok(300));
}

#[test]
fn yield_floor_after_decay_window() {
    assert_eq!(calculate_harvest_yield(90, 300, 30, 90, 60), Ok(60));
    assert_eq!(calculate_harvest_yield(100_000, 300, 30, 90, 60), Ok(60));
}

// Monotonicity probed on concrete points: non-increasing past the
// optimal window for a fixed fertility, water and season.
#[test]
fn yield_monotone_in_elapsed_time() {
    let mut previous = u64::MAX;
    for elapsed in [0i64, 10, 20, 21, 30, 40, 55, 60, 61, 1000] {
        let y = compute_yield(elapsed, 100, 20, 60, 20, 50, 50, 110).unwrap();
        assert!(y <= previous);
        previous = y;
    }
}

#[test]
fn fertility_modifier_is_linear_from_40_to_100() {
    assert_eq!(calculate_fertility_modifier(0), 40);
    assert_eq!(calculate_fertility_modifier(50), 70);
    assert_eq!(calculate_fertility_modifier(100), 100);
    // Out-of-domain fertility is capped at the full modifier.
    assert_eq!(calculate_fertility_modifier(255), 100);
}

#[test]
fn water_modifier_steps() {
    assert_eq!(get_water_modifier(100), 100);
    assert_eq!(get_water_modifier(60), 100);
    assert_eq!(get_water_modifier(59), 85);
    assert_eq!(get_water_modifier(40), 85);
    assert_eq!(get_water_modifier(39), 70);
    assert_eq!(get_water_modifier(20), 70);
    assert_eq!(get_water_modifier(19), 50);
    assert_eq!(get_water_modifier(0), 50);
}

#[test]
fn fertility_scaling_with_floor() {
    // Time-based yield 100, fertility 0 -> 40% = 40, above the floor 10.
    assert_eq!(calculate_harvest_yield_with_fertility(0, 100, 20, 60, 20, 0), Ok(40));
    // Time-based yield at the decay floor 20, fertility 0 -> 8, lifted to
    // the absolute floor min_yield / 2 = 10.
    assert_eq!(calculate_harvest_yield_with_fertility(60, 100, 20, 60, 20, 0), Ok(10));
}

// The floor property: even under every penalty at once the yield never
// drops below half the minimum yield.
#[test]
fn floor_under_all_penalties() {
    // Fully decayed, dead soil, bone-dry plot, worst wheat season (90%).
    let y = compute_yield(1_000_000, 100, 20, 60, 20, 0, 0, 90).unwrap();
    assert!(y >= 10);
    // And the exact value: 20 -> fertility 40% -> 8 -> floored inside the
    // fertility step to 10 -> season 90% -> 9 -> water 50% -> 4 -> floor.
    assert_eq!(y, 10);
}

#[test]
fn full_pipeline_exact_value() {
    // Within the optimal window: 100 * 70% = 70, * 110% = 77, * 85% = 65.
    let y = compute_yield(0, 100, 20, 60, 20, 50, 45, 110).unwrap();
    assert_eq!(y, 65);
}

#[test]
fn crop_catalog_lookup() {
    let wheat = get_crop_config(1).unwrap();
    assert_eq!(wheat.growth_time, 30);
    assert_eq!(wheat.base_yield, 100);
    assert_eq!(wheat.min_yield, 20);
    assert!(!wheat.is_restorative);

    let carrot = CropType::Carrot.get_config();
    assert!(carrot.is_restorative);
    assert_eq!(carrot.fertility_cost, 5);

    assert_eq!(
        get_crop_config(0).unwrap_err(),
        farming_game::errors::FarmingError::InvalidCropType
    );
    assert_eq!(
        get_crop_config(6).unwrap_err(),
        farming_game::errors::FarmingError::InvalidCropType
    );
}

#[test]
fn season_validity_per_crop() {
    let wheat = get_crop_config(1).unwrap();
    assert!(wheat.is_valid_season(0));
    assert!(wheat.is_valid_season(1));
    assert!(!wheat.is_valid_season(2));
    assert!(wheat.is_valid_season(3));

    let tomato = get_crop_config(2).unwrap();
    assert!(!tomato.is_valid_season(0));
    assert!(tomato.is_valid_season(1));
}
