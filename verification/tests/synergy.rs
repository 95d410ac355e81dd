use farming_game::crop::CropType;
use farming_game::synergy::{get_companion_bonus, PatternType};

#[test]
fn test_pattern_bonuses() {
    let row_bonus = PatternType::MonocultureRow.get_bonus();
    assert_eq!(row_bonus.yield_multiplier as f32 / 100.0, 1.15);

    let diversity_bonus = PatternType::CropDiversity.get_bonus();
    assert_eq!(diversity_bonus.yield_multiplier as f32 / 100.0, 1.25);
    assert_eq!(diversity_bonus.fertility_bonus, 5);
}

#[test]
fn test_companion_planting() {
    let bonus = get_companion_bonus(CropType::Wheat, CropType::Carrot);
    assert!(bonus.is_some());

    let bonus = get_companion_bonus(CropType::Corn, CropType::Lettuce);
    assert!(bonus.is_some());

    let no_bonus = get_companion_bonus(CropType::Wheat, CropType::Corn);
    assert!(no_bonus.is_none());
}

#[test]
fn companion_bonus_values() {
    let wheat_carrot = get_companion_bonus(CropType::Carrot, CropType::Wheat).unwrap();
    assert_eq!(wheat_carrot.yield_multiplier, 110);
    assert_eq!(wheat_carrot.water_bonus, 0);

    let corn_lettuce = get_companion_bonus(CropType::Lettuce, CropType::Corn).unwrap();
    assert_eq!(corn_lettuce.yield_multiplier, 105);
    assert_eq!(corn_lettuce.water_bonus, 5);
}

#[test]
fn pattern_bonus_table() {
    assert_eq!(PatternType::MonocultureBlock.get_bonus().yield_multiplier, 120);
    assert_eq!(PatternType::CompanionPlanting.get_bonus().yield_multiplier, 110);
    assert_eq!(PatternType::CrossPattern.get_bonus().yield_multiplier, 130);
    assert_eq!(PatternType::CrossPattern.get_bonus().resource_bonus.seeds, 1);
    assert_eq!(PatternType::Checkerboard.get_bonus().yield_multiplier, 110);
    assert_eq!(PatternType::Checkerboard.get_bonus().water_bonus, 2);
    assert_eq!(PatternType::PerimeterDefense.get_bonus().yield_multiplier, 140);
    assert_eq!(PatternType::RotationSequence.get_bonus().yield_multiplier, 120);
    assert_eq!(PatternType::RotationSequence.get_bonus().fertility_bonus, 10);
}

#[test]
fn pattern_type_decoding() {
    assert_eq!(PatternType::from_u8(0), Ok(PatternType::MonocultureRow));
    assert_eq!(PatternType::from_u8(7), Ok(PatternType::RotationSequence));
    assert_eq!(
        PatternType::from_u8(8),
        Err(farming_game::errors::FarmingError::InvalidPatternType)
    );
}
