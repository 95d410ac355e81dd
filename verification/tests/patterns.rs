use farming_game::pattern_detector::PatternDetector;
use farming_game::player::FarmTile;
use farming_game::synergy::PatternType;

const NOW: i64 = 1_000;

fn empty_tile() -> FarmTile {
    FarmTile {
        crop_type: 0,
        planted_at: 0,
        fertility: 80,
        last_crop_type: 0,
        restorative_bonus_used: false,
        planted_in_season: None,
    }
}

fn mature(crop: u8) -> FarmTile {
    FarmTile {
        crop_type: crop,
        planted_at: 0,
        fertility: 80,
        last_crop_type: 0,
        restorative_bonus_used: false,
        planted_in_season: Some(0),
    }
}

fn grid_of(rows: [[u8; 5]; 5]) -> [FarmTile; 25] {
    let mut plots = [empty_tile(); 25];
    for r in 0..5 {
        for c in 0..5 {
            if rows[r][c] != 0 {
                plots[r * 5 + c] = mature(rows[r][c]);
            }
        }
    }
    plots
}

// Pattern symmetry: a grid fully planted with one crop matches the
// monoculture row, monoculture block and cross patterns at every
// interior cell, and never crop diversity or rotation sequence.
#[test]
fn uniform_grid_interior_patterns() {
    let plots = grid_of([[1; 5]; 5]);
    for row in 1..4 {
        for col in 1..4 {
            let detected = PatternDetector::detect_patterns(&plots, row, col, NOW);
            assert!(detected.contains(&PatternType::MonocultureRow));
            assert!(detected.contains(&PatternType::MonocultureBlock));
            assert!(detected.contains(&PatternType::CrossPattern));
            assert!(!detected.contains(&PatternType::CropDiversity));
            assert!(!detected.contains(&PatternType::RotationSequence));
        }
    }
}

#[test]
fn monoculture_row_needs_three_in_line() {
    let plots = grid_of([
        [1, 1, 1, 0, 0],
        [0; 5],
        [0; 5],
        [0; 5],
        [0; 5],
    ]);
    assert!(PatternDetector::check_monoculture_row(&plots, 0, 0, NOW));
    assert!(PatternDetector::check_monoculture_row(&plots, 0, 1, NOW));
    assert!(PatternDetector::check_monoculture_row(&plots, 0, 2, NOW));

    let two = grid_of([
        [1, 1, 0, 0, 0],
        [0; 5],
        [0; 5],
        [0; 5],
        [0; 5],
    ]);
    assert!(!PatternDetector::check_monoculture_row(&two, 0, 0, NOW));
}

#[test]
fn immature_cells_break_patterns() {
    let mut plots = grid_of([
        [1, 1, 1, 0, 0],
        [0; 5],
        [0; 5],
        [0; 5],
        [0; 5],
    ]);
    // Wheat matures 30 seconds after planting; this one is too young.
    plots[1].planted_at = NOW - 10;
    assert!(!PatternDetector::check_monoculture_row(&plots, 0, 0, NOW));
    assert_eq!(PatternDetector::get_crop_at(&plots, 0, 1, NOW), None);
    assert_eq!(PatternDetector::get_crop_at(&plots, 0, 0, NOW), Some(1));
}

// Checkerboard example: the 3x3 region [A,B,A / B,A,B / A,B,A] around
// (2,2) matches for every cell inside it, and a corner swapped to a
// third crop breaks it.
#[test]
fn checkerboard_three_by_three() {
    let plots = grid_of([
        [0, 0, 0, 0, 0],
        [0, 1, 2, 1, 0],
        [0, 2, 1, 2, 0],
        [0, 1, 2, 1, 0],
        [0, 0, 0, 0, 0],
    ]);
    for row in 1..4 {
        for col in 1..4 {
            assert!(
                PatternDetector::check_checkerboard(&plots, row, col, NOW),
                "expected checkerboard at ({row},{col})"
            );
        }
    }

    let mut broken = plots;
    broken[1 * 5 + 1] = mature(3);
    for row in 1..4 {
        for col in 1..4 {
            assert!(
                !PatternDetector::check_checkerboard(&broken, row, col, NOW),
                "unexpected checkerboard at ({row},{col})"
            );
        }
    }
}

#[test]
fn checkerboard_needs_two_distinct_crops() {
    let plots = grid_of([[4; 5]; 5]);
    assert!(!PatternDetector::check_checkerboard(&plots, 2, 2, NOW));
}

#[test]
fn crop_diversity_needs_four_distinct_neighbors() {
    let plots = grid_of([
        [0, 1, 0, 0, 0],
        [2, 5, 3, 0, 0],
        [0, 4, 0, 0, 0],
        [0; 5],
        [0; 5],
    ]);
    assert!(PatternDetector::check_crop_diversity(&plots, 1, 1, NOW));

    // A repeated neighbor crop breaks diversity.
    let repeated = grid_of([
        [0, 1, 0, 0, 0],
        [2, 5, 2, 0, 0],
        [0, 4, 0, 0, 0],
        [0; 5],
        [0; 5],
    ]);
    assert!(!PatternDetector::check_crop_diversity(&repeated, 1, 1, NOW));

    // At the grid edge a neighbor is missing.
    let edge = grid_of([
        [1, 5, 2, 0, 0],
        [0, 3, 0, 0, 0],
        [0; 5],
        [0; 5],
        [0; 5],
    ]);
    assert!(!PatternDetector::check_crop_diversity(&edge, 0, 1, NOW));
}

#[test]
fn cross_pattern_matches_plus_shape() {
    let plots = grid_of([
        [0, 2, 0, 0, 0],
        [2, 2, 2, 0, 0],
        [0, 2, 0, 0, 0],
        [0; 5],
        [0; 5],
    ]);
    assert!(PatternDetector::check_cross_pattern(&plots, 1, 1, NOW));
    assert!(!PatternDetector::check_cross_pattern(&plots, 0, 1, NOW));
}

#[test]
fn perimeter_defense_needs_eight_different_neighbors() {
    let plots = grid_of([
        [2, 3, 2, 0, 0],
        [3, 1, 3, 0, 0],
        [2, 3, 2, 0, 0],
        [0; 5],
        [0; 5],
    ]);
    assert!(PatternDetector::check_perimeter_defense(&plots, 1, 1, NOW));

    // One neighbor matching the center crop breaks the defense.
    let mut broken = plots;
    broken[0] = mature(1);
    assert!(!PatternDetector::check_perimeter_defense(&broken, 1, 1, NOW));

    // A border cell can never have all eight neighbors.
    assert!(!PatternDetector::check_perimeter_defense(&plots, 0, 1, NOW));
}

#[test]
fn rotation_sequence_four_distinct_in_line() {
    let plots = grid_of([
        [1, 2, 3, 4, 0],
        [0; 5],
        [0; 5],
        [0; 5],
        [0; 5],
    ]);
    for col in 0..4 {
        assert!(PatternDetector::check_rotation_sequence(&plots, 0, col, NOW));
    }
    assert!(!PatternDetector::check_rotation_sequence(&plots, 0, 4, NOW));

    let repeated = grid_of([
        [1, 2, 3, 1, 0],
        [0; 5],
        [0; 5],
        [0; 5],
        [0; 5],
    ]);
    assert!(!PatternDetector::check_rotation_sequence(&repeated, 0, 0, NOW));
}

#[test]
fn companion_scan_order_and_pairs() {
    // Wheat center; carrot below pairs with it.
    let plots = grid_of([
        [0, 1, 0, 0, 0],
        [0, 4, 0, 0, 0],
        [0; 5],
        [0; 5],
        [0; 5],
    ]);
    assert_eq!(PatternDetector::check_companion_planting(&plots, 0, 1, NOW), Some(4));
    // The carrot also reports its wheat neighbor (up comes first in scan
    // order).
    assert_eq!(PatternDetector::check_companion_planting(&plots, 1, 1, NOW), Some(1));

    // Wheat next to corn is no companion pair.
    let none = grid_of([
        [0, 1, 0, 0, 0],
        [0, 3, 0, 0, 0],
        [0; 5],
        [0; 5],
        [0; 5],
    ]);
    assert_eq!(PatternDetector::check_companion_planting(&none, 0, 1, NOW), None);
}

#[test]
fn detect_patterns_enumeration_order() {
    let plots = grid_of([[5; 5]; 5]);
    let detected = PatternDetector::detect_patterns(&plots, 2, 2, NOW);
    assert_eq!(
        detected,
        vec![
            PatternType::MonocultureRow,
            PatternType::MonocultureBlock,
            PatternType::CrossPattern,
        ]
    );
}

#[test]
fn empty_center_matches_nothing() {
    let plots = [empty_tile(); 25];
    let detected = PatternDetector::detect_patterns(&plots, 2, 2, NOW);
    assert!(detected.is_empty());
    assert_eq!(PatternDetector::check_companion_planting(&plots, 2, 2, NOW), None);
}
