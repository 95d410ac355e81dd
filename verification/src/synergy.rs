//! Synergy table: the bonus each spatial pattern grants, and the
//! companion-planting pairs.
//!
//! Yield multipliers are integer percentages (115 means +15%); a caller
//! applies them by multiplying the running yield and floor-dividing by
//! 100, in pattern enumeration order and then the companion bonus.

use vstd::prelude::*;
use crate::crop::CropType;
use crate::errors::FarmingError;

verus! {

/// A spatial crop-arrangement pattern the detector can report.
#[derive(Clone, Copy, Debug, PartialEq, Eq, Structural)]
pub enum PatternType {
    /// 3+ same crop contiguous through the cell, along its row or column.
    MonocultureRow,
    /// The cell is part of a 2x2 block of one crop.
    MonocultureBlock,
    /// A beneficial crop pair adjacent to the cell (reported separately).
    CompanionPlanting,
    /// All 4 orthogonal neighbors differ from the center and each other.
    CropDiversity,
    /// All 4 orthogonal neighbors match the center crop.
    CrossPattern,
    /// The cell is part of a 3x3 window alternating between two crops.
    Checkerboard,
    /// All 8 surrounding cells hold crops differing from the center.
    PerimeterDefense,
    /// The cell is part of a 4-run of pairwise distinct crops.
    RotationSequence,
}

impl PatternType {
    pub open spec fn spec_from_u8(value: u8) -> Option<PatternType> {
        match value {
            0u8 => Some(PatternType::MonocultureRow),
            1u8 => Some(PatternType::MonocultureBlock),
            2u8 => Some(PatternType::CompanionPlanting),
            3u8 => Some(PatternType::CropDiversity),
            4u8 => Some(PatternType::CrossPattern),
            5u8 => Some(PatternType::Checkerboard),
            6u8 => Some(PatternType::PerimeterDefense),
            7u8 => Some(PatternType::RotationSequence),
            _ => None,
        }
    }

    /// Decode a pattern identifier; identifiers outside the enumeration
    /// fail with `InvalidPatternType`.
    pub fn from_u8(value: u8) -> (r: Result<PatternType, FarmingError>)
        ensures
            r matches Ok(p) ==> PatternType::spec_from_u8(value) == Some(p),
            r is Err <==> PatternType::spec_from_u8(value) is None,
            r matches Err(e) ==> e == FarmingError::InvalidPatternType,
    {
        match value {
            0 => Ok(PatternType::MonocultureRow),
            1 => Ok(PatternType::MonocultureBlock),
            2 => Ok(PatternType::CompanionPlanting),
            3 => Ok(PatternType::CropDiversity),
            4 => Ok(PatternType::CrossPattern),
            5 => Ok(PatternType::Checkerboard),
            6 => Ok(PatternType::PerimeterDefense),
            7 => Ok(PatternType::RotationSequence),
            _ => Err(FarmingError::InvalidPatternType),
        }
    }
}

/// Additional resources granted alongside a pattern bonus.
#[derive(Clone, Copy, Debug, PartialEq, Eq, Structural)]
pub struct ResourceBonus {
    pub seeds: u16,
    pub fiber: u16,
    pub wood: u16,
    pub points: u32,
}

impl Default for ResourceBonus {
    /// The empty resource grant.
    fn default() -> (r: ResourceBonus)
        ensures
            r == (ResourceBonus { seeds: 0u16, fiber: 0u16, wood: 0u16, points: 0u32 }),
    {
        ResourceBonus { seeds: 0, fiber: 0, wood: 0, points: 0 }
    }
}

/// The bonus a detected pattern grants: a yield multiplier in percent
/// plus additive fertility, water and resource grants.
#[derive(Clone, Copy, Debug, PartialEq, Eq, Structural)]
pub struct PatternBonus {
    /// Yield multiplier in percent, e.g. 115 for +15%.
    pub yield_multiplier: u32,
    /// Added to the harvested plot's fertility.
    pub fertility_bonus: u8,
    /// Added to the harvested plot's water level.
    pub water_bonus: u8,
    pub resource_bonus: ResourceBonus,
}

pub open spec fn spec_empty_resource_bonus() -> ResourceBonus {
    ResourceBonus { seeds: 0u16, fiber: 0u16, wood: 0u16, points: 0u32 }
}

impl PatternType {
    pub open spec fn spec_bonus(self) -> PatternBonus {
        match self {
            PatternType::MonocultureRow => PatternBonus {
                yield_multiplier: 115u32,
                fertility_bonus: 0u8,
                water_bonus: 0u8,
                resource_bonus: spec_empty_resource_bonus(),
            },
            PatternType::MonocultureBlock => PatternBonus {
                yield_multiplier: 120u32,
                fertility_bonus: 0u8,
                water_bonus: 0u8,
                resource_bonus: spec_empty_resource_bonus(),
            },
            PatternType::CompanionPlanting => PatternBonus {
                yield_multiplier: 110u32,
                fertility_bonus: 0u8,
                water_bonus: 0u8,
                resource_bonus: spec_empty_resource_bonus(),
            },
            PatternType::CropDiversity => PatternBonus {
                yield_multiplier: 125u32,
                fertility_bonus: 5u8,
                water_bonus: 0u8,
                resource_bonus: spec_empty_resource_bonus(),
            },
            PatternType::CrossPattern => PatternBonus {
                yield_multiplier: 130u32,
                fertility_bonus: 0u8,
                water_bonus: 0u8,
                resource_bonus: ResourceBonus { seeds: 1u16, fiber: 0u16, wood: 0u16, points: 0u32 },
            },
            PatternType::Checkerboard => PatternBonus {
                yield_multiplier: 110u32,
                fertility_bonus: 0u8,
                water_bonus: 2u8,
                resource_bonus: spec_empty_resource_bonus(),
            },
            PatternType::PerimeterDefense => PatternBonus {
                yield_multiplier: 140u32,
                fertility_bonus: 0u8,
                water_bonus: 0u8,
                resource_bonus: spec_empty_resource_bonus(),
            },
            PatternType::RotationSequence => PatternBonus {
                yield_multiplier: 120u32,
                fertility_bonus: 10u8,
                water_bonus: 0u8,
                resource_bonus: spec_empty_resource_bonus(),
            },
        }
    }

    /// The bonus this pattern grants when detected.
    pub fn get_bonus(&self) -> (r: PatternBonus)
        ensures
            r == self.spec_bonus(),
            100 <= r.yield_multiplier <= 140,
    {
        match self {
            PatternType::MonocultureRow => PatternBonus {
                yield_multiplier: 115,
                fertility_bonus: 0,
                water_bonus: 0,
                resource_bonus: ResourceBonus::default(),
            },
            PatternType::MonocultureBlock => PatternBonus {
                yield_multiplier: 120,
                fertility_bonus: 0,
                water_bonus: 0,
                resource_bonus: ResourceBonus::default(),
            },
            PatternType::CompanionPlanting => PatternBonus {
                yield_multiplier: 110,
                fertility_bonus: 0,
                water_bonus: 0,
                resource_bonus: ResourceBonus::default(),
            },
            PatternType::CropDiversity => PatternBonus {
                yield_multiplier: 125,
                fertility_bonus: 5,
                water_bonus: 0,
                resource_bonus: ResourceBonus::default(),
            },
            PatternType::CrossPattern => PatternBonus {
                yield_multiplier: 130,
                fertility_bonus: 0,
                water_bonus: 0,
                resource_bonus: ResourceBonus { seeds: 1, fiber: 0, wood: 0, points: 0 },
            },
            PatternType::Checkerboard => PatternBonus {
                yield_multiplier: 110,
                fertility_bonus: 0,
                water_bonus: 2,
                resource_bonus: ResourceBonus::default(),
            },
            PatternType::PerimeterDefense => PatternBonus {
                yield_multiplier: 140,
                fertility_bonus: 0,
                water_bonus: 0,
                resource_bonus: ResourceBonus::default(),
            },
            PatternType::RotationSequence => PatternBonus {
                yield_multiplier: 120,
                fertility_bonus: 10,
                water_bonus: 0,
                resource_bonus: ResourceBonus::default(),
            },
        }
    }
}

/// The companion bonus for an ordered pair of crops, if the pair is one
/// of the beneficial pairings: wheat/carrot (+10% yield) and corn/lettuce
/// (+5% yield, +5 water), in either order.
pub open spec fn spec_companion_bonus(crop_a: CropType, crop_b: CropType) -> Option<PatternBonus> {
    if (crop_a == CropType::Wheat && crop_b == CropType::Carrot) || (crop_a == CropType::Carrot
        && crop_b == CropType::Wheat) {
        Some(
            PatternBonus {
                yield_multiplier: 110u32,
                fertility_bonus: 0u8,
                water_bonus: 0u8,
                resource_bonus: spec_empty_resource_bonus(),
            },
        )
    } else if (crop_a == CropType::Corn && crop_b == CropType::Lettuce) || (crop_a
        == CropType::Lettuce && crop_b == CropType::Corn) {
        Some(
            PatternBonus {
                yield_multiplier: 105u32,
                fertility_bonus: 0u8,
                water_bonus: 5u8,
                resource_bonus: spec_empty_resource_bonus(),
            },
        )
    } else {
        None
    }
}

/// Whether two crop identifiers form a companion pair.
pub open spec fn spec_is_companion_pair(a: u8, b: u8) -> bool {
    match (crate::crop::spec_crop_type_from_u8(a), crate::crop::spec_crop_type_from_u8(b)) {
        (Some(ca), Some(cb)) => spec_companion_bonus(ca, cb) is Some,
        _ => false,
    }
}

/// Look up the companion-planting bonus for a pair of adjacent crops.
pub fn get_companion_bonus(crop_a: CropType, crop_b: CropType) -> (r: Option<PatternBonus>)
    ensures
        r == spec_companion_bonus(crop_a, crop_b),
{
    match (crop_a, crop_b) {
        (CropType::Wheat, CropType::Carrot) | (CropType::Carrot, CropType::Wheat) => Some(
            PatternBonus {
                yield_multiplier: 110,
                fertility_bonus: 0,
                water_bonus: 0,
                resource_bonus: ResourceBonus::default(),
            },
        ),
        (CropType::Corn, CropType::Lettuce) | (CropType::Lettuce, CropType::Corn) => Some(
            PatternBonus {
                yield_multiplier: 105,
                fertility_bonus: 0,
                water_bonus: 5,
                resource_bonus: ResourceBonus::default(),
            },
        ),
        _ => None,
    }
}

} // verus!
