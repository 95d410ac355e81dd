//! Tool catalog: purchasable tools and the soil-moisture yield modifier.

use vstd::prelude::*;

verus! {

/// A purchasable tool kind.
#[derive(Clone, Copy, Debug, PartialEq, Eq, Structural)]
pub enum ToolType {
    WateringCan,
    Fertilizer,
    PremiumSeeds,
}

impl ToolType {
    pub open spec fn spec_from_u8(value: u8) -> Option<ToolType> {
        match value {
            0 => Some(ToolType::WateringCan),
            1 => Some(ToolType::Fertilizer),
            2 => Some(ToolType::PremiumSeeds),
            _ => None,
        }
    }

    /// Decode a tool identifier; identifiers outside the catalog yield `None`.
    pub fn from_u8(value: u8) -> (r: Option<ToolType>)
        ensures
            r == ToolType::spec_from_u8(value),
    {
        match value {
            0 => Some(ToolType::WateringCan),
            1 => Some(ToolType::Fertilizer),
            2 => Some(ToolType::PremiumSeeds),
            _ => None,
        }
    }
}

/// Static configuration of a tool: what it applies to a plot and its price.
#[derive(Clone, Copy, Debug, PartialEq, Eq, Structural)]
pub struct ToolConfig {
    /// Moisture added to a single plot (watering can only).
    pub water_amount: u8,
    /// Fertility added to a single plot (fertilizer only).
    pub fertility_boost: u8,
    /// Purchase cost in coins.
    pub cost_points: u32,
}

impl ToolConfig {
    pub open spec fn spec_get_config(tool_type: ToolType) -> ToolConfig {
        match tool_type {
            ToolType::WateringCan => ToolConfig {
                water_amount: 50,
                fertility_boost: 0,
                cost_points: 20,
            },
            ToolType::Fertilizer => ToolConfig {
                water_amount: 0,
                fertility_boost: 20,
                cost_points: 10,
            },
            ToolType::PremiumSeeds => ToolConfig {
                water_amount: 0,
                fertility_boost: 0,
                cost_points: 15,
            },
        }
    }

    /// Look up the static configuration of a tool.
    pub fn get_config(tool_type: ToolType) -> (r: ToolConfig)
        ensures
            r == ToolConfig::spec_get_config(tool_type),
    {
        match tool_type {
            ToolType::WateringCan => ToolConfig {
                water_amount: 50,
                fertility_boost: 0,
                cost_points: 20,
            },
            ToolType::Fertilizer => ToolConfig {
                water_amount: 0,
                fertility_boost: 20,
                cost_points: 10,
            },
            ToolType::PremiumSeeds => ToolConfig {
                water_amount: 0,
                fertility_boost: 0,
                cost_points: 15,
            },
        }
    }
}

/// The soil-moisture yield modifier as an integer percentage: a step
/// function of the plot's current water level.
pub open spec fn spec_water_modifier(water_level: u8) -> u32 {
    if water_level >= 60 {
        100
    } else if water_level >= 40 {
        85
    } else if water_level >= 20 {
        70
    } else {
        50
    }
}

/// Yield modifier for a soil moisture level, in percent:
/// 60-100 -> 100, 40-59 -> 85, 20-39 -> 70, 0-19 -> 50.
pub fn get_water_modifier(water_level: u8) -> (r: u32)
    ensures
        r == spec_water_modifier(water_level),
        50 <= r <= 100,
{
    if water_level >= 60 {
        100
    } else if water_level >= 40 {
        85
    } else if water_level >= 20 {
        70
    } else {
        50
    }
}

} // verus!
