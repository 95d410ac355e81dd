//! Craftable item catalog: recipe inputs, output quantities and crafting
//! durations.

use vstd::prelude::*;
use crate::errors::FarmingError;

verus! {

/// An item the player can craft from raw resources.
#[derive(Clone, Copy, Debug, PartialEq, Eq, Structural)]
pub enum CraftableItem {
    WateringCanRefill,
    Fertilizer,
    CompostBin,
    Scarecrow,
    Fence,
    Sprinkler,
    AdvancedTool,
}

impl CraftableItem {
    pub open spec fn spec_from_u8(value: u8) -> Option<CraftableItem> {
        match value {
            0u8 => Some(CraftableItem::WateringCanRefill),
            1u8 => Some(CraftableItem::Fertilizer),
            2u8 => Some(CraftableItem::CompostBin),
            3u8 => Some(CraftableItem::Scarecrow),
            4u8 => Some(CraftableItem::Fence),
            5u8 => Some(CraftableItem::Sprinkler),
            6u8 => Some(CraftableItem::AdvancedTool),
            _ => None,
        }
    }

    /// Decode an item identifier; identifiers outside the catalog fail
    /// with `InvalidCraftableItem`.
    pub fn from_u8(value: u8) -> (r: Result<CraftableItem, FarmingError>)
        ensures
            r matches Ok(item) ==> CraftableItem::spec_from_u8(value) == Some(item),
            r is Err <==> CraftableItem::spec_from_u8(value) is None,
            r matches Err(e) ==> e == FarmingError::InvalidCraftableItem,
    {
        match value {
            0 => Ok(CraftableItem::WateringCanRefill),
            1 => Ok(CraftableItem::Fertilizer),
            2 => Ok(CraftableItem::CompostBin),
            3 => Ok(CraftableItem::Scarecrow),
            4 => Ok(CraftableItem::Fence),
            5 => Ok(CraftableItem::Sprinkler),
            6 => Ok(CraftableItem::AdvancedTool),
            _ => Err(FarmingError::InvalidCraftableItem),
        }
    }

    /// Recipe inputs as (resource identifier, amount) pairs.
    pub open spec fn spec_recipe_inputs(self) -> Seq<(u8, u16)> {
        match self {
            CraftableItem::WateringCanRefill => seq![(0u8, 3u16), (2u8, 2u16)],
            CraftableItem::Fertilizer => seq![(2u8, 5u16), (3u8, 3u16)],
            CraftableItem::CompostBin => seq![(0u8, 10u16), (1u8, 5u16)],
            CraftableItem::Scarecrow => seq![(0u8, 8u16), (2u8, 12u16)],
            CraftableItem::Fence => seq![(0u8, 15u16), (1u8, 8u16)],
            CraftableItem::Sprinkler => seq![(0u8, 20u16), (1u8, 12u16), (2u8, 5u16)],
            CraftableItem::AdvancedTool => seq![(0u8, 5u16), (1u8, 3u16)],
        }
    }

    /// The resources a single crafting of this item consumes, as
    /// (resource identifier, amount) pairs.
    pub fn get_recipe_inputs(&self) -> (r: Vec<(u8, u16)>)
        ensures
            r@ == self.spec_recipe_inputs(),
            forall|i: int| 0 <= i < r@.len() ==> (#[trigger] r@[i]).0 < 4,
    {
        let r = match self {
            CraftableItem::WateringCanRefill => vec![(0u8, 3u16), (2u8, 2u16)],
            CraftableItem::Fertilizer => vec![(2u8, 5u16), (3u8, 3u16)],
            CraftableItem::CompostBin => vec![(0u8, 10u16), (1u8, 5u16)],
            CraftableItem::Scarecrow => vec![(0u8, 8u16), (2u8, 12u16)],
            CraftableItem::Fence => vec![(0u8, 15u16), (1u8, 8u16)],
            CraftableItem::Sprinkler => vec![(0u8, 20u16), (1u8, 12u16), (2u8, 5u16)],
            CraftableItem::AdvancedTool => vec![(0u8, 5u16), (1u8, 3u16)],
        };
        proof {
            assert(r@ =~= self.spec_recipe_inputs());
        }
        r
    }

    pub open spec fn spec_output_quantity(self) -> u16 {
        match self {
            CraftableItem::Fertilizer => 3u16,
            _ => 1u16,
        }
    }

    /// How many units one crafting of this item grants.
    pub fn get_output_quantity(&self) -> (r: u16)
        ensures
            r == self.spec_output_quantity(),
    {
        match self {
            CraftableItem::Fertilizer => 3,
            _ => 1,
        }
    }

    pub open spec fn spec_crafting_time(self) -> i64 {
        match self {
            CraftableItem::WateringCanRefill => 0i64,
            CraftableItem::Fertilizer => 0i64,
            CraftableItem::CompostBin => 3600i64,
            CraftableItem::Scarecrow => 1800i64,
            CraftableItem::Fence => 2700i64,
            CraftableItem::Sprinkler => 7200i64,
            CraftableItem::AdvancedTool => 5400i64,
        }
    }

    /// Crafting duration in seconds; 0 means the item is crafted
    /// instantly, without occupying the job slot.
    pub fn get_crafting_time(&self) -> (r: i64)
        ensures
            r == self.spec_crafting_time(),
            0 <= r <= 7200,
    {
        match self {
            CraftableItem::WateringCanRefill => 0,
            CraftableItem::Fertilizer => 0,
            CraftableItem::CompostBin => 3600,
            CraftableItem::Scarecrow => 1800,
            CraftableItem::Fence => 2700,
            CraftableItem::Sprinkler => 7200,
            CraftableItem::AdvancedTool => 5400,
        }
    }

    pub open spec fn spec_is_instant(self) -> bool {
        self.spec_crafting_time() == 0
    }

    /// Whether this item is crafted instantly.
    pub fn is_instant(&self) -> (r: bool)
        ensures
            r == self.spec_is_instant(),
    {
        self.get_crafting_time() == 0
    }
}

} // verus!
