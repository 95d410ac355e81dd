//! Error taxonomy of the engine: every operation fails with one of these
//! kinds, checked before any state is mutated.

use vstd::prelude::*;

verus! {

/// Terminal, caller-visible failure kinds. Validation errors are checked
/// first, then preconditions, then capacities; an operation that fails
/// leaves the ledger unchanged.
#[derive(Clone, Copy, Debug, PartialEq, Eq, Structural)]
pub enum FarmingError {
    InvalidTileIndex,
    InvalidCropType,
    TileNotEmpty,
    NoActiveCrop,
    CropNotMature,
    InvalidCropConfig,
    InvalidSeasonForCrop,
    InvalidSeasonIndex,
    DayAlreadyAdvanced,
    InsufficientToolUses,
    InsufficientFertilizer,
    InsufficientPoints,
    WateringTooFrequent,
    InvalidPlotIndex,
    InsufficientResources,
    InvalidResourceType,
    InvalidCraftableItem,
    GatherCooldownActive,
    ResourceStackOverflow,
    CraftingInProgress,
    NoCraftingInProgress,
    CraftingNotComplete,
    GatherAmountExceeded,
    InvalidPatternType,
    PlotOutOfBounds,
}

} // verus!
