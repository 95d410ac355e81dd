//! Gameplay operations on a player's ledger.
//!
//! Every operation validates all of its preconditions before mutating
//! anything: on any failure the ledger is returned unchanged together
//! with the specific error kind. Saturating arithmetic is silent only on
//! counters that have already been validated; a gather that would breach
//! a stack cap is a hard failure.

use vstd::prelude::*;
use vstd::arithmetic::mul::lemma_mul_inequality;
use vstd::math::{max, min};
use crate::errors::FarmingError;
use crate::pattern_detector::{
    spec_checkerboard, spec_companion, spec_crop_at, spec_crop_diversity, spec_cross_pattern,
    spec_detected_patterns, spec_monoculture_block, spec_monoculture_row, spec_perimeter_defense,
    spec_rotation_sequence, PatternDetector,
};
use crate::player::{CraftingJob, FarmTile, LedgerModel, PlayerAccount};
use crate::crop::spec_crop_type_from_u8;
use crate::recipes::CraftableItem;
use crate::resources::ResourceType;
use crate::season::SeasonState;
use crate::synergy::{spec_companion_bonus, PatternBonus, PatternType};
use crate::tools::{ToolConfig, ToolType};

verus! {

/// Seconds a plot must rest between two waterings.
pub const WATERING_COOLDOWN_SECONDS: i64 = 3600;

/// Moisture one watering adds to a plot.
pub const WATER_PER_USE: u8 = 50;

/// Uses a full watering can holds.
pub const WATERING_CAN_MAX_USES: u8 = 10;

/// Fertility one fertilizer adds to a plot.
pub const FERTILITY_PER_FERTILIZER: u8 = 20;

/// Hard fertility floor once a plot is initialized.
pub const MIN_FERTILITY: u8 = 20;

/// Fertility cap.
pub const MAX_FERTILITY: u8 = 100;

/// Fertility a previously uninitialized plot starts with at planting.
pub const DEFAULT_MIGRATED_FERTILITY: u8 = 60;

/// Fertility bonus for planting a different crop than last harvested.
pub const ROTATION_BONUS: u8 = 10;

/// Seconds of rest that restore one point of fertility on a fallow plot.
pub const FALLOW_RESTORE_RATE: i64 = 3600;

impl PlayerAccount {
    /// Water one plot: adds a fixed amount of moisture (capped at 100),
    /// stamps the plot's watering time and spends one watering-can use.
    /// Fails when the plot index is out of range, no uses remain, or the
    /// plot was watered within the last hour.
    pub fn water_tile(&mut self, plot_index: u8, now: i64) -> (r: Result<(), FarmingError>)
        requires
            old(self).wf(),
            now >= 0,
        ensures
            final(self).wf(),
            r is Err ==> *final(self) == *old(self),
            r is Err <==> (plot_index >= 25 || old(self).watering_can_uses == 0 || (old(
                self,
            ).last_watered@[plot_index as int] > 0 && now - old(self).last_watered@[plot_index as int]
                < WATERING_COOLDOWN_SECONDS)),
            r matches Err(e) ==> e == if plot_index >= 25 {
                FarmingError::InvalidPlotIndex
            } else if old(self).watering_can_uses == 0 {
                FarmingError::InsufficientToolUses
            } else {
                FarmingError::WateringTooFrequent
            },
            r is Ok ==> final(self)@ == (LedgerModel {
                water_levels: old(self)@.water_levels.update(
                    plot_index as int,
                    min(old(self).water_levels@[plot_index as int] + WATER_PER_USE, 100) as u8,
                ),
                last_watered: old(self)@.last_watered.update(plot_index as int, now),
                watering_can_uses: (old(self).watering_can_uses - 1) as u8,
                ..old(self)@
            }),
    {
        if plot_index >= 25 {
            return Err(FarmingError::InvalidPlotIndex);
        }
        if self.watering_can_uses == 0 {
            return Err(FarmingError::InsufficientToolUses);
        }
        let idx = plot_index as usize;
        let last_watered_time = self.last_watered[idx];
        if last_watered_time > 0 && now - last_watered_time < WATERING_COOLDOWN_SECONDS {
            return Err(FarmingError::WateringTooFrequent);
        }
        let current_water = self.water_levels[idx];
        let new_water_level: u8 = if current_water + WATER_PER_USE > 100 {
            100
        } else {
            current_water + WATER_PER_USE
        };
        self.water_levels[idx] = new_water_level;
        self.last_watered[idx] = now;
        self.watering_can_uses = self.watering_can_uses - 1;
        Ok(())
    }

    /// Apply one fertilizer to a plot: adds a fixed amount of fertility
    /// (capped at 100) and spends one fertilizer. Fails when the plot
    /// index is out of range or no fertilizer is in the inventory.
    pub fn use_fertilizer(&mut self, plot_index: u8) -> (r: Result<(), FarmingError>)
        requires
            old(self).wf(),
        ensures
            final(self).wf(),
            r is Err ==> *final(self) == *old(self),
            r is Err <==> (plot_index >= 25 || old(self).fertilizer_count == 0),
            r matches Err(e) ==> e == if plot_index >= 25 {
                FarmingError::InvalidPlotIndex
            } else {
                FarmingError::InsufficientFertilizer
            },
            r is Ok ==> final(self)@ == (LedgerModel {
                farm_tiles: old(self)@.farm_tiles.update(
                    plot_index as int,
                    FarmTile {
                        fertility: min(
                            old(self).farm_tiles@[plot_index as int].fertility
                                + FERTILITY_PER_FERTILIZER,
                            100,
                        ) as u8,
                        ..old(self)@.farm_tiles[plot_index as int]
                    },
                ),
                fertilizer_count: (old(self).fertilizer_count - 1) as u16,
                ..old(self)@
            }),
    {
        if plot_index >= 25 {
            return Err(FarmingError::InvalidPlotIndex);
        }
        if self.fertilizer_count == 0 {
            return Err(FarmingError::InsufficientFertilizer);
        }
        let idx = plot_index as usize;
        let current_fertility = self.farm_tiles[idx].fertility;
        let new_fertility: u8 = if current_fertility + FERTILITY_PER_FERTILIZER > 100 {
            100
        } else {
            current_fertility + FERTILITY_PER_FERTILIZER
        };
        self.farm_tiles[idx].fertility = new_fertility;
        self.fertilizer_count = self.fertilizer_count - 1;
        Ok(())
    }

    /// Refill the watering can to its maximum for a fixed coin price.
    /// Fails with `InsufficientPoints` when the player cannot pay.
    pub fn refill_watering_can(&mut self) -> (r: Result<(), FarmingError>)
        requires
            old(self).wf(),
        ensures
            final(self).wf(),
            r is Err ==> *final(self) == *old(self),
            r is Err <==> old(self).coins < ToolConfig::spec_get_config(
                ToolType::WateringCan,
            ).cost_points,
            r matches Err(e) ==> e == FarmingError::InsufficientPoints,
            r is Ok ==> final(self)@ == (LedgerModel {
                coins: (old(self).coins - ToolConfig::spec_get_config(
                    ToolType::WateringCan,
                ).cost_points) as u64,
                watering_can_uses: WATERING_CAN_MAX_USES,
                ..old(self)@
            }),
    {
        let config = ToolConfig::get_config(ToolType::WateringCan);
        let refill_cost = config.cost_points as u64;
        if self.coins < refill_cost {
            return Err(FarmingError::InsufficientPoints);
        }
        self.coins = self.coins - refill_cost;
        self.watering_can_uses = WATERING_CAN_MAX_USES;
        Ok(())
    }

    /// Buy tools: deducts `cost * quantity` coins and applies the tool's
    /// effect — a watering-can purchase resets its uses to the maximum
    /// (not additive), fertilizer and premium-seed purchases add to
    /// their stacked counters (saturating). Fails when the tool
    /// identifier is unknown or the player cannot pay.
    pub fn buy_tool(&mut self, tool_type: u8, quantity: u16) -> (r: Result<(), FarmingError>)
        requires
            old(self).wf(),
        ensures
            final(self).wf(),
            r is Err ==> *final(self) == *old(self),
            r is Err <==> (ToolType::spec_from_u8(tool_type) is None || old(self).coins
                < spec_tool_cost(tool_type, quantity)),
            r matches Err(e) ==> e == if ToolType::spec_from_u8(tool_type) is None {
                FarmingError::InvalidCropType
            } else {
                FarmingError::InsufficientPoints
            },
            r is Ok ==> {
                let remaining = (old(self).coins - spec_tool_cost(tool_type, quantity)) as u64;
                match ToolType::spec_from_u8(tool_type) {
                    Some(ToolType::WateringCan) => final(self)@ == (LedgerModel {
                        coins: remaining,
                        watering_can_uses: WATERING_CAN_MAX_USES,
                        ..old(self)@
                    }),
                    Some(ToolType::Fertilizer) => final(self)@ == (LedgerModel {
                        coins: remaining,
                        fertilizer_count: min(
                            old(self).fertilizer_count + quantity,
                            u16::MAX as int,
                        ) as u16,
                        ..old(self)@
                    }),
                    Some(ToolType::PremiumSeeds) => final(self)@ == (LedgerModel {
                        coins: remaining,
                        premium_seeds: min(
                            old(self).premium_seeds + quantity,
                            u16::MAX as int,
                        ) as u16,
                        ..old(self)@
                    }),
                    None => false,
                }
            },
    {
        let tool = match ToolType::from_u8(tool_type) {
            Some(t) => t,
            None => {
                return Err(FarmingError::InvalidCropType);
            },
        };
        let config = ToolConfig::get_config(tool);
        proof {
            assert((config.cost_points as int) * (quantity as int) <= 20 * 0xFFFF)
                by (nonlinear_arith)
                requires
                    config.cost_points <= 20u32,
                    quantity <= 0xFFFFu16,
            ;
        }
        let total_cost = (config.cost_points as u64) * (quantity as u64);
        if self.coins < total_cost {
            return Err(FarmingError::InsufficientPoints);
        }
        self.coins = self.coins - total_cost;
        match tool {
            ToolType::WateringCan => {
                self.watering_can_uses = WATERING_CAN_MAX_USES;
            },
            ToolType::Fertilizer => {
                self.fertilizer_count = self.fertilizer_count.saturating_add(quantity);
            },
            ToolType::PremiumSeeds => {
                self.premium_seeds = self.premium_seeds.saturating_add(quantity);
            },
        }
        Ok(())
    }

    /// Clear a tile for replanting: removes any crop and resets the
    /// planting metadata; fertility and the rotation record stay.
    pub fn clear_tile(&mut self, tile_index: u8) -> (r: Result<(), FarmingError>)
        requires
            old(self).wf(),
        ensures
            final(self).wf(),
            r is Err ==> *final(self) == *old(self),
            r is Err <==> tile_index >= 25,
            r matches Err(e) ==> e == FarmingError::InvalidTileIndex,
            r is Ok ==> final(self)@ == (LedgerModel {
                farm_tiles: old(self)@.farm_tiles.update(
                    tile_index as int,
                    FarmTile {
                        crop_type: 0u8,
                        planted_at: 0i64,
                        restorative_bonus_used: false,
                        planted_in_season: None,
                        ..old(self)@.farm_tiles[tile_index as int]
                    },
                ),
                ..old(self)@
            }),
    {
        if tile_index >= 25 {
            return Err(FarmingError::InvalidTileIndex);
        }
        let idx = tile_index as usize;
        self.farm_tiles[idx].crop_type = 0;
        self.farm_tiles[idx].planted_at = 0;
        self.farm_tiles[idx].restorative_bonus_used = false;
        self.farm_tiles[idx].planted_in_season = None;
        Ok(())
    }

    /// Let an empty plot rest: one point of fertility per full hour since
    /// the plot's fallow reference time, clamped to the fertility range,
    /// and the reference time restarts. Under one full hour the call is a
    /// silent no-op. Fails when the index is out of range or the tile
    /// still holds a crop.
    pub fn leave_fallow(&mut self, tile_index: u8, now: i64) -> (r: Result<(), FarmingError>)
        requires
            old(self).wf(),
            now >= 0,
        ensures
            final(self).wf(),
            r is Err ==> *final(self) == *old(self),
            r is Err <==> (tile_index >= 25 || old(self).farm_tiles@[tile_index as int].crop_type
                != 0),
            r matches Err(e) ==> e == if tile_index >= 25 {
                FarmingError::InvalidTileIndex
            } else {
                FarmingError::TileNotEmpty
            },
            r is Ok ==> {
                let tile = old(self)@.farm_tiles[tile_index as int];
                let gain = max(now - tile.planted_at, 0) / (FALLOW_RESTORE_RATE as int);
                if gain > 0 {
                    final(self)@ == (LedgerModel {
                        farm_tiles: old(self)@.farm_tiles.update(
                            tile_index as int,
                            FarmTile {
                                fertility: max(
                                    min(tile.fertility + gain, MAX_FERTILITY as int),
                                    MIN_FERTILITY as int,
                                ) as u8,
                                planted_at: now,
                                ..tile
                            },
                        ),
                        ..old(self)@
                    })
                } else {
                    *final(self) == *old(self)
                }
            },
    {
        if tile_index >= 25 {
            return Err(FarmingError::InvalidTileIndex);
        }
        let idx = tile_index as usize;
        if self.farm_tiles[idx].crop_type != 0 {
            return Err(FarmingError::TileNotEmpty);
        }
        let reference = self.farm_tiles[idx].planted_at;
        let time_empty: i64 = if now >= reference {
            now - reference
        } else {
            0
        };
        let fertility_gain_wide: i64 = time_empty / FALLOW_RESTORE_RATE;
        if fertility_gain_wide > 0 {
            let gain_clamped: u8 = if fertility_gain_wide >= 100 {
                100
            } else {
                fertility_gain_wide as u8
            };
            let raised = if self.farm_tiles[idx].fertility as u16 + gain_clamped as u16 > 100 {
                100u8
            } else {
                self.farm_tiles[idx].fertility + gain_clamped
            };
            let new_fertility: u8 = if raised < MIN_FERTILITY {
                MIN_FERTILITY
            } else {
                raised
            };
            proof {
                let tile = old(self)@.farm_tiles[tile_index as int];
                let gain = max(now - tile.planted_at, 0) / (FALLOW_RESTORE_RATE as int);
                assert(gain == fertility_gain_wide as int);
                assert(new_fertility as int == max(
                    min(tile.fertility + gain, MAX_FERTILITY as int),
                    MIN_FERTILITY as int,
                ));
            }
            self.farm_tiles[idx].fertility = new_fertility;
            self.farm_tiles[idx].planted_at = now;
        }
        Ok(())
    }
}

/// Total coin cost of buying `quantity` tools of the given kind.
pub open spec fn spec_tool_cost(tool_type: u8, quantity: u16) -> int {
    match ToolType::spec_from_u8(tool_type) {
        Some(t) => ToolConfig::spec_get_config(t).cost_points * quantity,
        None => 0,
    }
}

/// The error a gather attempt reports, or `None` when it succeeds.
pub open spec fn spec_gather_error(
    ledger: PlayerAccount,
    resource_type: u8,
    amount: u16,
    now: int,
) -> Option<FarmingError> {
    match ResourceType::spec_from_u8(resource_type) {
        None => Some(FarmingError::InvalidResourceType),
        Some(resource) => if amount == 0 || amount > resource.spec_max_gather_per_action() {
            Some(FarmingError::GatherAmountExceeded)
        } else {
            let cooldown = resource.spec_gather_cooldown_seconds();
            let last = ledger.last_gather_time@[resource_type as int];
            if cooldown > 0 && (last matches Some(t) && now - t < cooldown) {
                Some(FarmingError::GatherCooldownActive)
            } else if ledger.spec_resource_count(resource_type) + amount
                > resource.spec_max_stack_size() {
                Some(FarmingError::ResourceStackOverflow)
            } else {
                None
            }
        },
    }
}

impl PlayerAccount {
    /// Gather a raw resource: validates the amount against the
    /// per-action limit, enforces the per-resource cooldown (a zero
    /// stamp disables the check on first use), adds the amount to the
    /// counter — failing hard if the stack cap would be exceeded — and
    /// stamps the cooldown. Seeds cannot be gathered manually.
    pub fn gather_resource(&mut self, resource_type: u8, amount: u16, now: i64) -> (r: Result<
        (),
        FarmingError,
    >)
        requires
            old(self).wf(),
            now >= 0,
        ensures
            final(self).wf(),
            r is Err ==> *final(self) == *old(self),
            r is Err <==> spec_gather_error(*old(self), resource_type, amount, now as int) is Some,
            r matches Err(e) ==> Some(e) == spec_gather_error(
                *old(self),
                resource_type,
                amount,
                now as int,
            ),
            r is Ok ==> {
                let new_count = (old(self).spec_resource_count(resource_type) + amount) as u16;
                let stamped = old(self)@.last_gather_time.update(resource_type as int, Some(now));
                match resource_type {
                    0u8 => final(self)@ == (LedgerModel {
                        wood: new_count,
                        last_gather_time: stamped,
                        ..old(self)@
                    }),
                    1u8 => final(self)@ == (LedgerModel {
                        stone: new_count,
                        last_gather_time: stamped,
                        ..old(self)@
                    }),
                    2u8 => final(self)@ == (LedgerModel {
                        fiber: new_count,
                        last_gather_time: stamped,
                        ..old(self)@
                    }),
                    _ => false,
                }
            },
    {
        let resource = ResourceType::from_u8(resource_type)?;
        if amount == 0 || amount > resource.max_gather_per_action() {
            return Err(FarmingError::GatherAmountExceeded);
        }
        let cooldown_seconds = resource.gather_cooldown_seconds();
        if cooldown_seconds > 0 {
            if let Some(last_gather) = self.last_gather_time[resource_type as usize] {
                if now - last_gather < cooldown_seconds {
                    return Err(FarmingError::GatherCooldownActive);
                }
            }
        }
        let max_stack = resource.max_stack_size();
        match resource {
            ResourceType::Wood => {
                let new = self.wood + amount;
                if new > max_stack {
                    return Err(FarmingError::ResourceStackOverflow);
                }
                self.wood = new;
            },
            ResourceType::Stone => {
                let new = self.stone + amount;
                if new > max_stack {
                    return Err(FarmingError::ResourceStackOverflow);
                }
                self.stone = new;
            },
            ResourceType::Fiber => {
                let new = self.fiber + amount;
                if new > max_stack {
                    return Err(FarmingError::ResourceStackOverflow);
                }
                self.fiber = new;
            },
            ResourceType::Seeds => {
                // Unreachable: the per-action limit for seeds is 0, so
                // the amount check above has already failed.
                proof {
                    assert(false);
                }
                return Err(FarmingError::GatherAmountExceeded);
            },
        }
        self.last_gather_time[resource_type as usize] = Some(now);
        Ok(())
    }

    /// Collect passive fertilizer from compost bins: one per bin per
    /// whole day since the last collection, added saturating, advancing
    /// the collection stamp only when at least one day has elapsed (a
    /// zero-day call is a silent no-op). Fails when no bins are owned.
    pub fn collect_compost(&mut self, now: i64) -> (r: Result<(), FarmingError>)
        requires
            old(self).wf(),
            now >= 0,
        ensures
            final(self).wf(),
            r is Err ==> *final(self) == *old(self),
            r is Err <==> old(self).compost_bin_count == 0,
            r matches Err(e) ==> e == FarmingError::NoCraftingInProgress,
            r is Ok ==> {
                let days = max(now - old(self).last_compost_collection, 0) / 86400;
                let generated = old(self).compost_bin_count * days;
                if generated > 0 {
                    final(self)@ == (LedgerModel {
                        fertilizer_count: min(
                            old(self).fertilizer_count + generated,
                            u16::MAX as int,
                        ) as u16,
                        last_compost_collection: now,
                        ..old(self)@
                    })
                } else {
                    *final(self) == *old(self)
                }
            },
    {
        if self.compost_bin_count == 0 {
            return Err(FarmingError::NoCraftingInProgress);
        }
        let elapsed: i64 = if now >= self.last_compost_collection {
            now - self.last_compost_collection
        } else {
            0
        };
        let days_elapsed: i64 = elapsed / 86400;
        let ghost generated = (self.compost_bin_count as int) * (days_elapsed as int);
        if days_elapsed > 0 {
            // `addition` is the generated amount clamped to the counter's
            // range; adding it saturating equals capping the full product.
            let addition: u16 = if days_elapsed >= 0x10000 {
                proof {
                    lemma_mul_inequality(1, self.compost_bin_count as int, days_elapsed as int);
                }
                0xFFFF
            } else {
                proof {
                    assert((self.compost_bin_count as int) * (days_elapsed as int) < 0x1000000)
                        by (nonlinear_arith)
                        requires
                            self.compost_bin_count <= 0xFFu8,
                            0 <= days_elapsed < 0x10000i64,
                    ;
                }
                let product: u64 = (self.compost_bin_count as u64) * (days_elapsed as u64);
                if product > 0xFFFF {
                    0xFFFF
                } else {
                    product as u16
                }
            };
            proof {
                lemma_mul_inequality(1, self.compost_bin_count as int, days_elapsed as int);
                assert(addition as int == min(generated, 0xFFFF));
            }
            self.fertilizer_count = self.fertilizer_count.saturating_add(addition);
            self.last_compost_collection = now;
        } else {
            proof {
                assert(generated == 0) by (nonlinear_arith)
                    requires
                        generated == (self.compost_bin_count as int) * (days_elapsed as int),
                        days_elapsed == 0,
                ;
            }
        }
        Ok(())
    }
}

/// A ledger model after granting `quantity` units of a crafted item: a
/// watering-can refill resets the can's uses (not additive), all other
/// items add to their counters, saturating.
pub open spec fn spec_grant_item(m: LedgerModel, item: CraftableItem, quantity: u16) -> LedgerModel {
    match item {
        CraftableItem::WateringCanRefill => LedgerModel {
            watering_can_uses: WATERING_CAN_MAX_USES,
            ..m
        },
        CraftableItem::Fertilizer => LedgerModel {
            fertilizer_count: min(m.fertilizer_count + quantity, u16::MAX as int) as u16,
            ..m
        },
        CraftableItem::CompostBin => LedgerModel {
            compost_bin_count: min(m.compost_bin_count + quantity, u8::MAX as int) as u8,
            ..m
        },
        CraftableItem::Scarecrow => LedgerModel {
            scarecrow_count: min(m.scarecrow_count + quantity, u8::MAX as int) as u8,
            ..m
        },
        CraftableItem::Fence => LedgerModel {
            fence_count: min(m.fence_count + quantity, u8::MAX as int) as u8,
            ..m
        },
        CraftableItem::Sprinkler => LedgerModel {
            sprinkler_count: min(m.sprinkler_count + quantity, u8::MAX as int) as u8,
            ..m
        },
        CraftableItem::AdvancedTool => LedgerModel {
            advanced_tools: min(m.advanced_tools + quantity, u8::MAX as int) as u8,
            ..m
        },
    }
}

/// The resource counters of `m` after deducting a recipe's inputs.
pub open spec fn spec_after_recipe(m: LedgerModel, item: CraftableItem) -> LedgerModel {
    let (w, s, f, sd) = crate::player::spec_deduct_costs(
        m.wood as int,
        m.stone as int,
        m.fiber as int,
        m.seeds as int,
        item.spec_recipe_inputs(),
    );
    LedgerModel { wood: w as u16, stone: s as u16, fiber: f as u16, seeds: sd as u16, ..m }
}

impl PlayerAccount {
    /// Grant the output of a crafted item to the inventory.
    fn add_crafted_item_to_inventory(&mut self, item: CraftableItem, quantity: u16)
        requires
            quantity <= 255,
        ensures
            final(self)@ == spec_grant_item(old(self)@, item, quantity),
    {
        match item {
            CraftableItem::WateringCanRefill => {
                self.watering_can_uses = WATERING_CAN_MAX_USES;
            },
            CraftableItem::Fertilizer => {
                self.fertilizer_count = self.fertilizer_count.saturating_add(quantity);
            },
            CraftableItem::CompostBin => {
                self.compost_bin_count = self.compost_bin_count.saturating_add(quantity as u8);
            },
            CraftableItem::Scarecrow => {
                self.scarecrow_count = self.scarecrow_count.saturating_add(quantity as u8);
            },
            CraftableItem::Fence => {
                self.fence_count = self.fence_count.saturating_add(quantity as u8);
            },
            CraftableItem::Sprinkler => {
                self.sprinkler_count = self.sprinkler_count.saturating_add(quantity as u8);
            },
            CraftableItem::AdvancedTool => {
                self.advanced_tools = self.advanced_tools.saturating_add(quantity as u8);
            },
        }
    }

    /// Craft an item: unless the item is instant, fails when a job is
    /// already queued; validates and deducts the recipe inputs
    /// atomically; then either grants the output immediately (instant
    /// items) or stores the single timed job. Fails with
    /// `InvalidCraftableItem`, `CraftingInProgress` or
    /// `InsufficientResources`, changing nothing.
    pub fn craft_item(&mut self, item_id: u8, now: i64) -> (r: Result<(), FarmingError>)
        requires
            old(self).wf(),
            now >= 0,
        ensures
            final(self).wf(),
            r is Err ==> *final(self) == *old(self),
            r is Err <==> (CraftableItem::spec_from_u8(item_id) is None || {
                let item = CraftableItem::spec_from_u8(item_id)->0;
                ||| (old(self).crafting_queue is Some && !item.spec_is_instant())
                ||| crate::player::spec_consume_error(
                    *old(self),
                    item.spec_recipe_inputs(),
                    0,
                ) is Some
            }),
            r matches Err(e) ==> e == if CraftableItem::spec_from_u8(item_id) is None {
                FarmingError::InvalidCraftableItem
            } else {
                let item = CraftableItem::spec_from_u8(item_id)->0;
                if old(self).crafting_queue is Some && !item.spec_is_instant() {
                    FarmingError::CraftingInProgress
                } else {
                    crate::player::spec_consume_error(*old(self), item.spec_recipe_inputs(), 0)->0
                }
            },
            r is Ok ==> {
                let item = CraftableItem::spec_from_u8(item_id)->0;
                let consumed = spec_after_recipe(old(self)@, item);
                if item.spec_is_instant() {
                    final(self)@ == spec_grant_item(consumed, item, item.spec_output_quantity())
                } else {
                    final(self)@ == (LedgerModel {
                        crafting_queue: Some(
                            CraftingJob {
                                item_id,
                                started_at: now,
                                duration: item.spec_crafting_time(),
                            },
                        ),
                        ..consumed
                    })
                }
            },
    {
        let item = CraftableItem::from_u8(item_id)?;
        if self.is_crafting() && !item.is_instant() {
            return Err(FarmingError::CraftingInProgress);
        }
        let recipe_inputs = item.get_recipe_inputs();
        self.consume_resources(recipe_inputs.as_slice())?;
        let crafting_time = item.get_crafting_time();
        if crafting_time == 0 {
            let quantity = item.get_output_quantity();
            self.add_crafted_item_to_inventory(item, quantity);
        } else {
            self.crafting_queue = Some(
                CraftingJob { item_id, started_at: now, duration: crafting_time },
            );
        }
        Ok(())
    }

    /// Claim a finished crafting job: grants the item's fixed output and
    /// clears the job slot. Fails with `NoCraftingInProgress` when no
    /// job is queued and `CraftingNotComplete` while the job is still
    /// running.
    pub fn claim_crafted_item(&mut self, now: i64) -> (r: Result<(), FarmingError>)
        requires
            old(self).wf(),
        ensures
            final(self).wf(),
            r is Err ==> *final(self) == *old(self),
            r is Err <==> (old(self).crafting_queue is None || !old(self).spec_crafting_complete(
                now,
            )),
            r matches Err(e) ==> e == if old(self).crafting_queue is None {
                FarmingError::NoCraftingInProgress
            } else {
                FarmingError::CraftingNotComplete
            },
            r is Ok ==> {
                let job = old(self).crafting_queue->0;
                let item = CraftableItem::spec_from_u8(job.item_id)->0;
                final(self)@ == (LedgerModel {
                    crafting_queue: None,
                    ..spec_grant_item(old(self)@, item, item.spec_output_quantity())
                })
            },
    {
        if !self.is_crafting() {
            return Err(FarmingError::NoCraftingInProgress);
        }
        if !self.crafting_complete(now) {
            return Err(FarmingError::CraftingNotComplete);
        }
        let job = match self.crafting_queue {
            Some(job) => job,
            None => {
                return Err(FarmingError::NoCraftingInProgress);
            },
        };
        let item = CraftableItem::from_u8(job.item_id)?;
        let quantity = item.get_output_quantity();
        self.add_crafted_item_to_inventory(item, quantity);
        self.crafting_queue = None;
        Ok(())
    }

    /// Plant a crop on an empty tile: validates the tile index, the crop
    /// identifier and the crop's season, lazily initializes fertility on
    /// a never-initialized tile, applies the rotation bonus when a
    /// different crop was harvested here before, stamps the planting
    /// time and season, and tills the soil to 70% moisture.
    pub fn plant_crop(
        &mut self,
        season: &SeasonState,
        tile_index: u8,
        crop_type: u8,
        now: i64,
    ) -> (r: Result<(), FarmingError>)
        requires
            old(self).wf(),
            season.wf(),
            now >= 0,
        ensures
            final(self).wf(),
            r is Err ==> *final(self) == *old(self),
            r is Err <==> (tile_index >= 25 || crop_type < 1 || crop_type > 5
                || !spec_config_of_id(crop_type).spec_is_valid_season(season.current_season) || old(
                self,
            ).farm_tiles@[tile_index as int].crop_type != 0),
            r matches Err(e) ==> e == if tile_index >= 25 {
                FarmingError::InvalidTileIndex
            } else if crop_type < 1 || crop_type > 5 {
                FarmingError::InvalidCropType
            } else if !spec_config_of_id(crop_type).spec_is_valid_season(season.current_season) {
                FarmingError::InvalidSeasonForCrop
            } else {
                FarmingError::TileNotEmpty
            },
            r is Ok ==> {
                let tile = old(self)@.farm_tiles[tile_index as int];
                let base_fertility = if tile.fertility == 0 {
                    DEFAULT_MIGRATED_FERTILITY as int
                } else {
                    tile.fertility as int
                };
                let rotated = tile.last_crop_type != 0 && tile.last_crop_type != crop_type;
                let new_fertility = if rotated {
                    min(base_fertility + ROTATION_BONUS, MAX_FERTILITY as int)
                } else {
                    base_fertility
                };
                final(self)@ == (LedgerModel {
                    farm_tiles: old(self)@.farm_tiles.update(
                        tile_index as int,
                        FarmTile {
                            crop_type,
                            planted_at: now,
                            fertility: new_fertility as u8,
                            restorative_bonus_used: false,
                            planted_in_season: Some(season.current_season),
                            ..tile
                        },
                    ),
                    water_levels: old(self)@.water_levels.update(tile_index as int, 70u8),
                    last_watered: old(self)@.last_watered.update(tile_index as int, now),
                    ..old(self)@
                })
            },
    {
        if tile_index >= 25 {
            return Err(FarmingError::InvalidTileIndex);
        }
        if crop_type < 1 || crop_type > 5 {
            return Err(FarmingError::InvalidCropType);
        }
        let config = crate::crop::get_crop_config(crop_type)?;
        if !config.is_valid_season(season.current_season) {
            return Err(FarmingError::InvalidSeasonForCrop);
        }
        let idx = tile_index as usize;
        if self.farm_tiles[idx].crop_type != 0 {
            return Err(FarmingError::TileNotEmpty);
        }
        if self.farm_tiles[idx].fertility == 0 {
            self.farm_tiles[idx].fertility = DEFAULT_MIGRATED_FERTILITY;
        }
        let last_crop = self.farm_tiles[idx].last_crop_type;
        let is_rotation = last_crop != 0 && last_crop != crop_type;
        if is_rotation {
            let raised = self.farm_tiles[idx].fertility.saturating_add(ROTATION_BONUS);
            self.farm_tiles[idx].fertility = if raised > MAX_FERTILITY {
                MAX_FERTILITY
            } else {
                raised
            };
        }
        self.farm_tiles[idx].crop_type = crop_type;
        self.farm_tiles[idx].planted_at = now;
        self.farm_tiles[idx].restorative_bonus_used = false;
        self.farm_tiles[idx].planted_in_season = Some(season.current_season);
        self.water_levels[idx] = 70;
        self.last_watered[idx] = now;
        Ok(())
    }

    /// Apply moisture decay to every plot: five points per whole day
    /// since the last decay check (enough days empty any plot), then
    /// advance the check stamp. Under one full day the call is a silent
    /// no-op.
    pub fn apply_water_decay(&mut self, current_timestamp: i64)
        requires
            old(self).wf(),
            current_timestamp >= 0,
        ensures
            final(self).wf(),
            ({
                let days = max(current_timestamp - old(self).last_water_decay_check, 0) / 86400;
                if days > 0 {
                    let decay = min(days * 5, 100);
                    final(self)@ == (LedgerModel {
                        water_levels: Seq::new(
                            25,
                            |i: int| max(old(self).water_levels@[i] - decay, 0) as u8,
                        ),
                        last_water_decay_check: current_timestamp,
                        ..old(self)@
                    })
                } else {
                    *final(self) == *old(self)
                }
            }),
    {
        let elapsed: i64 = if current_timestamp >= self.last_water_decay_check {
            current_timestamp - self.last_water_decay_check
        } else {
            0
        };
        let days_elapsed: i64 = elapsed / 86400;
        if days_elapsed > 0 {
            let decay_amount: u8 = if days_elapsed >= 20 {
                100
            } else {
                (days_elapsed * 5) as u8
            };
            let ghost pre = *self;
            let ghost decay = min(days_elapsed as int * 5, 100);
            assert(decay_amount as int == decay);
            let mut i: usize = 0;
            while i < 25
                invariant
                    0 <= i <= 25,
                    decay_amount as int == decay,
                    pre.water_levels@.len() == 25,
                    self.water_levels@.len() == 25,
                    forall|j: int| 0 <= j < i ==> #[trigger] self.water_levels@[j] as int == max(
                        pre.water_levels@[j] - decay,
                        0,
                    ),
                    forall|j: int| i <= j < 25 ==> #[trigger] self.water_levels@[j]
                        == pre.water_levels@[j],
                    *self == (PlayerAccount { water_levels: self.water_levels, ..pre }),
                decreases 25 - i,
            {
                self.water_levels[i] = self.water_levels[i].saturating_sub(decay_amount);
                i = i + 1;
            }
            self.last_water_decay_check = current_timestamp;
            proof {
                assert(self.water_levels@ =~= Seq::new(
                    25,
                    |i: int| max(pre.water_levels@[i] - decay, 0) as u8,
                ));
            }
        }
    }
}

/// The catalog configuration of a crop identifier known to be valid.
pub open spec fn spec_config_of_id(crop_type: u8) -> crate::crop::CropConfig
    recommends
        crate::crop::spec_crop_config(crop_type) is Some,
{
    crate::crop::spec_crop_config(crop_type)->0
}

/// Multiply `y` by `pct` percent (flooring) when `apply` holds.
pub open spec fn spec_apply_pct(y: int, apply: bool, pct: int) -> int {
    if apply {
        y * pct / 100
    } else {
        y
    }
}

/// The companion bonus record in effect at a cell, if the companion scan
/// finds a match there.
pub open spec fn spec_companion_bonus_at(
    tiles: Seq<FarmTile>,
    row: int,
    col: int,
    now: int,
) -> Option<PatternBonus> {
    match spec_companion(tiles, row, col, now) {
        Some(u) => {
            let center = tiles[row * 5 + col].crop_type;
            spec_companion_bonus(
                spec_crop_type_from_u8(center)->0,
                spec_crop_type_from_u8(u)->0,
            )
        },
        None => None,
    }
}

/// Total additive fertility bonus of the patterns detected at a cell.
pub open spec fn spec_pattern_fertility_bonus(
    tiles: Seq<FarmTile>,
    row: int,
    col: int,
    now: int,
) -> int {
    (if spec_crop_diversity(tiles, row, col, now) {
        5int
    } else {
        0int
    }) + (if spec_rotation_sequence(tiles, row, col, now) {
        10int
    } else {
        0int
    })
}

/// Total additive water bonus of the patterns detected at a cell plus
/// the companion bonus, if any.
pub open spec fn spec_pattern_water_bonus(tiles: Seq<FarmTile>, row: int, col: int, now: int) -> int {
    (if spec_checkerboard(tiles, row, col, now) {
        2int
    } else {
        0int
    }) + (match spec_companion_bonus_at(tiles, row, col, now) {
        Some(b) => b.water_bonus as int,
        None => 0int,
    })
}

/// Seeds granted by the patterns detected at a cell.
pub open spec fn spec_pattern_seed_bonus(tiles: Seq<FarmTile>, row: int, col: int, now: int) -> int {
    if spec_cross_pattern(tiles, row, col, now) {
        1int
    } else {
        0int
    }
}

/// Seeds a harvest of the given crop grants on top of its coin yield.
pub open spec fn spec_crop_seed_grant(crop_type: u8) -> int {
    match crop_type {
        1u8 => 1int,
        2u8 => 1int,
        3u8 => 2int,
        4u8 => 1int,
        _ => 0int,
    }
}

/// Fiber a harvest of the given crop grants on top of its coin yield.
pub open spec fn spec_crop_fiber_grant(crop_type: u8) -> int {
    match crop_type {
        1u8 => 2int,
        4u8 => 1int,
        5u8 => 3int,
        _ => 0int,
    }
}

/// The coin yield a harvest pays out: the time-decayed base yield scaled
/// by the fertility, season and water modifiers, floored at half the
/// crop's minimum yield, then multiplied by each detected pattern's
/// bonus in enumeration order and finally by the companion bonus.
pub open spec fn spec_harvest_payout(ledger: PlayerAccount, tile_index: int, now: int) -> int
    recommends
        0 <= tile_index < 25,
        crate::crop::spec_crop_config(ledger.farm_tiles@[tile_index].crop_type) is Some,
{
    let tiles = ledger.farm_tiles@;
    let tile = tiles[tile_index];
    let cfg = spec_config_of_id(tile.crop_type);
    let time_since_mature = now - (tile.planted_at + cfg.growth_time);
    let planted_season = match tile.planted_in_season {
        Some(s) => s as int,
        None => 0int,
    };
    let season_idx = min(planted_season, 3);
    let floored = crate::crop::spec_full_yield(
        time_since_mature,
        cfg.base_yield as int,
        cfg.optimal_window as int,
        cfg.max_decay_time as int,
        cfg.min_yield as int,
        tile.fertility as int,
        ledger.water_levels@[tile_index],
        cfg.yield_modifiers@[season_idx] as int,
    );
    spec_pattern_multiplied(tiles, tile_index / 5, tile_index % 5, now, floored)
}

/// `y` multiplied by the bonus of each pattern detected at (row, col),
/// in enumeration order, and finally by the companion bonus.
pub open spec fn spec_pattern_multiplied(
    tiles: Seq<FarmTile>,
    row: int,
    col: int,
    now: int,
    y: int,
) -> int {
    let y1 = spec_apply_pct(y, spec_monoculture_row(tiles, row, col, now), 115);
    let y2 = spec_apply_pct(y1, spec_monoculture_block(tiles, row, col, now), 120);
    let y3 = spec_apply_pct(y2, spec_crop_diversity(tiles, row, col, now), 125);
    let y4 = spec_apply_pct(y3, spec_cross_pattern(tiles, row, col, now), 130);
    let y5 = spec_apply_pct(y4, spec_checkerboard(tiles, row, col, now), 110);
    let y6 = spec_apply_pct(y5, spec_perimeter_defense(tiles, row, col, now), 140);
    let y7 = spec_apply_pct(y6, spec_rotation_sequence(tiles, row, col, now), 120);
    match spec_companion_bonus_at(tiles, row, col, now) {
        Some(b) => y7 * b.yield_multiplier / 100,
        None => y7,
    }
}

/// Apply every pattern and companion bonus at (row, col) to the yield
/// `y`: returns the multiplied yield together with the additive
/// fertility, water and seed bonuses the patterns grant.
fn apply_pattern_bonuses(
    plots: &[FarmTile; 25],
    row: usize,
    col: usize,
    now: i64,
    y: u64,
) -> (r: (u64, u8, u8, u16))
    requires
        row < 5,
        col < 5,
        y <= 0x100000,
    ensures
        r.0 == spec_pattern_multiplied(plots@, row as int, col as int, now as int, y as int),
        r.0 <= 0x10000000,
        r.1 == spec_pattern_fertility_bonus(plots@, row as int, col as int, now as int),
        r.2 == spec_pattern_water_bonus(plots@, row as int, col as int, now as int),
        r.3 == spec_pattern_seed_bonus(plots@, row as int, col as int, now as int),
{
    let has_row = PatternDetector::check_monoculture_row(plots, row, col, now);
    let has_block = PatternDetector::check_monoculture_block(plots, row, col, now);
    let has_diversity = PatternDetector::check_crop_diversity(plots, row, col, now);
    let has_cross = PatternDetector::check_cross_pattern(plots, row, col, now);
    let has_checker = PatternDetector::check_checkerboard(plots, row, col, now);
    let has_perimeter = PatternDetector::check_perimeter_defense(plots, row, col, now);
    let has_rotation = PatternDetector::check_rotation_sequence(plots, row, col, now);
    let companion = PatternDetector::check_companion_planting(plots, row, col, now);
    let (multiplied, companion_water_bonus) = pattern_multiplier_chain(
        plots,
        row,
        col,
        now,
        y,
        has_row,
        has_block,
        has_diversity,
        has_cross,
        has_checker,
        has_perimeter,
        has_rotation,
        companion,
    );
    let fertility_bonus: u8 = (if has_diversity {
        5
    } else {
        0
    }) + (if has_rotation {
        10
    } else {
        0
    });
    let water_bonus: u8 = (if has_checker {
        2
    } else {
        0
    }) + companion_water_bonus;
    let seed_bonus: u16 = if has_cross {
        1
    } else {
        0
    };
    (multiplied, fertility_bonus, water_bonus, seed_bonus)
}

/// Fold the yield multipliers of the patterns already detected at
/// (row, col) over `y`, in enumeration order, companion last; also
/// returns the companion bonus's water grant.
#[verifier::rlimit(100)]
#[verifier::spinoff_prover]
fn pattern_multiplier_chain(
    plots: &[FarmTile; 25],
    row: usize,
    col: usize,
    now: i64,
    y: u64,
    has_row: bool,
    has_block: bool,
    has_diversity: bool,
    has_cross: bool,
    has_checker: bool,
    has_perimeter: bool,
    has_rotation: bool,
    companion: Option<u8>,
) -> (r: (u64, u8))
    requires
        row < 5,
        col < 5,
        y <= 0x100000,
        has_row == spec_monoculture_row(plots@, row as int, col as int, now as int),
        has_block == spec_monoculture_block(plots@, row as int, col as int, now as int),
        has_diversity == spec_crop_diversity(plots@, row as int, col as int, now as int),
        has_cross == spec_cross_pattern(plots@, row as int, col as int, now as int),
        has_checker == spec_checkerboard(plots@, row as int, col as int, now as int),
        has_perimeter == spec_perimeter_defense(plots@, row as int, col as int, now as int),
        has_rotation == spec_rotation_sequence(plots@, row as int, col as int, now as int),
        companion == spec_companion(plots@, row as int, col as int, now as int),
        companion matches Some(u) ==> crate::synergy::spec_is_companion_pair(
            plots@[row as int * 5 + col as int].crop_type,
            u,
        ),
    ensures
        r.0 == spec_pattern_multiplied(plots@, row as int, col as int, now as int, y as int),
        r.0 <= 0x10000000,
        r.1 == match spec_companion_bonus_at(plots@, row as int, col as int, now as int) {
            Some(b) => b.water_bonus,
            None => 0u8,
        },
{
    let y1 = if has_row {
        apply_pct(y, 115)
    } else {
        y
    };
    let y2 = if has_block {
        apply_pct(y1, 120)
    } else {
        y1
    };
    let y3 = if has_diversity {
        apply_pct(y2, 125)
    } else {
        y2
    };
    let y4 = if has_cross {
        apply_pct(y3, 130)
    } else {
        y3
    };
    let y5 = if has_checker {
        apply_pct(y4, 110)
    } else {
        y4
    };
    let y6 = if has_perimeter {
        apply_pct(y5, 140)
    } else {
        y5
    };
    let y7 = if has_rotation {
        apply_pct(y6, 120)
    } else {
        y6
    };
    let mut companion_water_bonus: u8 = 0;
    let multiplied: u64 = match companion {
        Some(u) => {
            let center = plots[row * 5 + col].crop_type;
            match (crate::crop::crop_type_from_u8(center), crate::crop::crop_type_from_u8(u)) {
                (Some(a), Some(b)) => {
                    match crate::synergy::get_companion_bonus(a, b) {
                        Some(bonus) => {
                            companion_water_bonus = bonus.water_bonus;
                            apply_pct(y7, bonus.yield_multiplier)
                        },
                        None => {
                            proof {
                                assert(false);
                            }
                            y7
                        },
                    }
                },
                _ => {
                    proof {
                        assert(false);
                    }
                    y7
                },
            }
        },
        None => y7,
    };
    (multiplied, companion_water_bonus)
}

/// The tile's fertility after a harvest: restorative crops gain 10
/// before paying their fertility cost, others just pay it; the pattern
/// fertility bonus is added on top; the result is clamped to the
/// fertility range.
pub open spec fn spec_fertility_after_harvest(ledger: PlayerAccount, tile_index: int, now: int) -> int
    recommends
        0 <= tile_index < 25,
        crate::crop::spec_crop_config(ledger.farm_tiles@[tile_index].crop_type) is Some,
{
    let tile = ledger.farm_tiles@[tile_index];
    let cfg = spec_config_of_id(tile.crop_type);
    let base = if cfg.is_restorative {
        min(
            max(tile.fertility + 10 - cfg.fertility_cost, MIN_FERTILITY as int),
            MAX_FERTILITY as int,
        )
    } else {
        max(tile.fertility - cfg.fertility_cost, MIN_FERTILITY as int)
    };
    let bonus = spec_pattern_fertility_bonus(
        ledger.farm_tiles@,
        tile_index / 5,
        tile_index % 5,
        now,
    );
    min(base + bonus, MAX_FERTILITY as int)
}

impl PlayerAccount {
    /// Whether the plot at (row, col) holds a crop ready to harvest.
    pub fn is_plot_harvestable(&self, row: usize, col: usize, current_time: i64) -> (r: bool)
        ensures
            r == (spec_crop_at(self.farm_tiles@, row as int, col as int, current_time as int)
                is Some),
    {
        PatternDetector::get_crop_at(&self.farm_tiles, row, col, current_time).is_some()
    }

    /// Read-only preview of the patterns and the companion match at a
    /// plot, exactly as a harvest there would detect them. The ledger is
    /// never touched. Fails when the plot index is out of range.
    pub fn check_patterns(&self, plot_index: u8, now: i64) -> (r: Result<
        (Vec<PatternType>, Option<u8>),
        FarmingError,
    >)
        ensures
            r is Err <==> plot_index >= 25,
            r matches Err(e) ==> e == FarmingError::InvalidPlotIndex,
            r matches Ok(p) ==> {
                &&& p.0@ == spec_detected_patterns(
                    self.farm_tiles@,
                    plot_index as int / 5,
                    plot_index as int % 5,
                    now as int,
                )
                &&& p.1 == spec_companion(
                    self.farm_tiles@,
                    plot_index as int / 5,
                    plot_index as int % 5,
                    now as int,
                )
            },
    {
        if plot_index >= 25 {
            return Err(FarmingError::InvalidPlotIndex);
        }
        let row = (plot_index / 5) as usize;
        let col = (plot_index % 5) as usize;
        let detected = PatternDetector::detect_patterns(&self.farm_tiles, row, col, now);
        let companion = PatternDetector::check_companion_planting(&self.farm_tiles, row, col, now);
        Ok((detected, companion))
    }

    /// Harvest a mature crop: pays the coin yield (time decay, fertility,
    /// season and water modifiers, the floor at half the minimum yield,
    /// then every detected pattern bonus and the companion bonus, in
    /// that order), grants the pattern and per-crop resource bonuses,
    /// applies the fertility and water bonuses, records the crop for
    /// rotation and clears the tile. Returns the yield paid out.
    pub fn harvest_crop(&mut self, tile_index: u8, now: i64) -> (r: Result<u64, FarmingError>)
        requires
            old(self).wf(),
            now >= 0,
        ensures
            final(self).wf(),
            r is Err ==> *final(self) == *old(self),
            r is Err <==> (tile_index >= 25 || old(self).farm_tiles@[tile_index as int].crop_type
                == 0 || now < old(self).farm_tiles@[tile_index as int].planted_at
                + spec_config_of_id(
                old(self).farm_tiles@[tile_index as int].crop_type,
            ).growth_time),
            r matches Err(e) ==> e == if tile_index >= 25 {
                FarmingError::InvalidTileIndex
            } else if old(self).farm_tiles@[tile_index as int].crop_type == 0 {
                FarmingError::NoActiveCrop
            } else {
                FarmingError::CropNotMature
            },
            r matches Ok(y) ==> {
                let tiles = old(self)@.farm_tiles;
                let tile = tiles[tile_index as int];
                let row = tile_index as int / 5;
                let col = tile_index as int % 5;
                &&& y == spec_harvest_payout(*old(self), tile_index as int, now as int)
                &&& final(self)@ == (LedgerModel {
                    coins: min(old(self).coins + y, u64::MAX as int) as u64,
                    farm_tiles: tiles.update(
                        tile_index as int,
                        FarmTile {
                            crop_type: 0u8,
                            planted_at: 0i64,
                            fertility: spec_fertility_after_harvest(
                                *old(self),
                                tile_index as int,
                                now as int,
                            ) as u8,
                            last_crop_type: tile.crop_type,
                            restorative_bonus_used: false,
                            planted_in_season: None,
                        },
                    ),
                    water_levels: old(self)@.water_levels.update(
                        tile_index as int,
                        min(
                            old(self).water_levels@[tile_index as int]
                                + spec_pattern_water_bonus(tiles, row, col, now as int),
                            100,
                        ) as u8,
                    ),
                    seeds: min(
                        old(self).seeds + spec_pattern_seed_bonus(tiles, row, col, now as int)
                            + spec_crop_seed_grant(tile.crop_type),
                        500,
                    ) as u16,
                    fiber: min(old(self).fiber + spec_crop_fiber_grant(tile.crop_type), 500) as u16,
                    ..old(self)@
                })
            },
    {
        if tile_index >= 25 {
            return Err(FarmingError::InvalidTileIndex);
        }
        let idx = tile_index as usize;
        let tile = self.farm_tiles[idx];
        if tile.crop_type == 0 {
            return Err(FarmingError::NoActiveCrop);
        }
        let config = crate::crop::get_crop_config(tile.crop_type)?;
        let mature_at = match tile.planted_at.checked_add(config.growth_time) {
            Some(m) => m,
            None => {
                // The maturity time lies beyond the representable range,
                // so the crop cannot be mature yet.
                return Err(FarmingError::CropNotMature);
            },
        };
        if now < mature_at {
            return Err(FarmingError::CropNotMature);
        }
        let time_since_mature = now - mature_at;
        proof {
            assert(config.fertility_cost <= 20);
        }
        let floored = base_pipeline_yield(
            tile.crop_type,
            time_since_mature,
            tile.fertility,
            self.water_levels[idx],
            tile.planted_in_season,
        );
        // Pattern detection, on the grid as it stands before clearing.
        let row = idx / 5;
        let col = idx % 5;
        let (yield_amount, fertility_bonus, water_bonus, pattern_seeds) = apply_pattern_bonuses(
            &self.farm_tiles,
            row,
            col,
            now,
            floored,
        );
        // Additive bonuses and per-crop resource grants.
        let seed_grant: u16 = pattern_seeds + match tile.crop_type {
            1 => 1,
            2 => 1,
            3 => 2,
            4 => 1,
            _ => 0,
        };
        let fiber_grant: u16 = match tile.crop_type {
            1 => 2,
            4 => 1,
            5 => 3,
            _ => 0,
        };
        let new_seeds = self.seeds + seed_grant;
        self.seeds = if new_seeds > 500 {
            500
        } else {
            new_seeds
        };
        let new_fiber = self.fiber + fiber_grant;
        self.fiber = if new_fiber > 500 {
            500
        } else {
            new_fiber
        };
        self.coins = self.coins.saturating_add(yield_amount);
        let new_water = self.water_levels[idx] + water_bonus;
        self.water_levels[idx] = if new_water > 100 {
            100
        } else {
            new_water
        };
        // Fertility: restorative crops regain 10 before paying the cost.
        let base_fertility: u8 = if config.is_restorative {
            let raised = tile.fertility + 10;
            let paid = if raised >= config.fertility_cost {
                raised - config.fertility_cost
            } else {
                0
            };
            let floored_fertility = if paid < MIN_FERTILITY {
                MIN_FERTILITY
            } else {
                paid
            };
            if floored_fertility > MAX_FERTILITY {
                MAX_FERTILITY
            } else {
                floored_fertility
            }
        } else {
            let paid = if tile.fertility >= config.fertility_cost {
                tile.fertility - config.fertility_cost
            } else {
                0
            };
            if paid < MIN_FERTILITY {
                MIN_FERTILITY
            } else {
                paid
            }
        };
        let boosted = base_fertility + fertility_bonus;
        let new_fertility: u8 = if boosted > MAX_FERTILITY {
            MAX_FERTILITY
        } else {
            boosted
        };
        self.farm_tiles[idx] = FarmTile {
            crop_type: 0,
            planted_at: 0,
            fertility: new_fertility,
            last_crop_type: tile.crop_type,
            restorative_bonus_used: false,
            planted_in_season: None,
        };
        Ok(yield_amount)
    }
}

/// The floored pipeline yield of a catalog crop: time decay, fertility,
/// the planting season's modifier and the current soil moisture, floored
/// at half the minimum yield.
fn base_pipeline_yield(
    crop_type: u8,
    time_since_mature: i64,
    fertility: u8,
    water_level: u8,
    planted_in_season: Option<u8>,
) -> (r: u64)
    requires
        crate::crop::spec_crop_config(crop_type) is Some,
    ensures
        ({
            let cfg = spec_config_of_id(crop_type);
            let planted_season = match planted_in_season {
                Some(s) => s as int,
                None => 0int,
            };
            r == crate::crop::spec_full_yield(
                time_since_mature as int,
                cfg.base_yield as int,
                cfg.optimal_window as int,
                cfg.max_decay_time as int,
                cfg.min_yield as int,
                fertility as int,
                water_level,
                cfg.yield_modifiers@[min(planted_season, 3)] as int,
            )
        }),
        r <= 0x100000,
{
    let config = match crate::crop::get_crop_config(crop_type) {
        Ok(c) => c,
        Err(_) => {
            proof {
                assert(false);
            }
            return 0;
        },
    };
    proof {
        assert(config.base_yield <= 500 && config.min_yield <= config.base_yield);
    }
    let with_fertility = match crate::crop::calculate_harvest_yield_with_fertility(
        time_since_mature,
        config.base_yield,
        config.optimal_window,
        config.max_decay_time,
        config.min_yield,
        fertility,
    ) {
        Ok(y) => y,
        Err(_) => {
            proof {
                assert(false);
            }
            return 0;
        },
    };
    let planted_season: u8 = match planted_in_season {
        Some(s) => s,
        None => 0,
    };
    let season_idx: usize = if planted_season > 3 {
        3
    } else {
        planted_season as usize
    };
    let season_modifier: u32 = config.yield_modifiers[season_idx];
    proof {
        assert(season_modifier <= 120);
    }
    let seasonal = apply_pct(with_fertility as u64, season_modifier);
    let water_modifier = crate::tools::get_water_modifier(water_level);
    let watered = apply_pct(seasonal, water_modifier);
    let floor = (config.min_yield / 2) as u64;
    if watered > floor {
        watered
    } else {
        floor
    }
}

/// Multiply a small amount by a percentage, flooring: `y * pct / 100`.
fn apply_pct(y: u64, pct: u32) -> (r: u64)
    requires
        y <= 0x10000000,
        pct <= 200,
    ensures
        r == y as int * pct as int / 100,
        r <= 2 * y,
{
    proof {
        let yi = y as int;
        let p = pct as int;
        lemma_mul_inequality(p, 200, yi);
        assert(p * yi == yi * p) by (nonlinear_arith);
        assert(200 * yi == yi * 200) by (nonlinear_arith);
        vstd::arithmetic::div_mod::lemma_div_is_ordered(yi * p, yi * 200, 100);
        assert(yi * 200 / 100 == 2 * yi) by (nonlinear_arith);
        vstd::arithmetic::div_mod::lemma_div_pos_is_pos(yi * p, 100);
    }
    (y * (pct as u64)) / 100
}

} // verus!
