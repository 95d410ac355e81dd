use farming_game::errors::FarmingError;
use farming_game::player::PlayerAccount;
use farming_game::season::SeasonState;

#[test]
fn init_resets_to_starting_state() {
    let mut ledger = PlayerAccount::new();
    ledger.coins = 999;
    ledger.wood = 0;
    ledger.watering_can_uses = 0;
    let tiles = ledger.farm_tiles;
    ledger.init(tiles);
    assert_eq!(ledger.coins, 0);
    assert_eq!(ledger.wood, 10);
    assert_eq!(ledger.stone, 5);
    assert_eq!(ledger.fiber, 8);
    assert_eq!(ledger.watering_can_uses, 10);
    assert_eq!(ledger.fertilizer_count, 5);
    assert!(ledger.crafting_queue.is_none());
    assert!(ledger.last_gather_time.iter().all(|t| t.is_none()));
    assert!(ledger.water_levels.iter().all(|w| *w == 70));
    assert!(ledger.farm_tiles.iter().all(|t| t.fertility == 80 && t.crop_type == 0));
}

// Gather cooldown example: wood at t=0 succeeds, a retry inside the
// one-hour cooldown fails, a retry at exactly one hour succeeds.
#[test]
fn gather_cooldown() {
    let mut ledger = PlayerAccount::new();
    assert_eq!(ledger.gather_resource(0, 5, 0), Ok(()));
    assert_eq!(ledger.wood, 15);
    assert_eq!(
        ledger.gather_resource(0, 5, 3000),
        Err(FarmingError::GatherCooldownActive)
    );
    assert_eq!(ledger.wood, 15);
    assert_eq!(ledger.gather_resource(0, 5, 3600), Ok(()));
    assert_eq!(ledger.wood, 20);
}

#[test]
fn gather_validation() {
    let mut ledger = PlayerAccount::new();
    assert_eq!(
        ledger.gather_resource(9, 1, 0),
        Err(FarmingError::InvalidResourceType)
    );
    assert_eq!(
        ledger.gather_resource(0, 0, 0),
        Err(FarmingError::GatherAmountExceeded)
    );
    assert_eq!(
        ledger.gather_resource(0, 6, 0),
        Err(FarmingError::GatherAmountExceeded)
    );
    // Seeds can never be gathered manually.
    assert_eq!(
        ledger.gather_resource(3, 1, 0),
        Err(FarmingError::GatherAmountExceeded)
    );
}

#[test]
fn gather_stack_overflow_is_hard_failure() {
    let mut ledger = PlayerAccount::new();
    ledger.wood = 998;
    assert_eq!(
        ledger.gather_resource(0, 5, 0),
        Err(FarmingError::ResourceStackOverflow)
    );
    assert_eq!(ledger.wood, 998);
    // Up to the cap exactly is fine.
    assert_eq!(ledger.gather_resource(0, 1, 0), Ok(()));
    assert_eq!(ledger.wood, 999);
}

// Recipe atomicity: crafting with insufficient resources leaves every
// resource counter unchanged.
#[test]
fn recipe_atomicity() {
    let mut ledger = PlayerAccount::new();
    // A sprinkler needs 20 wood, 12 stone, 5 fiber; the fresh ledger has
    // 10 wood.
    let before = (ledger.wood, ledger.stone, ledger.fiber, ledger.seeds);
    assert_eq!(ledger.craft_item(5, 0), Err(FarmingError::InsufficientResources));
    assert_eq!(
        (ledger.wood, ledger.stone, ledger.fiber, ledger.seeds),
        before
    );
    assert!(ledger.crafting_queue.is_none());
}

#[test]
fn craft_claim_cycle() {
    let mut ledger = PlayerAccount::new();
    // A compost bin takes 10 wood and 5 stone, exactly the starting
    // stock, and one hour of crafting.
    assert_eq!(ledger.craft_item(2, 100), Ok(()));
    assert_eq!(ledger.wood, 0);
    assert_eq!(ledger.stone, 0);
    let job = ledger.crafting_queue.expect("job queued");
    assert_eq!(job.item_id, 2);
    assert_eq!(job.started_at, 100);
    assert_eq!(job.duration, 3600);

    // A second timed craft while the slot is full is refused.
    assert_eq!(ledger.craft_item(2, 200), Err(FarmingError::CraftingInProgress));

    assert_eq!(
        ledger.claim_crafted_item(100 + 3599),
        Err(FarmingError::CraftingNotComplete)
    );
    assert_eq!(ledger.claim_crafted_item(100 + 3600), Ok(()));
    assert_eq!(ledger.compost_bin_count, 1);
    assert!(ledger.crafting_queue.is_none());

    assert_eq!(
        ledger.claim_crafted_item(100 + 3600),
        Err(FarmingError::NoCraftingInProgress)
    );
}

#[test]
fn instant_craft_bypasses_queue() {
    let mut ledger = PlayerAccount::new();
    ledger.fiber = 5;
    ledger.seeds = 3;
    // Fertilizer crafting is instant: 5 fiber + 3 seeds -> 3 fertilizer.
    assert_eq!(ledger.craft_item(1, 0), Ok(()));
    assert_eq!(ledger.fertilizer_count, 8);
    assert_eq!(ledger.fiber, 0);
    assert_eq!(ledger.seeds, 0);
    assert!(ledger.crafting_queue.is_none());
}

#[test]
fn craft_unknown_item() {
    let mut ledger = PlayerAccount::new();
    assert_eq!(ledger.craft_item(7, 0), Err(FarmingError::InvalidCraftableItem));
}

#[test]
fn compost_collection() {
    let mut ledger = PlayerAccount::new();
    assert_eq!(ledger.collect_compost(86400), Err(FarmingError::NoCraftingInProgress));
    ledger.compost_bin_count = 2;
    // Less than a whole day: silent no-op.
    assert_eq!(ledger.collect_compost(86399), Ok(()));
    assert_eq!(ledger.fertilizer_count, 5);
    assert_eq!(ledger.last_compost_collection, 0);
    // Three whole days with two bins: six fertilizer.
    assert_eq!(ledger.collect_compost(3 * 86400), Ok(()));
    assert_eq!(ledger.fertilizer_count, 11);
    assert_eq!(ledger.last_compost_collection, 3 * 86400);
}

#[test]
fn watering_spends_uses_and_cools_down() {
    let mut ledger = PlayerAccount::new();
    assert_eq!(ledger.water_tile(25, 0), Err(FarmingError::InvalidPlotIndex));
    assert_eq!(ledger.water_tile(3, 1000), Ok(()));
    assert_eq!(ledger.water_levels[3], 100);
    assert_eq!(ledger.watering_can_uses, 9);
    assert_eq!(
        ledger.water_tile(3, 1000 + 3599),
        Err(FarmingError::WateringTooFrequent)
    );
    assert_eq!(ledger.water_tile(3, 1000 + 3600), Ok(()));
    assert_eq!(ledger.watering_can_uses, 8);

    ledger.watering_can_uses = 0;
    assert_eq!(ledger.water_tile(4, 50_000), Err(FarmingError::InsufficientToolUses));
}

#[test]
fn water_caps_at_hundred() {
    let mut ledger = PlayerAccount::new();
    ledger.water_levels[0] = 30;
    assert_eq!(ledger.water_tile(0, 10), Ok(()));
    assert_eq!(ledger.water_levels[0], 80);
}

#[test]
fn fertilizer_application() {
    let mut ledger = PlayerAccount::new();
    assert_eq!(ledger.use_fertilizer(25), Err(FarmingError::InvalidPlotIndex));
    assert_eq!(ledger.use_fertilizer(0), Ok(()));
    assert_eq!(ledger.farm_tiles[0].fertility, 100);
    assert_eq!(ledger.fertilizer_count, 4);

    ledger.fertilizer_count = 0;
    assert_eq!(ledger.use_fertilizer(0), Err(FarmingError::InsufficientFertilizer));
}

#[test]
fn refill_and_buy_tools() {
    let mut ledger = PlayerAccount::new();
    assert_eq!(ledger.refill_watering_can(), Err(FarmingError::InsufficientPoints));
    ledger.coins = 100;
    ledger.watering_can_uses = 0;
    assert_eq!(ledger.refill_watering_can(), Ok(()));
    assert_eq!(ledger.watering_can_uses, 10);
    assert_eq!(ledger.coins, 80);

    // Two fertilizers at 10 coins each.
    assert_eq!(ledger.buy_tool(1, 2), Ok(()));
    assert_eq!(ledger.fertilizer_count, 7);
    assert_eq!(ledger.coins, 60);

    assert_eq!(ledger.buy_tool(9, 1), Err(FarmingError::InvalidCropType));
    assert_eq!(ledger.buy_tool(2, 1000), Err(FarmingError::InsufficientPoints));
}

#[test]
fn planting_validation_and_rotation() {
    let mut ledger = PlayerAccount::new();
    let season = SeasonState::new();
    assert_eq!(
        ledger.plant_crop(&season, 25, 1, 0),
        Err(FarmingError::InvalidTileIndex)
    );
    assert_eq!(
        ledger.plant_crop(&season, 0, 6, 0),
        Err(FarmingError::InvalidCropType)
    );
    // Tomato grows only in summer; the clock starts in spring.
    assert_eq!(
        ledger.plant_crop(&season, 0, 2, 0),
        Err(FarmingError::InvalidSeasonForCrop)
    );
    assert_eq!(ledger.plant_crop(&season, 0, 1, 0), Ok(()));
    assert_eq!(ledger.farm_tiles[0].crop_type, 1);
    assert_eq!(ledger.farm_tiles[0].planted_in_season, Some(0));
    assert_eq!(ledger.water_levels[0], 70);
    assert_eq!(
        ledger.plant_crop(&season, 0, 1, 10),
        Err(FarmingError::TileNotEmpty)
    );

    // Harvest, then replant a different crop: rotation bonus +10.
    assert_eq!(ledger.harvest_crop(0, 50), Ok(96));
    let fertility_after_harvest = ledger.farm_tiles[0].fertility;
    assert_eq!(ledger.plant_crop(&season, 0, 4, 60), Ok(()));
    assert_eq!(
        ledger.farm_tiles[0].fertility,
        (fertility_after_harvest + 10).min(100)
    );
}

#[test]
fn harvest_validation_and_payout() {
    let mut ledger = PlayerAccount::new();
    let season = SeasonState::new();
    assert_eq!(ledger.harvest_crop(25, 0), Err(FarmingError::InvalidTileIndex));
    assert_eq!(ledger.harvest_crop(0, 0), Err(FarmingError::NoActiveCrop));

    assert_eq!(ledger.plant_crop(&season, 0, 1, 0), Ok(()));
    // Wheat matures after 30 seconds.
    assert_eq!(ledger.harvest_crop(0, 29), Err(FarmingError::CropNotMature));

    // At t=50 (20s past maturity, the end of the optimal window): base
    // 100, fertility 80 -> 88%, 88; spring wheat 110% -> 96; water 70 ->
    // 100% -> 96; no patterns on a lone plot.
    let coins_before = ledger.coins;
    assert_eq!(ledger.harvest_crop(0, 50), Ok(96));
    assert_eq!(ledger.coins, coins_before + 96);
    // The tile is cleared and remembers the crop for rotation.
    assert_eq!(ledger.farm_tiles[0].crop_type, 0);
    assert_eq!(ledger.farm_tiles[0].last_crop_type, 1);
    assert_eq!(ledger.farm_tiles[0].planted_in_season, None);
    // Wheat costs 10 fertility: 80 -> 70.
    assert_eq!(ledger.farm_tiles[0].fertility, 70);
    // Wheat grants 1 seed and 2 fiber.
    assert_eq!(ledger.seeds, 1);
    assert_eq!(ledger.fiber, 10);
}

// Fertility clamp: across a battery of operations the fertility of every
// initialized plot stays within 20..=100.
#[test]
fn fertility_stays_clamped() {
    let mut ledger = PlayerAccount::new();
    let season = SeasonState::new();
    let mut now: i64 = 0;
    for round in 0..6 {
        for idx in 0..5u8 {
            let crop = if round % 2 == 0 { 1 } else { 4 };
            let _ = ledger.plant_crop(&season, idx, crop, now);
        }
        now += 200;
        for idx in 0..5u8 {
            let _ = ledger.harvest_crop(idx, now);
        }
        let _ = ledger.use_fertilizer(0);
        let _ = ledger.leave_fallow(1, now + 7200);
        for tile in ledger.farm_tiles.iter() {
            assert!(tile.fertility >= 20 && tile.fertility <= 100);
        }
    }
}

// Preview idempotence: checking patterns is read-only; two checks with
// no intervening mutation report the same result.
#[test]
fn check_patterns_is_read_only() {
    let mut ledger = PlayerAccount::new();
    let season = SeasonState::new();
    for idx in [6u8, 7, 8, 11, 12, 13, 16, 17, 18] {
        assert_eq!(ledger.plant_crop(&season, idx, 1, 0), Ok(()));
    }
    let snapshot = ledger.clone();
    let first = ledger.check_patterns(12, 100).unwrap();
    let second = ledger.check_patterns(12, 100).unwrap();
    assert_eq!(first, second);
    assert!(first.0.contains(&farming_game::synergy::PatternType::CrossPattern));
    // No field of the ledger moved.
    assert_eq!(format!("{:?}", ledger), format!("{:?}", snapshot));
    assert_eq!(
        ledger.check_patterns(25, 100),
        Err(FarmingError::InvalidPlotIndex)
    );
}

#[test]
fn clear_and_fallow() {
    let mut ledger = PlayerAccount::new();
    let season = SeasonState::new();
    assert_eq!(ledger.clear_tile(25), Err(FarmingError::InvalidTileIndex));
    assert_eq!(ledger.plant_crop(&season, 2, 1, 0), Ok(()));
    assert_eq!(ledger.leave_fallow(2, 100), Err(FarmingError::TileNotEmpty));
    assert_eq!(ledger.clear_tile(2), Ok(()));
    assert_eq!(ledger.farm_tiles[2].crop_type, 0);

    // Ten hours empty restore ten fertility (from 80).
    assert_eq!(ledger.leave_fallow(2, 10 * 3600), Ok(()));
    assert_eq!(ledger.farm_tiles[2].fertility, 90);
    assert_eq!(ledger.farm_tiles[2].planted_at, 10 * 3600);
    // Under an hour since: no change.
    assert_eq!(ledger.leave_fallow(2, 10 * 3600 + 100), Ok(()));
    assert_eq!(ledger.farm_tiles[2].fertility, 90);
}

#[test]
fn water_decay_over_days() {
    let mut ledger = PlayerAccount::new();
    // Two days: 10 points of decay from the starting 70.
    ledger.apply_water_decay(2 * 86400);
    for idx in 0..25 {
        assert_eq!(ledger.water_levels[idx], 60);
    }
    assert_eq!(ledger.last_water_decay_check, 2 * 86400);
    // A fraction of a day later: no further decay.
    ledger.apply_water_decay(2 * 86400 + 100);
    assert_eq!(ledger.water_levels[0], 60);
}

#[test]
fn season_clock_advances_and_wraps() {
    let mut clock = SeasonState::new();
    assert_eq!(clock.current_season, 0);
    for _ in 0..29 {
        clock.advance_day();
    }
    assert_eq!(clock.current_season, 0);
    assert_eq!(clock.days_passed, 29);
    clock.advance_day();
    assert_eq!(clock.current_season, 1);
    assert_eq!(clock.season_start_day, 30);

    // A full year wraps back to spring.
    for _ in 0..90 {
        clock.advance_day();
    }
    assert_eq!(clock.current_season, 0);

    assert_eq!(clock.set_season(4), Err(FarmingError::InvalidSeasonIndex));
    assert_eq!(clock.set_season(3), Ok(()));
    assert_eq!(clock.current_season, 3);
    assert_eq!(clock.season_start_day, clock.days_passed);
}

#[test]
fn consume_resources_validates_first() {
    let mut ledger = PlayerAccount::new();
    let costs = [(0u8, 5u16), (1u8, 99u16)];
    assert_eq!(
        ledger.consume_resources(&costs),
        Err(FarmingError::InsufficientResources)
    );
    assert_eq!(ledger.wood, 10);
    assert_eq!(ledger.stone, 5);

    let bad_type = [(4u8, 1u16)];
    assert_eq!(
        ledger.consume_resources(&bad_type),
        Err(FarmingError::InvalidResourceType)
    );

    let fine = [(0u8, 5u16), (1u8, 5u16)];
    assert_eq!(ledger.consume_resources(&fine), Ok(()));
    assert_eq!(ledger.wood, 5);
    assert_eq!(ledger.stone, 0);
}

// A diversity arrangement with a companion neighbor: the harvest pays
// both multipliers and applies the additive fertility and water bonuses.
#[test]
fn harvest_with_diversity_and_companion() {
    let mut ledger = PlayerAccount::new();
    let plant = |ledger: &mut PlayerAccount, idx: usize, crop: u8| {
        ledger.farm_tiles[idx].crop_type = crop;
        ledger.farm_tiles[idx].planted_at = 0;
        ledger.farm_tiles[idx].planted_in_season = Some(0);
    };
    // Lettuce at (1,1) ringed by wheat, tomato, corn and carrot.
    plant(&mut ledger, 6, 5);
    plant(&mut ledger, 1, 1);
    plant(&mut ledger, 11, 4);
    plant(&mut ledger, 5, 2);
    plant(&mut ledger, 7, 3);
    // At t=100 every crop is mature and the lettuce is fully decayed:
    // 16 -> fertility 88% -> 14 -> spring lettuce 100% -> water 100% ->
    // diversity 125% -> 17 -> corn/lettuce companion 105% -> 17.
    assert_eq!(ledger.harvest_crop(6, 100), Ok(17));
    // Lettuce restores soil (+10 - 5 cost) and diversity adds 5 more.
    assert_eq!(ledger.farm_tiles[6].fertility, 90);
    // The companion bonus waters the plot.
    assert_eq!(ledger.water_levels[6], 75);
    assert_eq!(ledger.fiber, 11);
    assert_eq!(ledger.coins, 17);
}

#[test]
fn harvest_with_pattern_bonus() {
    let mut ledger = PlayerAccount::new();
    let season = SeasonState::new();
    // A full row of wheat through (1,0)..(1,4): monoculture row at the
    // middle cell, and a 4-window is impossible with one crop.
    for idx in [5u8, 6, 7, 8, 9] {
        assert_eq!(ledger.plant_crop(&season, idx, 1, 0), Ok(()));
    }
    // Base harvest value as in the lone-plot case: 96; the row bonus
    // multiplies by 115% -> 110.
    assert_eq!(ledger.harvest_crop(7, 50), Ok(110));
}
