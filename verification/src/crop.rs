//! Crop catalog and the yield calculator.
//!
//! A crop's yield decays linearly with the time elapsed since maturity,
//! then is scaled by soil fertility, by the season the crop was planted
//! in, and by the current soil moisture. All scaling factors are integer
//! percentages, applied by multiplying before floor-dividing by 100.

use vstd::prelude::*;
use vstd::arithmetic::div_mod::{lemma_div_is_ordered, lemma_div_multiples_vanish, lemma_div_pos_is_pos};
use vstd::arithmetic::mul::lemma_mul_inequality;
use crate::errors::FarmingError;

verus! {

/// A crop kind of the fixed catalog.
#[derive(Clone, Copy, Debug, PartialEq, Eq, Structural)]
pub enum CropType {
    Wheat,
    Tomato,
    Corn,
    Carrot,
    Lettuce,
}

/// Static configuration of a crop: growth timing, yield decay curve,
/// soil interaction and per-season modifiers (integer percentages).
#[derive(Clone, Copy, Debug)]
pub struct CropConfig {
    /// Seconds from planting to maturity.
    pub growth_time: i64,
    /// Seconds after maturity during which yield stays at `base_yield`.
    pub optimal_window: i64,
    /// Seconds after maturity at which yield has decayed to `min_yield`.
    pub max_decay_time: i64,
    /// Yield when harvested within the optimal window.
    pub base_yield: u32,
    /// Yield once fully decayed; time-based yield never drops below this.
    pub min_yield: u32,
    /// Fertility lost on harvest.
    pub fertility_cost: u8,
    /// True for crops that restore soil on harvest.
    pub is_restorative: bool,
    /// Number of visual growth stages.
    pub growth_stages: u8,
    /// Season indices in which the crop may be planted (first
    /// `valid_seasons_count` entries are meaningful).
    pub valid_seasons: [u8; 4],
    pub valid_seasons_count: u8,
    /// Growth speed modifier per season, in percent.
    pub growth_rate_modifiers: [u32; 4],
    /// Yield modifier per season, in percent.
    pub yield_modifiers: [u32; 4],
}

pub open spec fn spec_crop_type_from_u8(value: u8) -> Option<CropType> {
    match value {
        1u8 => Some(CropType::Wheat),
        2u8 => Some(CropType::Tomato),
        3u8 => Some(CropType::Corn),
        4u8 => Some(CropType::Carrot),
        5u8 => Some(CropType::Lettuce),
        _ => None,
    }
}

/// Decode a crop identifier; 0 (empty) and identifiers outside the
/// catalog yield `None`.
pub fn crop_type_from_u8(value: u8) -> (r: Option<CropType>)
    ensures
        r == spec_crop_type_from_u8(value),
{
    match value {
        1 => Some(CropType::Wheat),
        2 => Some(CropType::Tomato),
        3 => Some(CropType::Corn),
        4 => Some(CropType::Carrot),
        5 => Some(CropType::Lettuce),
        _ => None,
    }
}

pub open spec fn spec_config_of(crop: CropType) -> CropConfig {
    match crop {
        CropType::Wheat => CropConfig {
            growth_time: 30,
            optimal_window: 20,
            max_decay_time: 60,
            base_yield: 100,
            min_yield: 20,
            fertility_cost: 10,
            is_restorative: false,
            growth_stages: 4,
            valid_seasons: [0, 1, 3, 0],
            valid_seasons_count: 3,
            growth_rate_modifiers: [100, 80, 0, 120],
            yield_modifiers: [110, 90, 0, 100],
        },
        CropType::Tomato => CropConfig {
            growth_time: 45,
            optimal_window: 30,
            max_decay_time: 90,
            base_yield: 300,
            min_yield: 60,
            fertility_cost: 15,
            is_restorative: false,
            growth_stages: 4,
            valid_seasons: [1, 0, 0, 0],
            valid_seasons_count: 1,
            growth_rate_modifiers: [0, 100, 0, 0],
            yield_modifiers: [0, 100, 0, 0],
        },
        CropType::Corn => CropConfig {
            growth_time: 60,
            optimal_window: 40,
            max_decay_time: 120,
            base_yield: 500,
            min_yield: 100,
            fertility_cost: 20,
            is_restorative: false,
            growth_stages: 4,
            valid_seasons: [1, 0, 0, 0],
            valid_seasons_count: 1,
            growth_rate_modifiers: [0, 100, 0, 0],
            yield_modifiers: [0, 100, 0, 0],
        },
        CropType::Carrot => CropConfig {
            growth_time: 25,
            optimal_window: 15,
            max_decay_time: 50,
            base_yield: 150,
            min_yield: 30,
            fertility_cost: 5,
            is_restorative: true,
            growth_stages: 3,
            valid_seasons: [0, 1, 2, 3],
            valid_seasons_count: 4,
            growth_rate_modifiers: [100, 100, 110, 100],
            yield_modifiers: [100, 100, 100, 100],
        },
        CropType::Lettuce => CropConfig {
            growth_time: 20,
            optimal_window: 10,
            max_decay_time: 40,
            base_yield: 80,
            min_yield: 16,
            fertility_cost: 5,
            is_restorative: true,
            growth_stages: 3,
            valid_seasons: [0, 1, 2, 0],
            valid_seasons_count: 3,
            growth_rate_modifiers: [110, 80, 100, 0],
            yield_modifiers: [100, 90, 100, 0],
        },
    }
}

impl CropType {
    /// Look up the static configuration of this crop.
    pub fn get_config(&self) -> (r: CropConfig)
        ensures
            r == spec_config_of(*self),
    {
        match self {
            CropType::Wheat => wheat_config(),
            CropType::Tomato => tomato_config(),
            CropType::Corn => corn_config(),
            CropType::Carrot => carrot_config(),
            CropType::Lettuce => lettuce_config(),
        }
    }
}

/// The configuration of the crop with identifier `crop_type`, or `None`
/// for 0 (empty) and identifiers outside the catalog.
pub open spec fn spec_crop_config(crop_type: u8) -> Option<CropConfig> {
    match spec_crop_type_from_u8(crop_type) {
        Some(c) => Some(spec_config_of(c)),
        None => None,
    }
}

/// Look up a crop configuration by identifier; identifiers outside the
/// catalog fail with `InvalidCropType`.
pub fn get_crop_config(crop_type: u8) -> (r: Result<CropConfig, FarmingError>)
    ensures
        r matches Ok(cfg) ==> spec_crop_config(crop_type) == Some(cfg),
        r is Err <==> spec_crop_config(crop_type) is None,
        r matches Err(e) ==> e == FarmingError::InvalidCropType,
{
    match crop_type {
        1 => Ok(wheat_config()),
        2 => Ok(tomato_config()),
        3 => Ok(corn_config()),
        4 => Ok(carrot_config()),
        5 => Ok(lettuce_config()),
        _ => Err(FarmingError::InvalidCropType),
    }
}

impl CropConfig {
    /// Whether `season` is one of the first `valid_seasons_count` entries
    /// of `valid_seasons`.
    pub open spec fn spec_is_valid_season(self, season: u8) -> bool {
        exists|i: int|
            0 <= i < self.valid_seasons_count && i < 4 && self.valid_seasons@[i] == season
    }

    /// Whether the crop may be planted in the given season.
    pub fn is_valid_season(&self, season: u8) -> (r: bool)
        ensures
            r == self.spec_is_valid_season(season),
    {
        let count = if self.valid_seasons_count > 4 {
            4
        } else {
            self.valid_seasons_count
        };
        let mut i: usize = 0;
        while i < count as usize
            invariant
                0 <= i <= count <= 4,
                count <= self.valid_seasons_count,
                forall|j: int| 0 <= j < i ==> self.valid_seasons@[j] != season,
            decreases count as int - i as int,
        {
            if self.valid_seasons[i] == season {
                assert(self.spec_is_valid_season(season));
                return true;
            }
            i = i + 1;
        }
        assert(count < self.valid_seasons_count ==> self.valid_seasons_count > 4);
        false
    }
}

/// Time-based yield: `base_yield` within the optimal window, `min_yield`
/// once decay is complete, and in between a linear interpolation computed
/// by multiplying before dividing, floored at `min_yield`.
pub open spec fn spec_harvest_yield(
    time_since_mature: int,
    base_yield: int,
    optimal_window: int,
    max_decay_time: int,
    min_yield: int,
) -> int {
    if time_since_mature <= optimal_window {
        base_yield
    } else if time_since_mature >= max_decay_time {
        min_yield
    } else {
        let loss_potential = if base_yield > min_yield {
            base_yield - min_yield
        } else {
            0
        };
        let loss = loss_potential * (time_since_mature - optimal_window) / (max_decay_time
            - optimal_window);
        if base_yield - loss > min_yield {
            base_yield - loss
        } else {
            min_yield
        }
    }
}

/// Compute the time-based yield for a harvest `time_since_mature` seconds
/// past maturity. The interpolation multiplies before dividing so no
/// precision is lost; the result never drops below `min_yield` when
/// `base_yield >= min_yield`.
pub fn calculate_harvest_yield(
    time_since_mature: i64,
    base_yield: u32,
    optimal_window: i64,
    max_decay_time: i64,
    min_yield: u32,
) -> (r: Result<u32, FarmingError>)
    ensures
        r matches Ok(y) && y == spec_harvest_yield(
            time_since_mature as int,
            base_yield as int,
            optimal_window as int,
            max_decay_time as int,
            min_yield as int,
        ),
        min_yield <= base_yield ==> (r matches Ok(y) && min_yield <= y <= base_yield),
{
    if time_since_mature <= optimal_window {
        return Ok(base_yield);
    }
    if time_since_mature >= max_decay_time {
        return Ok(min_yield);
    }
    // Here optimal_window < time_since_mature < max_decay_time, so the
    // decay window is strictly positive and the defensive check on the
    // catalog data can never fire.
    let decay_window: i128 = max_decay_time as i128 - optimal_window as i128;
    if decay_window <= 0 {
        return Err(FarmingError::InvalidCropConfig);
    }
    let loss_potential: u64 = if base_yield > min_yield {
        (base_yield - min_yield) as u64
    } else {
        0
    };
    let time_into_decay: i128 = time_since_mature as i128 - optimal_window as i128;
    proof {
        let lp = loss_potential as int;
        let t = time_into_decay as int;
        assert(lp * t < 0x100000000_00000000_00000000) by (nonlinear_arith)
            requires
                0 <= lp < 0x100000000,
                0 <= t < 0x10000000000000000,
        ;
    }
    let product: u128 = (loss_potential as u128) * (time_into_decay as u128);
    let loss_wide: u128 = product / (decay_window as u128);
    proof {
        let lp = loss_potential as int;
        let t = time_into_decay as int;
        let w = decay_window as int;
        lemma_mul_inequality(t, w, lp);
        assert(t * lp == lp * t) by (nonlinear_arith);
        assert(w * lp == lp * w) by (nonlinear_arith);
        lemma_div_is_ordered(lp * t, lp * w, w);
        lemma_div_multiples_vanish(lp, w);
        lemma_div_pos_is_pos(lp * t, w);
        assert(loss_wide <= loss_potential);
    }
    let loss: u32 = loss_wide as u32;
    let final_yield: u32 = base_yield - loss;
    if final_yield > min_yield {
        Ok(final_yield)
    } else {
        Ok(min_yield)
    }
}

/// The fertility yield modifier in percent: a linear map from fertility
/// 0..=100 onto 40..=100, capped at 100.
pub open spec fn spec_fertility_modifier(fertility: int) -> int {
    let modifier = 40 + fertility * 60 / 100;
    if modifier > 100 {
        100
    } else {
        modifier
    }
}

/// Compute the fertility yield modifier: 40% at zero fertility rising
/// linearly to 100% at full fertility.
pub fn calculate_fertility_modifier(fertility: u8) -> (r: u32)
    ensures
        r == spec_fertility_modifier(fertility as int),
        40 <= r <= 100,
{
    let modifier: u32 = 40 + (fertility as u32) * 60 / 100;
    if modifier > 100 {
        100
    } else {
        modifier
    }
}

/// Time-based yield scaled by the fertility modifier, floored at half the
/// minimum yield.
pub open spec fn spec_yield_with_fertility(
    time_since_mature: int,
    base_yield: int,
    optimal_window: int,
    max_decay_time: int,
    min_yield: int,
    fertility: int,
) -> int {
    let time_based = spec_harvest_yield(
        time_since_mature,
        base_yield,
        optimal_window,
        max_decay_time,
        min_yield,
    );
    let scaled = time_based * spec_fertility_modifier(fertility) / 100;
    if scaled > min_yield / 2 {
        scaled
    } else {
        min_yield / 2
    }
}

/// Compute the harvest yield after both time decay and the fertility
/// modifier. The result never drops below `min_yield / 2`.
pub fn calculate_harvest_yield_with_fertility(
    time_since_mature: i64,
    base_yield: u32,
    optimal_window: i64,
    max_decay_time: i64,
    min_yield: u32,
    fertility: u8,
) -> (r: Result<u32, FarmingError>)
    ensures
        r matches Ok(y) && y == spec_yield_with_fertility(
            time_since_mature as int,
            base_yield as int,
            optimal_window as int,
            max_decay_time as int,
            min_yield as int,
            fertility as int,
        ),
        r matches Ok(y) && y >= min_yield / 2,
        min_yield <= base_yield ==> (r matches Ok(y) && y <= base_yield),
{
    let time_based = calculate_harvest_yield(
        time_since_mature,
        base_yield,
        optimal_window,
        max_decay_time,
        min_yield,
    )?;
    let fertility_modifier = calculate_fertility_modifier(fertility);
    proof {
        assert((time_based as int) * (fertility_modifier as int) <= 0xFFFFFFFF * 100)
            by (nonlinear_arith)
            requires
                time_based <= 0xFFFFFFFFu32,
                fertility_modifier <= 100u32,
        ;
    }
    let scaled_wide: u64 = (time_based as u64) * (fertility_modifier as u64) / 100;
    proof {
        let t = time_based as int;
        let m = fertility_modifier as int;
        lemma_mul_inequality(m, 100, t);
        lemma_div_is_ordered(t * m, t * 100, 100);
        lemma_div_multiples_vanish(t, 100);
        lemma_div_pos_is_pos(t * m, 100);
        assert(m * t == t * m) by (nonlinear_arith);
        assert(100 * t == t * 100) by (nonlinear_arith);
        assert(scaled_wide <= time_based);
    }
    let scaled: u32 = scaled_wide as u32;
    let floor: u32 = min_yield / 2;
    if scaled > floor {
        Ok(scaled)
    } else {
        Ok(floor)
    }
}

/// The full yield pipeline: time-decayed base yield scaled by the
/// fertility modifier, then by the season yield modifier, then by the
/// soil-moisture modifier, floored at half the minimum yield. All
/// factors are integer percentages applied by multiplying before
/// floor-dividing by 100.
pub open spec fn spec_full_yield(
    time_since_mature: int,
    base_yield: int,
    optimal_window: int,
    max_decay_time: int,
    min_yield: int,
    fertility: int,
    water_level: u8,
    season_yield_pct: int,
) -> int {
    let with_fertility = spec_yield_with_fertility(
        time_since_mature,
        base_yield,
        optimal_window,
        max_decay_time,
        min_yield,
        fertility,
    );
    let seasonal = with_fertility * season_yield_pct / 100;
    let watered = seasonal * crate::tools::spec_water_modifier(water_level) / 100;
    if watered > min_yield / 2 {
        watered
    } else {
        min_yield / 2
    }
}

/// Compute the coin yield of a harvest from the elapsed maturity time,
/// the crop's decay curve, soil fertility, soil moisture and the yield
/// modifier of the season the crop was planted in. The result never
/// drops below half the minimum yield, whatever the fertility, water
/// and season penalties.
pub fn compute_yield(
    time_since_mature: i64,
    base_yield: u32,
    optimal_window: i64,
    max_decay_time: i64,
    min_yield: u32,
    fertility: u8,
    water_level: u8,
    season_yield_pct: u32,
) -> (r: Result<u64, FarmingError>)
    ensures
        r matches Ok(y) && y == spec_full_yield(
            time_since_mature as int,
            base_yield as int,
            optimal_window as int,
            max_decay_time as int,
            min_yield as int,
            fertility as int,
            water_level,
            season_yield_pct as int,
        ),
        r matches Ok(y) && y >= min_yield / 2,
{
    let with_fertility = calculate_harvest_yield_with_fertility(
        time_since_mature,
        base_yield,
        optimal_window,
        max_decay_time,
        min_yield,
        fertility,
    )?;
    proof {
        assert((with_fertility as int) * (season_yield_pct as int) < 0x10000000000000000)
            by (nonlinear_arith)
            requires
                with_fertility <= 0xFFFFFFFFu32,
                season_yield_pct <= 0xFFFFFFFFu32,
        ;
    }
    let seasonal: u128 = (with_fertility as u128) * (season_yield_pct as u128) / 100;
    let water_modifier = crate::tools::get_water_modifier(water_level);
    proof {
        let sw = seasonal as int;
        let wm = water_modifier as int;
        lemma_mul_inequality(wm, 100, sw);
        assert(wm * sw == sw * wm) by (nonlinear_arith);
        assert(100 * sw == sw * 100) by (nonlinear_arith);
        lemma_div_is_ordered(sw * wm, sw * 100, 100);
        lemma_div_multiples_vanish(sw, 100);
        lemma_div_pos_is_pos(sw * wm, 100);
    }
    let watered_wide: u128 = seasonal * (water_modifier as u128) / 100;
    proof {
        assert(watered_wide <= seasonal);
        assert(seasonal <= 0xFFFFFFFFFFFFFFFF) by {
            lemma_div_is_ordered(
                (with_fertility as int) * (season_yield_pct as int),
                0xFFFFFFFFFFFFFFFFint * 100,
                100,
            );
            lemma_div_multiples_vanish(0xFFFFFFFFFFFFFFFFint, 100);
        }
    }
    let watered: u64 = watered_wide as u64;
    let floor: u64 = (min_yield / 2) as u64;
    if watered > floor {
        Ok(watered)
    } else {
        Ok(floor)
    }
}

/// Wheat: quick growing, short decay window.
fn wheat_config() -> (r: CropConfig)
    ensures
        r == spec_config_of(CropType::Wheat),
{
    CropConfig {
        growth_time: 30,
        optimal_window: 20,
        max_decay_time: 60,
        base_yield: 100,
        min_yield: 20,
        fertility_cost: 10,
        is_restorative: false,
        growth_stages: 4,
        valid_seasons: [0, 1, 3, 0],
        valid_seasons_count: 3,
        growth_rate_modifiers: [100, 80, 0, 120],
        yield_modifiers: [110, 90, 0, 100],
    }
}

/// Tomato: medium growth, summer only.
fn tomato_config() -> (r: CropConfig)
    ensures
        r == spec_config_of(CropType::Tomato),
{
    CropConfig {
        growth_time: 45,
        optimal_window: 30,
        max_decay_time: 90,
        base_yield: 300,
        min_yield: 60,
        fertility_cost: 15,
        is_restorative: false,
        growth_stages: 4,
        valid_seasons: [1, 0, 0, 0],
        valid_seasons_count: 1,
        growth_rate_modifiers: [0, 100, 0, 0],
        yield_modifiers: [0, 100, 0, 0],
    }
}

/// Corn: longest growth and decay window, summer only.
fn corn_config() -> (r: CropConfig)
    ensures
        r == spec_config_of(CropType::Corn),
{
    CropConfig {
        growth_time: 60,
        optimal_window: 40,
        max_decay_time: 120,
        base_yield: 500,
        min_yield: 100,
        fertility_cost: 20,
        is_restorative: false,
        growth_stages: 4,
        valid_seasons: [1, 0, 0, 0],
        valid_seasons_count: 1,
        growth_rate_modifiers: [0, 100, 0, 0],
        yield_modifiers: [0, 100, 0, 0],
    }
}

/// Carrot: fast growing, restores soil, plantable all year.
fn carrot_config() -> (r: CropConfig)
    ensures
        r == spec_config_of(CropType::Carrot),
{
    CropConfig {
        growth_time: 25,
        optimal_window: 15,
        max_decay_time: 50,
        base_yield: 150,
        min_yield: 30,
        fertility_cost: 5,
        is_restorative: true,
        growth_stages: 3,
        valid_seasons: [0, 1, 2, 3],
        valid_seasons_count: 4,
        growth_rate_modifiers: [100, 100, 110, 100],
        yield_modifiers: [100, 100, 100, 100],
    }
}

/// Lettuce: fastest growing and quickest to decay, restores soil.
fn lettuce_config() -> (r: CropConfig)
    ensures
        r == spec_config_of(CropType::Lettuce),
{
    CropConfig {
        growth_time: 20,
        optimal_window: 10,
        max_decay_time: 40,
        base_yield: 80,
        min_yield: 16,
        fertility_cost: 5,
        is_restorative: true,
        growth_stages: 3,
        valid_seasons: [0, 1, 2, 0],
        valid_seasons_count: 3,
        growth_rate_modifiers: [110, 80, 100, 0],
        yield_modifiers: [100, 90, 100, 0],
    }
}

} // verus!
