//! Library-wide laws, proved once and for all inputs.

use vstd::prelude::*;
use vstd::arithmetic::div_mod::{lemma_div_is_ordered, lemma_div_multiples_vanish, lemma_div_pos_is_pos};
use vstd::arithmetic::mul::lemma_mul_inequality;
use crate::crop::{spec_crop_type_from_u8, spec_full_yield, spec_harvest_yield};
use crate::pattern_detector::{
    spec_companion, spec_crop_at, spec_crop_diversity, spec_cross_pattern, spec_detected_patterns,
    spec_monoculture_block, spec_monoculture_row, spec_rotation_sequence,
};
use crate::player::FarmTile;
use crate::synergy::PatternType;

verus! {

/// Scaling by a non-negative percentage preserves order.
proof fn lemma_pct_monotone(a: int, b: int, pct: int)
    requires
        a <= b,
        0 <= pct,
    ensures
        a * pct / 100 <= b * pct / 100,
{
    lemma_mul_inequality(a, b, pct);
    lemma_div_is_ordered(a * pct, b * pct, 100);
}

/// The time-based yield always lies between the minimum and the base
/// yield (when the catalog orders them that way).
pub proof fn lemma_harvest_yield_bounds(
    elapsed: int,
    base_yield: int,
    optimal_window: int,
    max_decay_time: int,
    min_yield: int,
)
    requires
        0 <= min_yield <= base_yield,
    ensures
        min_yield <= spec_harvest_yield(
            elapsed,
            base_yield,
            optimal_window,
            max_decay_time,
            min_yield,
        ) <= base_yield,
{
    if elapsed <= optimal_window {
    } else if elapsed >= max_decay_time {
    } else {
        let lp = base_yield - min_yield;
        let t = elapsed - optimal_window;
        let w = max_decay_time - optimal_window;
        lemma_mul_inequality(t, w, lp);
        assert(t * lp == lp * t) by (nonlinear_arith);
        assert(w * lp == lp * w) by (nonlinear_arith);
        lemma_div_is_ordered(lp * t, lp * w, w);
        lemma_div_multiples_vanish(lp, w);
        lemma_div_pos_is_pos(lp * t, w);
    }
}

/// The time-based yield is non-increasing in the elapsed maturity time:
/// constant at the base yield inside the optimal window, falling
/// linearly through the decay window, constant at the minimum after it.
pub proof fn lemma_harvest_yield_antitone(
    e1: int,
    e2: int,
    base_yield: int,
    optimal_window: int,
    max_decay_time: int,
    min_yield: int,
)
    requires
        0 <= min_yield <= base_yield,
        e1 <= e2,
    ensures
        spec_harvest_yield(e2, base_yield, optimal_window, max_decay_time, min_yield)
            <= spec_harvest_yield(e1, base_yield, optimal_window, max_decay_time, min_yield),
{
    lemma_harvest_yield_bounds(e1, base_yield, optimal_window, max_decay_time, min_yield);
    lemma_harvest_yield_bounds(e2, base_yield, optimal_window, max_decay_time, min_yield);
    if optimal_window < e1 && e1 < max_decay_time && optimal_window < e2 && e2 < max_decay_time {
        let lp = base_yield - min_yield;
        let t1 = e1 - optimal_window;
        let t2 = e2 - optimal_window;
        let w = max_decay_time - optimal_window;
        lemma_mul_inequality(t1, t2, lp);
        assert(t1 * lp == lp * t1) by (nonlinear_arith);
        assert(t2 * lp == lp * t2) by (nonlinear_arith);
        lemma_div_is_ordered(lp * t1, lp * t2, w);
    }
}

/// Yield monotonicity: with the crop's curve, fertility, water level and
/// season modifier fixed, the full yield never rises as the elapsed
/// maturity time grows — it is constant before the optimal window ends
/// and non-increasing afterwards. (A catalog where the minimum yield
/// exceeded the base yield would break this; every real crop orders
/// them.)
pub proof fn lemma_yield_monotonic(
    e1: int,
    e2: int,
    base_yield: int,
    optimal_window: int,
    max_decay_time: int,
    min_yield: int,
    fertility: int,
    water_level: u8,
    season_yield_pct: int,
)
    requires
        0 <= min_yield <= base_yield,
        e1 <= e2,
        0 <= fertility,
        0 <= season_yield_pct,
    ensures
        spec_full_yield(
            e2,
            base_yield,
            optimal_window,
            max_decay_time,
            min_yield,
            fertility,
            water_level,
            season_yield_pct,
        ) <= spec_full_yield(
            e1,
            base_yield,
            optimal_window,
            max_decay_time,
            min_yield,
            fertility,
            water_level,
            season_yield_pct,
        ),
{
    let t1 = spec_harvest_yield(e1, base_yield, optimal_window, max_decay_time, min_yield);
    let t2 = spec_harvest_yield(e2, base_yield, optimal_window, max_decay_time, min_yield);
    lemma_harvest_yield_antitone(e1, e2, base_yield, optimal_window, max_decay_time, min_yield);
    let fm = crate::crop::spec_fertility_modifier(fertility);
    assert(fm >= 0) by {
        assert(fertility * 60 >= 0) by (nonlinear_arith)
            requires
                fertility >= 0,
        ;
        lemma_div_pos_is_pos(fertility * 60, 100);
    }
    lemma_pct_monotone(t2, t1, fm);
    let wf1 = crate::crop::spec_yield_with_fertility(
        e1,
        base_yield,
        optimal_window,
        max_decay_time,
        min_yield,
        fertility,
    );
    let wf2 = crate::crop::spec_yield_with_fertility(
        e2,
        base_yield,
        optimal_window,
        max_decay_time,
        min_yield,
        fertility,
    );
    assert(wf2 <= wf1);
    lemma_pct_monotone(wf2, wf1, season_yield_pct);
    let s1 = wf1 * season_yield_pct / 100;
    let s2 = wf2 * season_yield_pct / 100;
    lemma_pct_monotone(s2, s1, crate::tools::spec_water_modifier(water_level) as int);
}

/// Pattern symmetry on a uniform farm: on a grid fully planted with one
/// mature catalog crop, every interior cell matches the monoculture
/// row, monoculture block and cross patterns, and never the crop
/// diversity or rotation sequence patterns.
pub proof fn lemma_full_monoculture(tiles: Seq<FarmTile>, row: int, col: int, now: int, crop: u8)
    requires
        tiles.len() == 25,
        spec_crop_type_from_u8(crop) is Some,
        forall|i: int| 0 <= i < 25 ==> (#[trigger] tiles[i]).crop_type == crop,
        forall|i: int| 0 <= i < 25 ==> now >= (#[trigger] tiles[i]).planted_at
            + crate::actions::spec_config_of_id(crop).growth_time,
        1 <= row <= 3,
        1 <= col <= 3,
    ensures
        spec_monoculture_row(tiles, row, col, now),
        spec_monoculture_block(tiles, row, col, now),
        spec_cross_pattern(tiles, row, col, now),
        !spec_crop_diversity(tiles, row, col, now),
        !spec_rotation_sequence(tiles, row, col, now),
{
    reveal(spec_monoculture_row);
    reveal(spec_monoculture_block);
    reveal(spec_cross_pattern);
    reveal(spec_crop_diversity);
    reveal(crate::pattern_detector::spec_rotation_sequence_horizontal);
    reveal(crate::pattern_detector::spec_rotation_sequence_vertical);
    assert forall|r: int, c: int| 0 <= r < 5 && 0 <= c < 5 implies spec_crop_at(tiles, r, c, now)
        == Some(crop) by {
        assert(tiles[r * 5 + c].crop_type == crop) by {
            assert(0 <= r * 5 + c < 25) by (nonlinear_arith)
                requires
                    0 <= r < 5,
                    0 <= c < 5,
            ;
        }
    }
    assert(spec_crop_at(tiles, row, col - 1, now) == Some(crop));
    assert(spec_crop_at(tiles, row, col + 1, now) == Some(crop));
    assert(spec_crop_at(tiles, row - 1, col, now) == Some(crop));
    assert(spec_crop_at(tiles, row + 1, col, now) == Some(crop));
    assert(spec_crop_at(tiles, row + 1, col + 1, now) == Some(crop));
}

/// Preview idempotence: what a pattern preview reports is a function of
/// the grid and the probe time alone, so two previews of an unchanged
/// ledger report identical patterns and companion matches. (That a
/// preview cannot mutate the ledger is enforced by `check_patterns`
/// taking its ledger by shared reference.)
pub proof fn lemma_preview_idempotent(
    tiles: Seq<FarmTile>,
    row: int,
    col: int,
    now: int,
    first: (Seq<PatternType>, Option<u8>),
    second: (Seq<PatternType>, Option<u8>),
)
    requires
        first.0 == spec_detected_patterns(tiles, row, col, now),
        first.1 == spec_companion(tiles, row, col, now),
        second.0 == spec_detected_patterns(tiles, row, col, now),
        second.1 == spec_companion(tiles, row, col, now),
    ensures
        first == second,
{
}

} // verus!
