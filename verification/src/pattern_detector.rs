//! Pattern detector: scans the 5x5 grid around a target cell for the
//! seven spatial crop arrangements and for companion-planting pairs.
//!
//! A cell contributes to a pattern only if it holds a catalog crop that
//! is mature at the probe time; empty, immature and out-of-bounds cells
//! are treated as absent. Neighbor coordinates are computed with signed
//! arithmetic so an out-of-range coordinate is "no crop", never a
//! wrapped index.

use vstd::prelude::*;
use crate::crop::spec_crop_config;
use crate::player::FarmTile;
use crate::synergy::{spec_is_companion_pair, PatternType};

verus! {

/// The crop visible to the detector at (row, col): its identifier when
/// the cell is in bounds, planted with a catalog crop, and mature at
/// `now`; `None` otherwise.
pub open spec fn spec_crop_at(tiles: Seq<FarmTile>, row: int, col: int, now: int) -> Option<u8>
    recommends
        tiles.len() == 25,
{
    if 0 <= row < 5 && 0 <= col < 5 {
        let t = tiles[row * 5 + col];
        if t.crop_type != 0 {
            match spec_crop_config(t.crop_type) {
                Some(cfg) => if now >= t.planted_at + cfg.growth_time {
                    Some(t.crop_type)
                } else {
                    None
                },
                None => None,
            }
        } else {
            None
        }
    } else {
        None
    }
}

/// 3 or more contiguous cells of the center's crop run through the
/// center, along its row or along its column: some 3-window containing
/// the center is entirely that crop.
#[verifier::opaque]
pub open spec fn spec_monoculture_row(tiles: Seq<FarmTile>, row: int, col: int, now: int) -> bool {
    match spec_crop_at(tiles, row, col, now) {
        Some(c) => {
            ||| (spec_crop_at(tiles, row, col - 2, now) == Some(c) && spec_crop_at(
                tiles,
                row,
                col - 1,
                now,
            ) == Some(c))
            ||| (spec_crop_at(tiles, row, col - 1, now) == Some(c) && spec_crop_at(
                tiles,
                row,
                col + 1,
                now,
            ) == Some(c))
            ||| (spec_crop_at(tiles, row, col + 1, now) == Some(c) && spec_crop_at(
                tiles,
                row,
                col + 2,
                now,
            ) == Some(c))
            ||| (spec_crop_at(tiles, row - 2, col, now) == Some(c) && spec_crop_at(
                tiles,
                row - 1,
                col,
                now,
            ) == Some(c))
            ||| (spec_crop_at(tiles, row - 1, col, now) == Some(c) && spec_crop_at(
                tiles,
                row + 1,
                col,
                now,
            ) == Some(c))
            ||| (spec_crop_at(tiles, row + 1, col, now) == Some(c) && spec_crop_at(
                tiles,
                row + 2,
                col,
                now,
            ) == Some(c))
        },
        None => false,
    }
}

/// The center cell is part of some 2x2 block of its own crop: one of the
/// four block placements containing it is entirely that crop.
#[verifier::opaque]
pub open spec fn spec_monoculture_block(tiles: Seq<FarmTile>, row: int, col: int, now: int) -> bool {
    match spec_crop_at(tiles, row, col, now) {
        Some(c) => {
            ||| (spec_crop_at(tiles, row, col + 1, now) == Some(c) && spec_crop_at(
                tiles,
                row + 1,
                col,
                now,
            ) == Some(c) && spec_crop_at(tiles, row + 1, col + 1, now) == Some(c))
            ||| (spec_crop_at(tiles, row, col - 1, now) == Some(c) && spec_crop_at(
                tiles,
                row + 1,
                col - 1,
                now,
            ) == Some(c) && spec_crop_at(tiles, row + 1, col, now) == Some(c))
            ||| (spec_crop_at(tiles, row - 1, col, now) == Some(c) && spec_crop_at(
                tiles,
                row - 1,
                col + 1,
                now,
            ) == Some(c) && spec_crop_at(tiles, row, col + 1, now) == Some(c))
            ||| (spec_crop_at(tiles, row - 1, col - 1, now) == Some(c) && spec_crop_at(
                tiles,
                row - 1,
                col,
                now,
            ) == Some(c) && spec_crop_at(tiles, row, col - 1, now) == Some(c))
        },
        None => false,
    }
}

/// All 4 orthogonal neighbors exist, are mature, differ from the center
/// crop and are pairwise distinct.
#[verifier::opaque]
pub open spec fn spec_crop_diversity(tiles: Seq<FarmTile>, row: int, col: int, now: int) -> bool {
    match spec_crop_at(tiles, row, col, now) {
        Some(c) => {
            let up = spec_crop_at(tiles, row - 1, col, now);
            let down = spec_crop_at(tiles, row + 1, col, now);
            let left = spec_crop_at(tiles, row, col - 1, now);
            let right = spec_crop_at(tiles, row, col + 1, now);
            &&& up is Some
            &&& down is Some
            &&& left is Some
            &&& right is Some
            &&& up != Some(c)
            &&& down != Some(c)
            &&& left != Some(c)
            &&& right != Some(c)
            &&& up != down
            &&& up != left
            &&& up != right
            &&& down != left
            &&& down != right
            &&& left != right
        },
        None => false,
    }
}

/// All 4 orthogonal neighbors exist and match the center crop exactly.
#[verifier::opaque]
pub open spec fn spec_cross_pattern(tiles: Seq<FarmTile>, row: int, col: int, now: int) -> bool {
    match spec_crop_at(tiles, row, col, now) {
        Some(c) => {
            &&& spec_crop_at(tiles, row - 1, col, now) == Some(c)
            &&& spec_crop_at(tiles, row + 1, col, now) == Some(c)
            &&& spec_crop_at(tiles, row, col - 1, now) == Some(c)
            &&& spec_crop_at(tiles, row, col + 1, now) == Some(c)
        },
        None => false,
    }
}

/// The 3x3 window anchored at (sr, sc) alternates between exactly two
/// mature crops in checkerboard parity, both present.
pub open spec fn spec_checkerboard_window(tiles: Seq<FarmTile>, sr: int, sc: int, now: int) -> bool {
    let a = spec_crop_at(tiles, sr, sc, now);
    let b = spec_crop_at(tiles, sr, sc + 1, now);
    &&& a is Some
    &&& b is Some
    &&& a != b
    &&& spec_crop_at(tiles, sr, sc + 2, now) == a
    &&& spec_crop_at(tiles, sr + 1, sc + 1, now) == a
    &&& spec_crop_at(tiles, sr + 2, sc, now) == a
    &&& spec_crop_at(tiles, sr + 2, sc + 2, now) == a
    &&& spec_crop_at(tiles, sr + 1, sc, now) == b
    &&& spec_crop_at(tiles, sr + 1, sc + 2, now) == b
    &&& spec_crop_at(tiles, sr + 2, sc + 1, now) == b
}

/// Some 3x3 window containing the target cell is a checkerboard of two
/// crops (all nine placements around the target are tried; windows that
/// leave the grid contain an absent cell and cannot match).
#[verifier::opaque]
pub open spec fn spec_checkerboard(tiles: Seq<FarmTile>, row: int, col: int, now: int) -> bool {
    ||| spec_checkerboard_window(tiles, row - 2, col - 2, now)
    ||| spec_checkerboard_window(tiles, row - 2, col - 1, now)
    ||| spec_checkerboard_window(tiles, row - 2, col, now)
    ||| spec_checkerboard_window(tiles, row - 1, col - 2, now)
    ||| spec_checkerboard_window(tiles, row - 1, col - 1, now)
    ||| spec_checkerboard_window(tiles, row - 1, col, now)
    ||| spec_checkerboard_window(tiles, row, col - 2, now)
    ||| spec_checkerboard_window(tiles, row, col - 1, now)
    ||| spec_checkerboard_window(tiles, row, col, now)
}

/// The cell at (row, col) holds a mature crop different from `center`.
pub open spec fn spec_cell_differs(
    tiles: Seq<FarmTile>,
    row: int,
    col: int,
    now: int,
    center: u8,
) -> bool {
    match spec_crop_at(tiles, row, col, now) {
        Some(x) => x != center,
        None => false,
    }
}

/// All 8 king's-move neighbors exist, are mature and differ from the
/// center crop (they may repeat among themselves).
#[verifier::opaque]
pub open spec fn spec_perimeter_defense(tiles: Seq<FarmTile>, row: int, col: int, now: int) -> bool {
    match spec_crop_at(tiles, row, col, now) {
        Some(c) => {
            &&& spec_cell_differs(tiles, row - 1, col - 1, now, c)
            &&& spec_cell_differs(tiles, row - 1, col, now, c)
            &&& spec_cell_differs(tiles, row - 1, col + 1, now, c)
            &&& spec_cell_differs(tiles, row, col - 1, now, c)
            &&& spec_cell_differs(tiles, row, col + 1, now, c)
            &&& spec_cell_differs(tiles, row + 1, col - 1, now, c)
            &&& spec_cell_differs(tiles, row + 1, col, now, c)
            &&& spec_cell_differs(tiles, row + 1, col + 1, now, c)
        },
        None => false,
    }
}

/// The horizontal 4-window starting at column `s` of row `row` holds
/// four mature, pairwise distinct crops.
pub open spec fn spec_rotation_window_h(tiles: Seq<FarmTile>, row: int, s: int, now: int) -> bool {
    let c0 = spec_crop_at(tiles, row, s, now);
    let c1 = spec_crop_at(tiles, row, s + 1, now);
    let c2 = spec_crop_at(tiles, row, s + 2, now);
    let c3 = spec_crop_at(tiles, row, s + 3, now);
    &&& c0 is Some
    &&& c1 is Some
    &&& c2 is Some
    &&& c3 is Some
    &&& c0 != c1
    &&& c0 != c2
    &&& c0 != c3
    &&& c1 != c2
    &&& c1 != c3
    &&& c2 != c3
}

/// The vertical 4-window starting at row `s` of column `col` holds four
/// mature, pairwise distinct crops.
pub open spec fn spec_rotation_window_v(tiles: Seq<FarmTile>, s: int, col: int, now: int) -> bool {
    let c0 = spec_crop_at(tiles, s, col, now);
    let c1 = spec_crop_at(tiles, s + 1, col, now);
    let c2 = spec_crop_at(tiles, s + 2, col, now);
    let c3 = spec_crop_at(tiles, s + 3, col, now);
    &&& c0 is Some
    &&& c1 is Some
    &&& c2 is Some
    &&& c3 is Some
    &&& c0 != c1
    &&& c0 != c2
    &&& c0 != c3
    &&& c1 != c2
    &&& c1 != c3
    &&& c2 != c3
}

/// Some horizontal 4-window through the target holds four pairwise
/// distinct mature crops.
#[verifier::opaque]
pub open spec fn spec_rotation_sequence_horizontal(
    tiles: Seq<FarmTile>,
    row: int,
    col: int,
    now: int,
) -> bool {
    ||| spec_rotation_window_h(tiles, row, col - 3, now)
    ||| spec_rotation_window_h(tiles, row, col - 2, now)
    ||| spec_rotation_window_h(tiles, row, col - 1, now)
    ||| spec_rotation_window_h(tiles, row, col, now)
}

/// Some vertical 4-window through the target holds four pairwise
/// distinct mature crops.
#[verifier::opaque]
pub open spec fn spec_rotation_sequence_vertical(
    tiles: Seq<FarmTile>,
    row: int,
    col: int,
    now: int,
) -> bool {
    ||| spec_rotation_window_v(tiles, row - 3, col, now)
    ||| spec_rotation_window_v(tiles, row - 2, col, now)
    ||| spec_rotation_window_v(tiles, row - 1, col, now)
    ||| spec_rotation_window_v(tiles, row, col, now)
}

/// A 4-length contiguous run through the target, horizontal or vertical,
/// of pairwise distinct mature crops.
pub open spec fn spec_rotation_sequence(tiles: Seq<FarmTile>, row: int, col: int, now: int) -> bool {
    ||| spec_rotation_sequence_horizontal(tiles, row, col, now)
    ||| spec_rotation_sequence_vertical(tiles, row, col, now)
}

/// One scan step of the companion search: if the neighbor holds a mature
/// crop forming a companion pair with `center`, that crop; otherwise the
/// result of the rest of the scan.
pub open spec fn spec_companion_step(center: u8, neighbor: Option<u8>, otherwise: Option<u8>) -> Option<u8> {
    match neighbor {
        Some(u) => if spec_is_companion_pair(center, u) {
            Some(u)
        } else {
            otherwise
        },
        None => otherwise,
    }
}

/// The companion crop reported for the target cell: the first orthogonal
/// neighbor, in scan order up, down, left, right, whose mature crop
/// forms a companion pair with the center crop.
#[verifier::opaque]
pub open spec fn spec_companion(tiles: Seq<FarmTile>, row: int, col: int, now: int) -> Option<u8> {
    match spec_crop_at(tiles, row, col, now) {
        Some(c) => spec_companion_step(
            c,
            spec_crop_at(tiles, row - 1, col, now),
            spec_companion_step(
                c,
                spec_crop_at(tiles, row + 1, col, now),
                spec_companion_step(
                    c,
                    spec_crop_at(tiles, row, col - 1, now),
                    spec_companion_step(c, spec_crop_at(tiles, row, col + 1, now), None),
                ),
            ),
        ),
        None => None,
    }
}

/// The patterns detected at the target cell, in enumeration order.
pub open spec fn spec_detected_patterns(tiles: Seq<FarmTile>, row: int, col: int, now: int) -> Seq<
    PatternType,
> {
    (if spec_monoculture_row(tiles, row, col, now) {
        seq![PatternType::MonocultureRow]
    } else {
        seq![]
    }) + (if spec_monoculture_block(tiles, row, col, now) {
        seq![PatternType::MonocultureBlock]
    } else {
        seq![]
    }) + (if spec_crop_diversity(tiles, row, col, now) {
        seq![PatternType::CropDiversity]
    } else {
        seq![]
    }) + (if spec_cross_pattern(tiles, row, col, now) {
        seq![PatternType::CrossPattern]
    } else {
        seq![]
    }) + (if spec_checkerboard(tiles, row, col, now) {
        seq![PatternType::Checkerboard]
    } else {
        seq![]
    }) + (if spec_perimeter_defense(tiles, row, col, now) {
        seq![PatternType::PerimeterDefense]
    } else {
        seq![]
    }) + (if spec_rotation_sequence(tiles, row, col, now) {
        seq![PatternType::RotationSequence]
    } else {
        seq![]
    })
}

/// Pattern detector over a 25-tile grid snapshot.
pub struct PatternDetector;

impl PatternDetector {
    /// The crop visible to the detector at a signed (row, col), `None`
    /// out of bounds.
    fn crop_at_signed(plots: &[FarmTile; 25], row: i64, col: i64, current_time: i64) -> (r: Option<
        u8,
    >)
        ensures
            r == spec_crop_at(plots@, row as int, col as int, current_time as int),
    {
        if row < 0 || row >= 5 || col < 0 || col >= 5 {
            return None;
        }
        let idx: usize = (row * 5 + col) as usize;
        let tile = &plots[idx];
        if tile.crop_type == 0 {
            return None;
        }
        match crate::crop::get_crop_config(tile.crop_type) {
            Ok(config) => {
                match tile.planted_at.checked_add(config.growth_time) {
                    Some(mature_at) => if current_time >= mature_at {
                        Some(tile.crop_type)
                    } else {
                        None
                    },
                    // The maturity time overflowed i64: unreachably far in
                    // the future when `planted_at` is non-negative, already
                    // passed otherwise.
                    None => if tile.planted_at < 0 {
                        Some(tile.crop_type)
                    } else {
                        None
                    },
                }
            },
            Err(_) => None,
        }
    }

    /// Whether the cell at a signed (row, col) holds the mature crop `c`.
    fn cell_is(plots: &[FarmTile; 25], row: i64, col: i64, current_time: i64, c: u8) -> (r: bool)
        ensures
            r == (spec_crop_at(plots@, row as int, col as int, current_time as int) == Some(c)),
    {
        match Self::crop_at_signed(plots, row, col, current_time) {
            Some(x) => x == c,
            None => false,
        }
    }

    /// The crop at a grid position: `None` if out of bounds, empty or
    /// not yet mature at `current_time`.
    pub fn get_crop_at(plots: &[FarmTile; 25], row: usize, col: usize, current_time: i64) -> (r:
        Option<u8>)
        ensures
            r == spec_crop_at(plots@, row as int, col as int, current_time as int),
    {
        if row >= 5 || col >= 5 {
            return None;
        }
        Self::crop_at_signed(plots, row as i64, col as i64, current_time)
    }

    /// Check for 3 or more contiguous same-crop cells through the target,
    /// along its row or its column.
    pub fn check_monoculture_row(
        plots: &[FarmTile; 25],
        row: usize,
        col: usize,
        current_time: i64,
    ) -> (r: bool)
        ensures
            r == spec_monoculture_row(plots@, row as int, col as int, current_time as int),
    {
        proof {
            reveal(spec_monoculture_row);
        }
        let c = match Self::get_crop_at(plots, row, col, current_time) {
            Some(c) => c,
            None => {
                return false;
            },
        };
        let ri = row as i64;
        let ci = col as i64;
        (Self::cell_is(plots, ri, ci - 2, current_time, c) && Self::cell_is(
            plots,
            ri,
            ci - 1,
            current_time,
            c,
        )) || (Self::cell_is(plots, ri, ci - 1, current_time, c) && Self::cell_is(
            plots,
            ri,
            ci + 1,
            current_time,
            c,
        )) || (Self::cell_is(plots, ri, ci + 1, current_time, c) && Self::cell_is(
            plots,
            ri,
            ci + 2,
            current_time,
            c,
        )) || (Self::cell_is(plots, ri - 2, ci, current_time, c) && Self::cell_is(
            plots,
            ri - 1,
            ci,
            current_time,
            c,
        )) || (Self::cell_is(plots, ri - 1, ci, current_time, c) && Self::cell_is(
            plots,
            ri + 1,
            ci,
            current_time,
            c,
        )) || (Self::cell_is(plots, ri + 1, ci, current_time, c) && Self::cell_is(
            plots,
            ri + 2,
            ci,
            current_time,
            c,
        ))
    }

    /// Check whether the target is part of any 2x2 all-same-crop block.
    pub fn check_monoculture_block(
        plots: &[FarmTile; 25],
        row: usize,
        col: usize,
        current_time: i64,
    ) -> (r: bool)
        ensures
            r == spec_monoculture_block(plots@, row as int, col as int, current_time as int),
    {
        proof {
            reveal(spec_monoculture_block);
        }
        let c = match Self::get_crop_at(plots, row, col, current_time) {
            Some(c) => c,
            None => {
                return false;
            },
        };
        let ri = row as i64;
        let ci = col as i64;
        (Self::cell_is(plots, ri, ci + 1, current_time, c) && Self::cell_is(
            plots,
            ri + 1,
            ci,
            current_time,
            c,
        ) && Self::cell_is(plots, ri + 1, ci + 1, current_time, c)) || (Self::cell_is(
            plots,
            ri,
            ci - 1,
            current_time,
            c,
        ) && Self::cell_is(plots, ri + 1, ci - 1, current_time, c) && Self::cell_is(
            plots,
            ri + 1,
            ci,
            current_time,
            c,
        )) || (Self::cell_is(plots, ri - 1, ci, current_time, c) && Self::cell_is(
            plots,
            ri - 1,
            ci + 1,
            current_time,
            c,
        ) && Self::cell_is(plots, ri, ci + 1, current_time, c)) || (Self::cell_is(
            plots,
            ri - 1,
            ci - 1,
            current_time,
            c,
        ) && Self::cell_is(plots, ri - 1, ci, current_time, c) && Self::cell_is(
            plots,
            ri,
            ci - 1,
            current_time,
            c,
        ))
    }

    /// Check whether all 4 orthogonal neighbors exist, differ from the
    /// center crop and are pairwise distinct.
    pub fn check_crop_diversity(
        plots: &[FarmTile; 25],
        row: usize,
        col: usize,
        current_time: i64,
    ) -> (r: bool)
        ensures
            r == spec_crop_diversity(plots@, row as int, col as int, current_time as int),
    {
        proof {
            reveal(spec_crop_diversity);
        }
        let c = match Self::get_crop_at(plots, row, col, current_time) {
            Some(c) => c,
            None => {
                return false;
            },
        };
        let ri = row as i64;
        let ci = col as i64;
        let up = Self::crop_at_signed(plots, ri - 1, ci, current_time);
        let down = Self::crop_at_signed(plots, ri + 1, ci, current_time);
        let left = Self::crop_at_signed(plots, ri, ci - 1, current_time);
        let right = Self::crop_at_signed(plots, ri, ci + 1, current_time);
        match (up, down, left, right) {
            (Some(u), Some(d), Some(l), Some(rt)) => u != c && d != c && l != c && rt != c && u != d
                && u != l && u != rt && d != l && d != rt && l != rt,
            _ => false,
        }
    }

    /// Check whether all 4 orthogonal neighbors match the center crop.
    pub fn check_cross_pattern(
        plots: &[FarmTile; 25],
        row: usize,
        col: usize,
        current_time: i64,
    ) -> (r: bool)
        ensures
            r == spec_cross_pattern(plots@, row as int, col as int, current_time as int),
    {
        proof {
            reveal(spec_cross_pattern);
        }
        let c = match Self::get_crop_at(plots, row, col, current_time) {
            Some(c) => c,
            None => {
                return false;
            },
        };
        let ri = row as i64;
        let ci = col as i64;
        Self::cell_is(plots, ri - 1, ci, current_time, c) && Self::cell_is(
            plots,
            ri + 1,
            ci,
            current_time,
            c,
        ) && Self::cell_is(plots, ri, ci - 1, current_time, c) && Self::cell_is(
            plots,
            ri,
            ci + 1,
            current_time,
            c,
        )
    }

    /// Whether the 3x3 window anchored at a signed (sr, sc) alternates
    /// between exactly two mature crops in checkerboard parity.
    fn checkerboard_window(plots: &[FarmTile; 25], sr: i64, sc: i64, current_time: i64) -> (r: bool)
        requires
            -4 <= sr <= 4,
            -4 <= sc <= 4,
        ensures
            r == spec_checkerboard_window(plots@, sr as int, sc as int, current_time as int),
    {
        let a = match Self::crop_at_signed(plots, sr, sc, current_time) {
            Some(a) => a,
            None => {
                return false;
            },
        };
        let b = match Self::crop_at_signed(plots, sr, sc + 1, current_time) {
            Some(b) => b,
            None => {
                return false;
            },
        };
        a != b && Self::cell_is(plots, sr, sc + 2, current_time, a) && Self::cell_is(
            plots,
            sr + 1,
            sc + 1,
            current_time,
            a,
        ) && Self::cell_is(plots, sr + 2, sc, current_time, a) && Self::cell_is(
            plots,
            sr + 2,
            sc + 2,
            current_time,
            a,
        ) && Self::cell_is(plots, sr + 1, sc, current_time, b) && Self::cell_is(
            plots,
            sr + 1,
            sc + 2,
            current_time,
            b,
        ) && Self::cell_is(plots, sr + 2, sc + 1, current_time, b)
    }

    /// Check whether some 3x3 window containing the target alternates
    /// between exactly two crops in checkerboard parity.
    pub fn check_checkerboard(
        plots: &[FarmTile; 25],
        row: usize,
        col: usize,
        current_time: i64,
    ) -> (r: bool)
        ensures
            r == spec_checkerboard(plots@, row as int, col as int, current_time as int),
    {
        proof {
            reveal(spec_checkerboard);
        }
        if row >= 5 || col >= 5 {
            // Every window through an out-of-grid target contains an
            // absent cell.
            proof {
                assert(!spec_checkerboard(plots@, row as int, col as int, current_time as int));
            }
            return false;
        }
        let ri = row as i64;
        let ci = col as i64;
        Self::checkerboard_window(plots, ri - 2, ci - 2, current_time) || Self::checkerboard_window(
            plots,
            ri - 2,
            ci - 1,
            current_time,
        ) || Self::checkerboard_window(plots, ri - 2, ci, current_time)
            || Self::checkerboard_window(plots, ri - 1, ci - 2, current_time)
            || Self::checkerboard_window(plots, ri - 1, ci - 1, current_time)
            || Self::checkerboard_window(plots, ri - 1, ci, current_time)
            || Self::checkerboard_window(plots, ri, ci - 2, current_time)
            || Self::checkerboard_window(plots, ri, ci - 1, current_time)
            || Self::checkerboard_window(plots, ri, ci, current_time)
    }

    /// Whether the cell at a signed (row, col) holds a mature crop
    /// different from `center`.
    fn cell_differs(plots: &[FarmTile; 25], row: i64, col: i64, current_time: i64, center: u8) -> (r:
        bool)
        ensures
            r == spec_cell_differs(plots@, row as int, col as int, current_time as int, center),
    {
        match Self::crop_at_signed(plots, row, col, current_time) {
            Some(x) => x != center,
            None => false,
        }
    }

    /// Check whether all 8 king's-move neighbors exist and differ from
    /// the center crop.
    pub fn check_perimeter_defense(
        plots: &[FarmTile; 25],
        row: usize,
        col: usize,
        current_time: i64,
    ) -> (r: bool)
        ensures
            r == spec_perimeter_defense(plots@, row as int, col as int, current_time as int),
    {
        proof {
            reveal(spec_perimeter_defense);
        }
        let c = match Self::get_crop_at(plots, row, col, current_time) {
            Some(c) => c,
            None => {
                return false;
            },
        };
        let ri = row as i64;
        let ci = col as i64;
        Self::cell_differs(plots, ri - 1, ci - 1, current_time, c) && Self::cell_differs(
            plots,
            ri - 1,
            ci,
            current_time,
            c,
        ) && Self::cell_differs(plots, ri - 1, ci + 1, current_time, c) && Self::cell_differs(
            plots,
            ri,
            ci - 1,
            current_time,
            c,
        ) && Self::cell_differs(plots, ri, ci + 1, current_time, c) && Self::cell_differs(
            plots,
            ri + 1,
            ci - 1,
            current_time,
            c,
        ) && Self::cell_differs(plots, ri + 1, ci, current_time, c) && Self::cell_differs(
            plots,
            ri + 1,
            ci + 1,
            current_time,
            c,
        )
    }

    /// Whether the horizontal 4-window starting at a signed column `s`
    /// holds four pairwise distinct mature crops.
    fn rotation_window_h(plots: &[FarmTile; 25], row: i64, s: i64, current_time: i64) -> (r: bool)
        requires
            -4 <= row <= 4,
            -4 <= s <= 4,
        ensures
            r == spec_rotation_window_h(plots@, row as int, s as int, current_time as int),
    {
        let c0 = Self::crop_at_signed(plots, row, s, current_time);
        let c1 = Self::crop_at_signed(plots, row, s + 1, current_time);
        let c2 = Self::crop_at_signed(plots, row, s + 2, current_time);
        let c3 = Self::crop_at_signed(plots, row, s + 3, current_time);
        match (c0, c1, c2, c3) {
            (Some(a), Some(b), Some(c), Some(d)) => a != b && a != c && a != d && b != c && b != d
                && c != d,
            _ => false,
        }
    }

    /// Whether the vertical 4-window starting at a signed row `s` holds
    /// four pairwise distinct mature crops.
    fn rotation_window_v(plots: &[FarmTile; 25], s: i64, col: i64, current_time: i64) -> (r: bool)
        requires
            -4 <= s <= 4,
            -4 <= col <= 4,
        ensures
            r == spec_rotation_window_v(plots@, s as int, col as int, current_time as int),
    {
        let c0 = Self::crop_at_signed(plots, s, col, current_time);
        let c1 = Self::crop_at_signed(plots, s + 1, col, current_time);
        let c2 = Self::crop_at_signed(plots, s + 2, col, current_time);
        let c3 = Self::crop_at_signed(plots, s + 3, col, current_time);
        match (c0, c1, c2, c3) {
            (Some(a), Some(b), Some(c), Some(d)) => a != b && a != c && a != d && b != c && b != d
                && c != d,
            _ => false,
        }
    }

    /// Check for a horizontal 4-run of pairwise distinct crops through
    /// the target.
    pub fn check_rotation_sequence_horizontal(
        plots: &[FarmTile; 25],
        row: usize,
        col: usize,
        current_time: i64,
    ) -> (r: bool)
        ensures
            r == spec_rotation_sequence_horizontal(
                plots@,
                row as int,
                col as int,
                current_time as int,
            ),
    {
        proof {
            reveal(spec_rotation_sequence_horizontal);
        }
        if row >= 5 || col >= 5 {
            return false;
        }
        let ri = row as i64;
        let ci = col as i64;
        Self::rotation_window_h(plots, ri, ci - 3, current_time) || Self::rotation_window_h(
            plots,
            ri,
            ci - 2,
            current_time,
        ) || Self::rotation_window_h(plots, ri, ci - 1, current_time) || Self::rotation_window_h(
            plots,
            ri,
            ci,
            current_time,
        )
    }

    /// Check for a vertical 4-run of pairwise distinct crops through the
    /// target.
    pub fn check_rotation_sequence_vertical(
        plots: &[FarmTile; 25],
        row: usize,
        col: usize,
        current_time: i64,
    ) -> (r: bool)
        ensures
            r == spec_rotation_sequence_vertical(
                plots@,
                row as int,
                col as int,
                current_time as int,
            ),
    {
        proof {
            reveal(spec_rotation_sequence_vertical);
        }
        if row >= 5 || col >= 5 {
            return false;
        }
        let ri = row as i64;
        let ci = col as i64;
        Self::rotation_window_v(plots, ri - 3, ci, current_time) || Self::rotation_window_v(
            plots,
            ri - 2,
            ci,
            current_time,
        ) || Self::rotation_window_v(plots, ri - 1, ci, current_time) || Self::rotation_window_v(
            plots,
            ri,
            ci,
            current_time,
        )
    }

    /// Check for a 4-length contiguous run, horizontal or vertical, of
    /// pairwise distinct crops through the target.
    pub fn check_rotation_sequence(
        plots: &[FarmTile; 25],
        row: usize,
        col: usize,
        current_time: i64,
    ) -> (r: bool)
        ensures
            r == spec_rotation_sequence(plots@, row as int, col as int, current_time as int),
    {
        Self::check_rotation_sequence_horizontal(plots, row, col, current_time)
            || Self::check_rotation_sequence_vertical(plots, row, col, current_time)
    }

    /// Detect all patterns at a grid position, in enumeration order.
    pub fn detect_patterns(
        plots: &[FarmTile; 25],
        harvest_row: usize,
        harvest_col: usize,
        current_time: i64,
    ) -> (r: Vec<PatternType>)
        ensures
            r@ == spec_detected_patterns(
                plots@,
                harvest_row as int,
                harvest_col as int,
                current_time as int,
            ),
    {
        let mut detected: Vec<PatternType> = Vec::new();
        if Self::check_monoculture_row(plots, harvest_row, harvest_col, current_time) {
            detected.push(PatternType::MonocultureRow);
        }
        if Self::check_monoculture_block(plots, harvest_row, harvest_col, current_time) {
            detected.push(PatternType::MonocultureBlock);
        }
        if Self::check_crop_diversity(plots, harvest_row, harvest_col, current_time) {
            detected.push(PatternType::CropDiversity);
        }
        if Self::check_cross_pattern(plots, harvest_row, harvest_col, current_time) {
            detected.push(PatternType::CrossPattern);
        }
        if Self::check_checkerboard(plots, harvest_row, harvest_col, current_time) {
            detected.push(PatternType::Checkerboard);
        }
        if Self::check_perimeter_defense(plots, harvest_row, harvest_col, current_time) {
            detected.push(PatternType::PerimeterDefense);
        }
        if Self::check_rotation_sequence(plots, harvest_row, harvest_col, current_time) {
            detected.push(PatternType::RotationSequence);
        }
        proof {
            assert(detected@ =~= spec_detected_patterns(
                plots@,
                harvest_row as int,
                harvest_col as int,
                current_time as int,
            ));
        }
        detected
    }

    /// Whether two crop identifiers form a companion pair of the synergy
    /// table.
    fn is_companion_pair(a: u8, b: u8) -> (r: bool)
        ensures
            r == spec_is_companion_pair(a, b),
    {
        let ca = match crate::crop::crop_type_from_u8(a) {
            Some(c) => c,
            None => {
                return false;
            },
        };
        let cb = match crate::crop::crop_type_from_u8(b) {
            Some(c) => c,
            None => {
                return false;
            },
        };
        crate::synergy::get_companion_bonus(ca, cb).is_some()
    }

    /// Find a companion-planting match: the first orthogonal neighbor, in
    /// scan order up, down, left, right, whose crop pairs with the
    /// center crop in the synergy table.
    pub fn check_companion_planting(
        plots: &[FarmTile; 25],
        row: usize,
        col: usize,
        current_time: i64,
    ) -> (r: Option<u8>)
        ensures
            r == spec_companion(plots@, row as int, col as int, current_time as int),
            r matches Some(u) ==> spec_is_companion_pair(
                plots@[row as int * 5 + col as int].crop_type,
                u,
            ),
    {
        proof {
            reveal(spec_companion);
        }
        let c = match Self::get_crop_at(plots, row, col, current_time) {
            Some(c) => c,
            None => {
                return None;
            },
        };
        let ri = row as i64;
        let ci = col as i64;
        if let Some(u) = Self::crop_at_signed(plots, ri - 1, ci, current_time) {
            if Self::is_companion_pair(c, u) {
                return Some(u);
            }
        }
        if let Some(u) = Self::crop_at_signed(plots, ri + 1, ci, current_time) {
            if Self::is_companion_pair(c, u) {
                return Some(u);
            }
        }
        if let Some(u) = Self::crop_at_signed(plots, ri, ci - 1, current_time) {
            if Self::is_companion_pair(c, u) {
                return Some(u);
            }
        }
        if let Some(u) = Self::crop_at_signed(plots, ri, ci + 1, current_time) {
            if Self::is_companion_pair(c, u) {
                return Some(u);
            }
        }
        None
    }
}

} // verus!
