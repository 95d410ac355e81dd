//! Season clock: a global day counter and season index with a
//! configurable per-season length.

use vstd::prelude::*;
use crate::errors::FarmingError;

verus! {

/// Number of seasons in a year.
pub const NUM_SEASONS: u8 = 4;

/// Length of every season, in days.
pub const SEASON_LENGTH_DAYS: u32 = 30;

/// A season of the year.
#[derive(Clone, Copy, Debug, PartialEq, Eq, Structural)]
pub enum Season {
    Spring,
    Summer,
    Fall,
    Winter,
}

impl Season {
    pub open spec fn spec_from_u8(value: u8) -> Season {
        match value {
            0u8 => Season::Spring,
            1u8 => Season::Summer,
            2u8 => Season::Fall,
            _ => if value == 3 {
                Season::Winter
            } else {
                Season::Spring
            },
        }
    }

    /// Decode a season index; indices outside 0..=3 default to spring.
    pub fn from_u8(value: u8) -> (r: Season)
        ensures
            r == Season::spec_from_u8(value),
    {
        match value {
            0 => Season::Spring,
            1 => Season::Summer,
            2 => Season::Fall,
            3 => Season::Winter,
            _ => Season::Spring,
        }
    }

    /// The configured length of this season, in days.
    pub fn get_length_in_days(&self) -> (r: u32)
        ensures
            r == SEASON_LENGTH_DAYS,
    {
        SEASON_LENGTH_DAYS
    }
}

/// The global season clock.
#[derive(Clone, Copy, Debug)]
pub struct SeasonState {
    /// Current season index: 0 spring, 1 summer, 2 fall, 3 winter.
    pub current_season: u8,
    /// Monotonic day counter.
    pub days_passed: u32,
    /// Day on which the current season began.
    pub season_start_day: u32,
}

impl SeasonState {
    /// Well-formedness: the season index names a season and the current
    /// season began no later than today.
    pub open spec fn wf(self) -> bool {
        &&& self.current_season < 4
        &&& self.season_start_day <= self.days_passed
    }

    /// A fresh clock: day 0 of spring.
    pub fn new() -> (r: SeasonState)
        ensures
            r.wf(),
            r.current_season == 0,
            r.days_passed == 0,
            r.season_start_day == 0,
    {
        SeasonState { current_season: 0, days_passed: 0, season_start_day: 0 }
    }

    /// The configured length of the current season, in days.
    pub fn season_length(&self) -> (r: u32)
        ensures
            r == SEASON_LENGTH_DAYS,
    {
        SEASON_LENGTH_DAYS
    }

    /// Advance the clock by one day (the counter saturates at its
    /// maximum). When the current season has run its configured length
    /// the season wraps to the next of the four and restarts its count.
    pub fn advance_day(&mut self)
        requires
            old(self).wf(),
        ensures
            final(self).wf(),
            final(self).days_passed == if old(self).days_passed == u32::MAX {
                u32::MAX as int
            } else {
                old(self).days_passed + 1
            },
            if final(self).days_passed - old(self).season_start_day >= SEASON_LENGTH_DAYS {
                &&& final(self).current_season == (old(self).current_season + 1) % 4
                &&& final(self).season_start_day == final(self).days_passed
            } else {
                &&& final(self).current_season == old(self).current_season
                &&& final(self).season_start_day == old(self).season_start_day
            },
    {
        self.days_passed = if self.days_passed == u32::MAX {
            u32::MAX
        } else {
            self.days_passed + 1
        };
        let days_in_current_season = self.days_passed - self.season_start_day;
        if days_in_current_season >= self.season_length() {
            self.current_season = (self.current_season + 1) % NUM_SEASONS;
            self.season_start_day = self.days_passed;
        }
    }

    /// Administrative override: set the season directly, restarting its
    /// count at today; indices outside 0..=3 fail with
    /// `InvalidSeasonIndex` and change nothing.
    pub fn set_season(&mut self, new_season: u8) -> (r: Result<(), FarmingError>)
        requires
            old(self).wf(),
        ensures
            final(self).wf(),
            r is Err <==> new_season >= 4,
            r matches Err(e) ==> e == FarmingError::InvalidSeasonIndex && *final(self) == *old(
                self,
            ),
            r is Ok ==> *final(self) == (SeasonState {
                current_season: new_season,
                days_passed: old(self).days_passed,
                season_start_day: old(self).days_passed,
            }),
    {
        if new_season >= 4 {
            return Err(FarmingError::InvalidSeasonIndex);
        }
        self.current_season = new_season;
        self.season_start_day = self.days_passed;
        Ok(())
    }
}

} // verus!
