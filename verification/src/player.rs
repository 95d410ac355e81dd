//! The per-player ledger: the 5x5 farm grid, moisture tracking, tool and
//! resource counters, the single-slot crafting job and gather cooldowns.

use vstd::prelude::*;
use crate::errors::FarmingError;
use crate::recipes::CraftableItem;

verus! {

/// Number of plots on the farm grid (5 rows by 5 columns, row-major).
pub const TILE_COUNT: usize = 25;

/// One cell of the farm grid.
#[derive(Clone, Copy, Debug, PartialEq, Eq)]
pub struct FarmTile {
    /// Crop identifier in 1..=5, or 0 when the tile is empty.
    pub crop_type: u8,
    /// When a crop is present, the timestamp it was planted. On an empty
    /// tile this field holds the fallow reference time (see
    /// `leave_fallow`), 0 after clearing or harvesting.
    pub planted_at: i64,
    /// Soil quality percentage; 0 is a sentinel for "never initialized",
    /// otherwise clamped to 20..=100.
    pub fertility: u8,
    /// Most recently harvested crop identifier, for rotation bonuses;
    /// 0 when none.
    pub last_crop_type: u8,
    /// Reserved flag; always reset when the tile is cleared.
    pub restorative_bonus_used: bool,
    /// Season index captured at planting, used for yield modifiers.
    pub planted_in_season: Option<u8>,
}

/// Well-formedness of a single tile: fertility stays in 20..=100 once
/// initialized, timestamps are non-negative, and a planted tile holds a
/// catalog crop with initialized fertility and a valid planting season.
pub open spec fn tile_wf(t: FarmTile) -> bool {
    &&& t.fertility <= 100
    &&& t.fertility == 0 || t.fertility >= 20
    &&& t.planted_at >= 0
    &&& t.crop_type != 0 ==> crate::crop::spec_crop_type_from_u8(t.crop_type) is Some
    &&& t.crop_type != 0 ==> t.fertility >= 20
    &&& t.planted_in_season matches Some(s) ==> s < 4
    &&& t.crop_type == 0 ==> t.planted_in_season is None
}

/// The single in-flight timed crafting job.
#[derive(Clone, Copy, Debug, PartialEq, Eq)]
pub struct CraftingJob {
    pub item_id: u8,
    pub started_at: i64,
    pub duration: i64,
}

/// A player's complete persisted state.
#[derive(Clone, Copy, Debug)]
pub struct PlayerAccount {
    /// Accumulated coins; additions saturate.
    pub coins: u64,
    /// The 25 plots of the farm grid, row-major.
    pub farm_tiles: [FarmTile; 25],
    /// Soil moisture percentage per plot, 0..=100.
    pub water_levels: [u8; 25],
    /// Timestamp of the last watering per plot.
    pub last_watered: [i64; 25],
    /// Timestamp water decay was last applied.
    pub last_water_decay_check: i64,
    /// Watering-can uses remaining before a refill, at most 10.
    pub watering_can_uses: u8,
    /// Fertilizer items in inventory.
    pub fertilizer_count: u16,
    /// Premium seeds in inventory (reserved).
    pub premium_seeds: u16,
    /// Raw resources, each capped at its stack maximum.
    pub wood: u16,
    pub stone: u16,
    pub fiber: u16,
    pub seeds: u16,
    /// Crafted structures.
    pub compost_bin_count: u8,
    pub scarecrow_count: u8,
    pub fence_count: u8,
    pub sprinkler_count: u8,
    pub advanced_tools: u8,
    /// The one in-flight crafting job, if any.
    pub crafting_queue: Option<CraftingJob>,
    /// Gather cooldown timestamps, indexed by resource identifier;
    /// `None` until the first gather of that resource.
    pub last_gather_time: [Option<i64>; 4],
    /// Timestamp of the last compost collection.
    pub last_compost_collection: i64,
}

/// Mathematical model of a ledger: the fixed arrays as sequences, all
/// other fields as they are.
#[verifier::ext_equal]
pub struct LedgerModel {
    pub coins: u64,
    pub farm_tiles: Seq<FarmTile>,
    pub water_levels: Seq<u8>,
    pub last_watered: Seq<i64>,
    pub last_water_decay_check: i64,
    pub watering_can_uses: u8,
    pub fertilizer_count: u16,
    pub premium_seeds: u16,
    pub wood: u16,
    pub stone: u16,
    pub fiber: u16,
    pub seeds: u16,
    pub compost_bin_count: u8,
    pub scarecrow_count: u8,
    pub fence_count: u8,
    pub sprinkler_count: u8,
    pub advanced_tools: u8,
    pub crafting_queue: Option<CraftingJob>,
    pub last_gather_time: Seq<Option<i64>>,
    pub last_compost_collection: i64,
}

impl View for PlayerAccount {
    type V = LedgerModel;

    open spec fn view(&self) -> LedgerModel {
        LedgerModel {
            coins: self.coins,
            farm_tiles: self.farm_tiles@,
            water_levels: self.water_levels@,
            last_watered: self.last_watered@,
            last_water_decay_check: self.last_water_decay_check,
            watering_can_uses: self.watering_can_uses,
            fertilizer_count: self.fertilizer_count,
            premium_seeds: self.premium_seeds,
            wood: self.wood,
            stone: self.stone,
            fiber: self.fiber,
            seeds: self.seeds,
            compost_bin_count: self.compost_bin_count,
            scarecrow_count: self.scarecrow_count,
            fence_count: self.fence_count,
            sprinkler_count: self.sprinkler_count,
            advanced_tools: self.advanced_tools,
            crafting_queue: self.crafting_queue,
            last_gather_time: self.last_gather_time@,
            last_compost_collection: self.last_compost_collection,
        }
    }
}

impl PlayerAccount {
    /// Well-formedness of the whole ledger: every counter within its cap,
    /// every tile well formed, every timestamp non-negative, and any
    /// queued crafting job valid.
    pub open spec fn wf(self) -> bool {
        &&& forall|i: int| 0 <= i < 25 ==> tile_wf(#[trigger] self.farm_tiles@[i])
        &&& forall|i: int| 0 <= i < 25 ==> #[trigger] self.water_levels@[i] <= 100
        &&& forall|i: int| 0 <= i < 25 ==> #[trigger] self.last_watered@[i] >= 0
        &&& forall|i: int| 0 <= i < 4 ==> (#[trigger] self.last_gather_time@[i] matches Some(t)
            ==> t >= 0)
        &&& self.watering_can_uses <= 10
        &&& self.wood <= 999
        &&& self.stone <= 999
        &&& self.fiber <= 500
        &&& self.seeds <= 500
        &&& self.last_water_decay_check >= 0
        &&& self.last_compost_collection >= 0
        &&& self.crafting_queue matches Some(job) ==> {
            &&& job.started_at >= 0
            &&& job.duration >= 0
            &&& CraftableItem::spec_from_u8(job.item_id) is Some
        }
    }

    /// Reset this ledger to the starting state around the given grid:
    /// moisture at 70%, a full watering can and the starting resources.
    pub fn init(&mut self, tiles: [FarmTile; 25])
        ensures
            final(self)@ == (LedgerModel {
                coins: 0u64,
                farm_tiles: tiles@,
                water_levels: Seq::new(25, |i: int| 70u8),
                last_watered: Seq::new(25, |i: int| 0i64),
                last_water_decay_check: 0i64,
                watering_can_uses: 10u8,
                fertilizer_count: 5u16,
                premium_seeds: 0u16,
                wood: 10u16,
                stone: 5u16,
                fiber: 8u16,
                seeds: 0u16,
                compost_bin_count: 0u8,
                scarecrow_count: 0u8,
                fence_count: 0u8,
                sprinkler_count: 0u8,
                advanced_tools: 0u8,
                crafting_queue: None,
                last_gather_time: Seq::new(4, |i: int| None),
                last_compost_collection: 0i64,
            }),
            (forall|i: int| 0 <= i < 25 ==> tile_wf(#[trigger] tiles@[i])) ==> final(self).wf(),
    {
        self.coins = 0;
        self.farm_tiles = tiles;
        self.water_levels = [70; 25];
        self.last_watered = [0; 25];
        self.last_water_decay_check = 0;
        self.watering_can_uses = 10;
        self.fertilizer_count = 5;
        self.premium_seeds = 0;
        self.wood = 10;
        self.stone = 5;
        self.fiber = 8;
        self.seeds = 0;
        self.compost_bin_count = 0;
        self.scarecrow_count = 0;
        self.fence_count = 0;
        self.sprinkler_count = 0;
        self.advanced_tools = 0;
        self.crafting_queue = None;
        self.last_gather_time = [None; 4];
        self.last_compost_collection = 0;
        proof {
            assert(self.water_levels@ =~= Seq::new(25, |i: int| 70u8));
            assert(self.last_watered@ =~= Seq::new(25, |i: int| 0i64));
            assert(self.last_gather_time@ =~= Seq::new(4, |i: int| None::<i64>));
        }
    }

    /// A fresh ledger: empty tiles at the starting fertility of 80,
    /// moisture at 70%, a full watering can and the starting resources.
    pub fn new() -> (r: PlayerAccount)
        ensures
            r.wf(),
            r.coins == 0,
            forall|i: int| 0 <= i < 25 ==> #[trigger] r.farm_tiles@[i] == (FarmTile {
                crop_type: 0u8,
                planted_at: 0i64,
                fertility: 80u8,
                last_crop_type: 0u8,
                restorative_bonus_used: false,
                planted_in_season: None::<u8>,
            }),
            forall|i: int| 0 <= i < 25 ==> #[trigger] r.water_levels@[i] == 70,
            forall|i: int| 0 <= i < 25 ==> #[trigger] r.last_watered@[i] == 0,
            r.last_water_decay_check == 0,
            r.watering_can_uses == 10,
            r.fertilizer_count == 5,
            r.premium_seeds == 0,
            r.wood == 10,
            r.stone == 5,
            r.fiber == 8,
            r.seeds == 0,
            r.compost_bin_count == 0,
            r.scarecrow_count == 0,
            r.fence_count == 0,
            r.sprinkler_count == 0,
            r.advanced_tools == 0,
            r.crafting_queue is None,
            forall|i: int| 0 <= i < 4 ==> #[trigger] r.last_gather_time@[i] is None,
            r.last_compost_collection == 0,
    {
        let starting_tile = FarmTile {
            crop_type: 0,
            planted_at: 0,
            fertility: 80,
            last_crop_type: 0,
            restorative_bonus_used: false,
            planted_in_season: None,
        };
        PlayerAccount {
            coins: 0,
            farm_tiles: [starting_tile; 25],
            water_levels: [70; 25],
            last_watered: [0; 25],
            last_water_decay_check: 0,
            watering_can_uses: 10,
            fertilizer_count: 5,
            premium_seeds: 0,
            wood: 10,
            stone: 5,
            fiber: 8,
            seeds: 0,
            compost_bin_count: 0,
            scarecrow_count: 0,
            fence_count: 0,
            sprinkler_count: 0,
            advanced_tools: 0,
            crafting_queue: None,
            last_gather_time: [None; 4],
            last_compost_collection: 0,
        }
    }

    /// Whether a crafting job is queued.
    pub fn is_crafting(&self) -> (r: bool)
        ensures
            r == (self.crafting_queue is Some),
    {
        self.crafting_queue.is_some()
    }

    /// Whether the queued crafting job (if any) has run for its full
    /// duration by `current_time`.
    pub open spec fn spec_crafting_complete(self, current_time: i64) -> bool {
        match self.crafting_queue {
            Some(job) => current_time >= job.started_at + job.duration,
            None => false,
        }
    }

    /// Whether the queued crafting job is complete; false when no job is
    /// queued.
    pub fn crafting_complete(&self, current_time: i64) -> (r: bool)
        ensures
            r == self.spec_crafting_complete(current_time),
    {
        match &self.crafting_queue {
            Some(job) => {
                match job.started_at.checked_add(job.duration) {
                    Some(ends_at) => current_time >= ends_at,
                    // The sum overflowed i64: past its positive end when
                    // `started_at` is non-negative, past its negative end
                    // otherwise.
                    None => job.started_at < 0,
                }
            },
            None => false,
        }
    }

    /// The counter for a raw resource identifier (0 wood, 1 stone,
    /// 2 fiber, 3 seeds).
    pub open spec fn spec_resource_count(self, resource_type: u8) -> u16 {
        match resource_type {
            0u8 => self.wood,
            1u8 => self.stone,
            2u8 => self.fiber,
            3u8 => self.seeds,
            _ => 0u16,
        }
    }
}

/// Resource counters (wood, stone, fiber, seeds) after deducting a list
/// of costs in order, each deduction saturating at zero.
pub open spec fn spec_deduct_costs(
    wood: int,
    stone: int,
    fiber: int,
    seeds: int,
    costs: Seq<(u8, u16)>,
) -> (int, int, int, int)
    decreases costs.len(),
{
    if costs.len() == 0 {
        (wood, stone, fiber, seeds)
    } else {
        let (t, amount) = costs[0];
        let rest = costs.skip(1);
        if t == 0 {
            spec_deduct_costs(if wood >= amount { wood - amount } else { 0 }, stone, fiber, seeds, rest)
        } else if t == 1 {
            spec_deduct_costs(wood, if stone >= amount { stone - amount } else { 0 }, fiber, seeds, rest)
        } else if t == 2 {
            spec_deduct_costs(wood, stone, if fiber >= amount { fiber - amount } else { 0 }, seeds, rest)
        } else if t == 3 {
            spec_deduct_costs(wood, stone, fiber, if seeds >= amount { seeds - amount } else { 0 }, rest)
        } else {
            spec_deduct_costs(wood, stone, fiber, seeds, rest)
        }
    }
}

/// Deducting costs never raises a counter and never drives one negative.
pub proof fn lemma_deduct_costs_bounds(w: int, s: int, f: int, sd: int, costs: Seq<(u8, u16)>)
    requires
        0 <= w,
        0 <= s,
        0 <= f,
        0 <= sd,
    ensures
        ({
            let (w2, s2, f2, sd2) = spec_deduct_costs(w, s, f, sd, costs);
            0 <= w2 <= w && 0 <= s2 <= s && 0 <= f2 <= f && 0 <= sd2 <= sd
        }),
    decreases costs.len(),
{
    if costs.len() == 0 {
    } else {
        let (t, amount) = costs[0];
        let rest = costs.skip(1);
        if t == 0 {
            lemma_deduct_costs_bounds(
                if w >= amount {
                    w - amount
                } else {
                    0
                },
                s,
                f,
                sd,
                rest,
            );
        } else if t == 1 {
            lemma_deduct_costs_bounds(
                w,
                if s >= amount {
                    s - amount
                } else {
                    0
                },
                f,
                sd,
                rest,
            );
        } else if t == 2 {
            lemma_deduct_costs_bounds(
                w,
                s,
                if f >= amount {
                    f - amount
                } else {
                    0
                },
                sd,
                rest,
            );
        } else if t == 3 {
            lemma_deduct_costs_bounds(
                w,
                s,
                f,
                if sd >= amount {
                    sd - amount
                } else {
                    0
                },
                rest,
            );
        } else {
            lemma_deduct_costs_bounds(w, s, f, sd, rest);
        }
    }
}

/// The error a resource-consumption validation pass reports, scanning the
/// cost list in order against the ledger's current counters: `None` when
/// every entry names a valid resource the ledger holds enough of.
pub open spec fn spec_consume_error(ledger: PlayerAccount, costs: Seq<(u8, u16)>, k: int) -> Option<
    FarmingError,
>
    decreases costs.len() - k,
{
    if k < 0 || k >= costs.len() {
        None
    } else {
        let (t, amount) = costs[k];
        if t >= 4 {
            Some(FarmingError::InvalidResourceType)
        } else if ledger.spec_resource_count(t) < amount {
            Some(FarmingError::InsufficientResources)
        } else {
            spec_consume_error(ledger, costs, k + 1)
        }
    }
}

impl PlayerAccount {
    /// Atomically consume recipe inputs: first validate that every listed
    /// resource is present in sufficient quantity, then deduct them all.
    /// On any failure no counter changes.
    pub fn consume_resources(&mut self, resource_costs: &[(u8, u16)]) -> (r: Result<
        (),
        FarmingError,
    >)
        ensures
            r is Ok <==> spec_consume_error(*old(self), resource_costs@, 0) is None,
            r matches Err(e) ==> {
                &&& Some(e) == spec_consume_error(*old(self), resource_costs@, 0)
                &&& *final(self) == *old(self)
            },
            r is Ok ==> {
                let (w, s, f, sd) = spec_deduct_costs(
                    old(self).wood as int,
                    old(self).stone as int,
                    old(self).fiber as int,
                    old(self).seeds as int,
                    resource_costs@,
                );
                final(self)@ == (LedgerModel {
                    wood: w as u16,
                    stone: s as u16,
                    fiber: f as u16,
                    seeds: sd as u16,
                    ..old(self)@
                })
            },
            r is Ok ==> final(self).wood <= old(self).wood && final(self).stone <= old(self).stone
                && final(self).fiber <= old(self).fiber && final(self).seeds <= old(self).seeds,
    {
        // Validation pass: nothing is deducted unless every entry passes.
        let n = resource_costs.len();
        let mut k: usize = 0;
        while k < n
            invariant
                n == resource_costs@.len(),
                0 <= k <= n,
                spec_consume_error(*self, resource_costs@, 0) == spec_consume_error(
                    *self,
                    resource_costs@,
                    k as int,
                ),
            decreases n - k,
        {
            let (t, amount) = resource_costs[k];
            if t >= 4 {
                return Err(FarmingError::InvalidResourceType);
            }
            let have = if t == 0 {
                self.wood
            } else if t == 1 {
                self.stone
            } else if t == 2 {
                self.fiber
            } else {
                self.seeds
            };
            if have < amount {
                return Err(FarmingError::InsufficientResources);
            }
            k = k + 1;
        }
        // Deduction pass.
        let ghost pre = *self;
        proof {
            assert(resource_costs@.skip(0) =~= resource_costs@);
        }
        let mut k: usize = 0;
        while k < n
            invariant
                n == resource_costs@.len(),
                0 <= k <= n,
                spec_deduct_costs(
                    pre.wood as int,
                    pre.stone as int,
                    pre.fiber as int,
                    pre.seeds as int,
                    resource_costs@,
                ) == spec_deduct_costs(
                    self.wood as int,
                    self.stone as int,
                    self.fiber as int,
                    self.seeds as int,
                    resource_costs@.skip(k as int),
                ),
                *self == (PlayerAccount {
                    wood: self.wood,
                    stone: self.stone,
                    fiber: self.fiber,
                    seeds: self.seeds,
                    ..pre
                }),
            decreases n - k,
        {
            let (t, amount) = resource_costs[k];
            proof {
                assert(resource_costs@.skip(k as int)[0] == resource_costs@[k as int]);
                assert(resource_costs@.skip(k as int).skip(1) =~= resource_costs@.skip(
                    k as int + 1,
                ));
            }
            if t == 0 {
                self.wood = saturating_sub_u16(self.wood, amount);
            } else if t == 1 {
                self.stone = saturating_sub_u16(self.stone, amount);
            } else if t == 2 {
                self.fiber = saturating_sub_u16(self.fiber, amount);
            } else if t == 3 {
                self.seeds = saturating_sub_u16(self.seeds, amount);
            }
            k = k + 1;
        }
        proof {
            assert(resource_costs@.skip(n as int) =~= Seq::<(u8, u16)>::empty());
            lemma_deduct_costs_bounds(
                pre.wood as int,
                pre.stone as int,
                pre.fiber as int,
                pre.seeds as int,
                resource_costs@,
            );
        }
        Ok(())
    }

    /// The tile at a (row, col) grid position, or `None` out of bounds.
    pub fn get_plot(&self, row: usize, col: usize) -> (r: Option<&FarmTile>)
        ensures
            r is Some <==> row < 5 && col < 5,
            r matches Some(t) ==> *t == self.farm_tiles@[row as int * 5 + col as int],
    {
        if row >= 5 || col >= 5 {
            return None;
        }
        Some(&self.farm_tiles[row * 5 + col])
    }
}

/// `a - b`, stopping at zero.
pub fn saturating_sub_u16(a: u16, b: u16) -> (r: u16)
    ensures
        r == if a >= b {
            a - b
        } else {
            0
        },
{
    if a >= b {
        a - b
    } else {
        0
    }
}

} // verus!
