use vstd::prelude::*;

use crate::items::{ItemDatabase, ItemDefinition, ItemType};

verus! {

/// Growth stage of a crop.
#[derive(Debug, Clone, Copy, PartialEq, Eq, Structural, Hash)]
pub enum GrowthStage {
    /// Just planted, seed visible.
    Seed,
    /// Small sprout.
    Sprout,
    /// Growing plant.
    Growing,
    /// Almost mature.
    Mature,
    /// Ready to harvest.
    Harvestable,
    /// Dead (from neglect or wrong season).
    Dead,
}

impl Default for GrowthStage {
    /// A crop starts as a seed.
    fn default() -> (r: Self)
        ensures
            r == GrowthStage::Seed,
    {
        GrowthStage::Seed
    }
}

impl GrowthStage {
    /// The next growth stage, if there is one.
    pub fn next(self) -> (r: Option<GrowthStage>)
        ensures
            r == (match self {
                GrowthStage::Seed => Some(GrowthStage::Sprout),
                GrowthStage::Sprout => Some(GrowthStage::Growing),
                GrowthStage::Growing => Some(GrowthStage::Mature),
                GrowthStage::Mature => Some(GrowthStage::Harvestable),
                GrowthStage::Harvestable | GrowthStage::Dead => None::<GrowthStage>,
            }),
    {
        match self {
            GrowthStage::Seed => Some(GrowthStage::Sprout),
            GrowthStage::Sprout => Some(GrowthStage::Growing),
            GrowthStage::Growing => Some(GrowthStage::Mature),
            GrowthStage::Mature => Some(GrowthStage::Harvestable),
            GrowthStage::Harvestable | GrowthStage::Dead => None,
        }
    }

    /// Whether a crop at this stage can be harvested.
    pub fn can_harvest(self) -> (r: bool)
        ensures
            r == (self == GrowthStage::Harvestable),
    {
        self == GrowthStage::Harvestable
    }

    /// Whether a crop at this stage is alive.
    pub fn is_alive(self) -> (r: bool)
        ensures
            r == (self != GrowthStage::Dead),
    {
        self != GrowthStage::Dead
    }
}

/// The stage a crop shows after growing for `days_growing` of
/// `days_to_mature` days: each quarter of the growth time advances one
/// stage, and a crop whose time is up (or that needs no time at all) is
/// harvestable.
pub open spec fn stage_for_days(days_growing: u32, days_to_mature: u32) -> GrowthStage {
    if days_to_mature == 0 || days_growing >= days_to_mature {
        GrowthStage::Harvestable
    } else if 4 * (days_growing as int) >= 3 * (days_to_mature as int) {
        GrowthStage::Mature
    } else if 2 * (days_growing as int) >= days_to_mature as int {
        GrowthStage::Growing
    } else if 4 * (days_growing as int) >= days_to_mature as int {
        GrowthStage::Sprout
    } else {
        GrowthStage::Seed
    }
}

/// A planted crop.
#[derive(Debug, Clone)]
pub struct Crop {
    /// The crop item id (what the harvest yields).
    pub crop_id: String,
    /// The seed item id that was planted.
    pub seed_id: String,
    /// Current growth stage.
    pub stage: GrowthStage,
    /// Days since planted.
    pub days_growing: u32,
    /// Total days needed to mature.
    pub days_to_mature: u32,
    /// Whether the crop was watered today.
    pub watered_today: bool,
    /// Consecutive days without water.
    pub days_without_water: u32,
    /// Whether this crop regrows after harvest.
    pub regrows: bool,
    /// Seasons in which this crop can grow (empty = all seasons).
    pub valid_seasons: Vec<String>,
}

impl Crop {
    /// Whether the crop survives in the given season: either it grows in
    /// every season, or the season is among its valid ones.
    pub open spec fn spec_can_grow_in_season(self, season: Seq<char>) -> bool {
        self.valid_seasons@.len() == 0 || exists|k: int|
            0 <= k < self.valid_seasons@.len() && (#[trigger] self.valid_seasons@[k]@) == season
    }

    /// Create a crop from a seed definition in the item database: the id
    /// must name a seed whose `grows_into` crop is itself defined; the crop
    /// starts unwatered at the seed stage with the target's growth time
    /// (four days when none is given).
    pub fn from_seed(seed_id: &String, db: &ItemDatabase) -> (r: Option<Crop>)
        requires
            db.wf(),
        ensures
            match r {
                Some(c) => {
                    &&& db.spec_get(seed_id@) matches Some(seed)
                    &&& seed.item_type == ItemType::Seed
                    &&& seed.grows_into matches Some(gi)
                    &&& db.spec_get(gi@) matches Some(crop_def)
                    &&& c.crop_id@ == gi@
                    &&& c.seed_id@ == seed_id@
                    &&& c.stage == GrowthStage::Seed
                    &&& c.days_growing == 0
                    &&& c.days_to_mature == (match crop_def.growth_days {
                        Some(g) => g,
                        None => 4u32,
                    })
                    &&& c.watered_today == false
                    &&& c.days_without_water == 0
                    &&& c.regrows == crop_def.regrows
                    &&& c.valid_seasons@ == seed.seasons@
                },
                None => !{
                    &&& db.spec_get(seed_id@) matches Some(seed)
                    &&& seed.item_type == ItemType::Seed
                    &&& seed.grows_into matches Some(gi)
                    &&& db.spec_get(gi@) is Some
                },
            },
    {
        let seed: &ItemDefinition = match db.get(seed_id) {
            Some(s) => s,
            None => {
                return None;
            },
        };

        // Only seeds can be planted.
        if !seed.is_seed() {
            return None;
        }

        // The crop this seed grows into.
        let crop_id: String = match seed.grows_into.as_ref() {
            Some(c) => c.clone(),
            None => {
                return None;
            },
        };

        // The crop's definition carries the growth time.
        let crop_def: &ItemDefinition = match db.get(&crop_id) {
            Some(d) => d,
            None => {
                return None;
            },
        };

        let days_to_mature: u32 = match crop_def.growth_days {
            Some(g) => g,
            None => 4,
        };

        let mut valid_seasons: Vec<String> = Vec::new();
        let mut k: usize = 0;
        while k < seed.seasons.len()
            invariant
                k <= seed.seasons@.len(),
                valid_seasons@.len() == k,
                forall|j: int| 0 <= j < k ==> (#[trigger] valid_seasons@[j]) == seed.seasons@[j],
            decreases seed.seasons@.len() - k,
        {
            valid_seasons.push(seed.seasons[k].clone());
            k = k + 1;
        }
        proof {
            assert(valid_seasons@ =~= seed.seasons@);
        }

        Some(
            Crop {
                crop_id,
                seed_id: seed_id.clone(),
                stage: GrowthStage::Seed,
                days_growing: 0,
                days_to_mature,
                watered_today: false,
                days_without_water: 0,
                regrows: crop_def.regrows,
                valid_seasons,
            },
        )
    }

    /// Whether the crop can grow in the given season.
    pub fn can_grow_in_season(&self, season: &String) -> (r: bool)
        ensures
            r == self.spec_can_grow_in_season(season@),
    {
        if self.valid_seasons.len() == 0 {
            return true;
        }
        let mut k: usize = 0;
        while k < self.valid_seasons.len()
            invariant
                k <= self.valid_seasons@.len(),
                forall|j: int| 0 <= j < k ==> (#[trigger] self.valid_seasons@[j]@) != season@,
            decreases self.valid_seasons@.len() - k,
        {
            if self.valid_seasons[k] == *season {
                return true;
            }
            k = k + 1;
        }
        false
    }

    /// Water the crop for today.
    pub fn water(&mut self)
        ensures
            *final(self) == (Crop { watered_today: true, days_without_water: 0, ..*old(self) }),
    {
        self.watered_today = true;
        self.days_without_water = 0;
    }

    /// Advance one day. A crop in the wrong season dies; an unwatered crop
    /// gains a dry day and dies after three of them; a freshly watered,
    /// living crop grows one day and moves to the stage its progress has
    /// reached. Returns whether the stage advanced.
    pub fn advance_day(&mut self, current_season: &String) -> (grew: bool)
        requires
            old(self).days_without_water < u32::MAX,
            old(self).days_growing < u32::MAX,
        ensures
            !old(self).spec_can_grow_in_season(current_season@) ==> {
                &&& !grew
                &&& *final(self) == (Crop { stage: GrowthStage::Dead, ..*old(self) })
            },
            old(self).spec_can_grow_in_season(current_season@) && !old(self).watered_today && old(
                self,
            ).days_without_water + 1 >= 3 ==> {
                &&& !grew
                &&& *final(self) == (Crop {
                    stage: GrowthStage::Dead,
                    days_without_water: (old(self).days_without_water + 1) as u32,
                    ..*old(self)
                })
            },
            old(self).spec_can_grow_in_season(current_season@) && !old(self).watered_today && old(
                self,
            ).days_without_water + 1 < 3 ==> {
                &&& !grew
                &&& *final(self) == (Crop {
                    watered_today: false,
                    days_without_water: (old(self).days_without_water + 1) as u32,
                    ..*old(self)
                })
            },
            (old(self).spec_can_grow_in_season(current_season@) && old(self).watered_today) ==> {
                &&& final(self).watered_today == false
                &&& final(self).days_without_water == old(self).days_without_water
                &&& (old(self).days_without_water == 0 && old(self).stage != GrowthStage::Dead
                    && old(self).stage != GrowthStage::Harvestable) ==> {
                    &&& final(self).days_growing == old(self).days_growing + 1
                    &&& final(self).stage == stage_for_days(
                        final(self).days_growing,
                        old(self).days_to_mature,
                    )
                    &&& grew == (final(self).stage != old(self).stage)
                }
                &&& !(old(self).days_without_water == 0 && old(self).stage != GrowthStage::Dead
                    && old(self).stage != GrowthStage::Harvestable) ==> {
                    &&& final(self).days_growing == old(self).days_growing
                    &&& final(self).stage == old(self).stage
                    &&& !grew
                }
                &&& final(self).crop_id == old(self).crop_id
                &&& final(self).seed_id == old(self).seed_id
                &&& final(self).days_to_mature == old(self).days_to_mature
                &&& final(self).regrows == old(self).regrows
                &&& final(self).valid_seasons == old(self).valid_seasons
            },
    {
        // A crop in the wrong season dies at once.
        if !self.can_grow_in_season(current_season) {
            self.stage = GrowthStage::Dead;
            return false;
        }

        // Track water: three dry days in a row kill the crop.
        if !self.watered_today {
            self.days_without_water = self.days_without_water + 1;
            if self.days_without_water >= 3 {
                self.stage = GrowthStage::Dead;
                return false;
            }
        }

        // Reset the watered flag for the coming day.
        self.watered_today = false;

        // Only grow when watered yesterday.
        if self.days_without_water == 0 && self.stage.is_alive() && !self.stage.can_harvest() {
            self.days_growing = self.days_growing + 1;
            let new_stage = self.stage_for_progress();
            if new_stage != self.stage {
                self.stage = new_stage;
                return true;
            }
        }

        false
    }

    /// The stage the crop's growth progress has reached.
    fn stage_for_progress(&self) -> (r: GrowthStage)
        ensures
            r == stage_for_days(self.days_growing, self.days_to_mature),
    {
        let dg = self.days_growing as u64;
        let dtm = self.days_to_mature as u64;
        if dtm == 0 || dg >= dtm {
            GrowthStage::Harvestable
        } else if 4 * dg >= 3 * dtm {
            GrowthStage::Mature
        } else if 2 * dg >= dtm {
            GrowthStage::Growing
        } else if 4 * dg >= dtm {
            GrowthStage::Sprout
        } else {
            GrowthStage::Seed
        }
    }

    /// Harvest the crop. Only a harvestable crop yields its crop id; a
    /// regrowing crop falls back to the growing stage with four days of
    /// regrowth ahead, any other crop is spent and dies.
    pub fn harvest(&mut self) -> (r: Option<String>)
        ensures
            old(self).stage != GrowthStage::Harvestable ==> r is None && *final(self) == *old(self),
            old(self).stage == GrowthStage::Harvestable ==> {
                &&& r matches Some(h) && h@ == old(self).crop_id@
                &&& old(self).regrows ==> *final(self) == (Crop {
                    stage: GrowthStage::Growing,
                    days_growing: if old(self).days_to_mature >= 4 {
                        (old(self).days_to_mature - 4) as u32
                    } else {
                        0u32
                    },
                    ..*old(self)
                })
                &&& !old(self).regrows ==> *final(self) == (Crop {
                    stage: GrowthStage::Dead,
                    ..*old(self)
                })
            },
    {
        if self.stage != GrowthStage::Harvestable {
            return None;
        }

        let harvested = self.crop_id.clone();

        if self.regrows {
            // Regrowable crops fall back and ripen again in about four days.
            self.stage = GrowthStage::Growing;
            self.days_growing = if self.days_to_mature >= 4 {
                self.days_to_mature - 4
            } else {
                0
            };
        } else {
            // The crop is spent and will be cleared.
            self.stage = GrowthStage::Dead;
        }

        Some(harvested)
    }
}


/// State of a farmable tile.
#[derive(Debug, Clone, Copy, PartialEq, Eq, Structural, Hash)]
pub enum TileState {
    /// Natural grass or dirt; nothing can be planted.
    Natural,
    /// Tilled with a hoe, ready to plant.
    Tilled,
    /// Tilled and watered.
    Watered,
    /// Has a crop planted.
    Planted,
}

impl Default for TileState {
    /// A tile starts natural.
    fn default() -> (r: Self)
        ensures
            r == TileState::Natural,
    {
        TileState::Natural
    }
}

impl TileState {
    /// Whether seeds can be planted on a tile in this state.
    pub fn can_plant(self) -> (r: bool)
        ensures
            r == (self == TileState::Tilled || self == TileState::Watered),
    {
        self == TileState::Tilled || self == TileState::Watered
    }

    /// Whether a tile in this state can be watered.
    pub fn can_water(self) -> (r: bool)
        ensures
            r == (self == TileState::Tilled || self == TileState::Planted),
    {
        self == TileState::Tilled || self == TileState::Planted
    }

    /// Whether a tile in this state can be tilled.
    pub fn can_till(self) -> (r: bool)
        ensures
            r == (self == TileState::Natural),
    {
        self == TileState::Natural
    }
}

/// A tile that can be farmed.
#[derive(Debug, Clone)]
pub struct FarmTile {
    /// Current state of the tile.
    pub state: TileState,
    /// Whether the tile was watered today.
    pub watered_today: bool,
}

impl FarmTile {
    /// Create a natural, unwatered tile.
    pub fn new() -> (t: FarmTile)
        ensures
            t.state == TileState::Natural,
            t.watered_today == false,
    {
        FarmTile { state: TileState::Natural, watered_today: false }
    }

    /// Till the tile with a hoe; only a natural tile can be tilled.
    pub fn till(&mut self) -> (r: bool)
        ensures
            r == (old(self).state == TileState::Natural),
            r ==> *final(self) == (FarmTile { state: TileState::Tilled, ..*old(self) }),
            !r ==> *final(self) == *old(self),
    {
        if self.state.can_till() {
            self.state = TileState::Tilled;
            true
        } else {
            false
        }
    }

    /// Water the tile; a tilled tile becomes watered, a planted tile keeps
    /// its state, anything else cannot be watered.
    pub fn water(&mut self) -> (r: bool)
        ensures
            r == (old(self).state == TileState::Tilled || old(self).state == TileState::Planted),
            r ==> final(self).watered_today == true && final(self).state == (if old(self).state
                == TileState::Tilled {
                TileState::Watered
            } else {
                old(self).state
            }),
            !r ==> *final(self) == *old(self),
    {
        if self.state.can_water() {
            self.watered_today = true;
            if self.state == TileState::Tilled {
                self.state = TileState::Watered;
            }
            true
        } else {
            false
        }
    }

    /// Plant a seed on the tile; only a tilled or watered tile accepts one.
    pub fn plant(&mut self) -> (r: bool)
        ensures
            r == (old(self).state == TileState::Tilled || old(self).state == TileState::Watered),
            r ==> *final(self) == (FarmTile { state: TileState::Planted, ..*old(self) }),
            !r ==> *final(self) == *old(self),
    {
        if self.state.can_plant() {
            self.state = TileState::Planted;
            true
        } else {
            false
        }
    }

    /// Advance one day: the watered flag resets, and a watered-but-empty
    /// tile dries back to tilled.
    pub fn advance_day(&mut self)
        ensures
            final(self).watered_today == false,
            final(self).state == (if old(self).state == TileState::Watered {
                TileState::Tilled
            } else {
                old(self).state
            }),
    {
        self.watered_today = false;
        if self.state == TileState::Watered {
            self.state = TileState::Tilled;
        }
    }

    /// Clear the tile after a harvest or a crop death; it stays tilled.
    pub fn clear(&mut self)
        ensures
            *final(self) == (FarmTile { state: TileState::Tilled, ..*old(self) }),
    {
        self.state = TileState::Tilled;
    }
}

/// Why a planting attempt failed.
#[derive(Debug, Clone, PartialEq, Eq, Structural)]
pub enum PlantResult {
    /// Successfully planted.
    Success,
    /// The tile is not tilled.
    NotTilled,
    /// The item is not a seed.
    NotASeed,
    /// Wrong season for this crop.
    WrongSeason,
    /// The tile already has a crop.
    AlreadyPlanted,
    /// The seed is not in the database.
    UnknownSeed,
}

/// Whether a seed definition allows planting in the given season.
pub open spec fn seed_in_season(seed: ItemDefinition, season: Seq<char>) -> bool {
    seed.seasons@.len() == 0 || exists|k: int|
        0 <= k < seed.seasons@.len() && (#[trigger] seed.seasons@[k]@) == season
}

/// Try to plant a seed on a farm tile. On success the tile is planted and
/// the new crop is returned; otherwise the error says exactly what was
/// wrong: the tile already planted or not tilled, the seed unknown, the
/// item no seed, or the season wrong.
pub fn try_plant(
    tile: &mut FarmTile,
    seed_id: &String,
    current_season: &String,
    db: &ItemDatabase,
) -> (r: Result<Crop, PlantResult>)
    requires
        db.wf(),
    ensures
        !(old(tile).state == TileState::Tilled || old(tile).state == TileState::Watered) ==> {
            &&& *final(tile) == *old(tile)
            &&& r == Err::<Crop, PlantResult>(
                if old(tile).state == TileState::Planted {
                    PlantResult::AlreadyPlanted
                } else {
                    PlantResult::NotTilled
                },
            )
        },
        (old(tile).state == TileState::Tilled || old(tile).state == TileState::Watered) ==> {
            &&& db.spec_get(seed_id@) is None ==> *final(tile) == *old(tile) && r == Err::<
                Crop,
                PlantResult,
            >(PlantResult::UnknownSeed)
            &&& db.spec_get(seed_id@) matches Some(seed) ==> {
                &&& seed.item_type != ItemType::Seed ==> *final(tile) == *old(tile) && r == Err::<
                    Crop,
                    PlantResult,
                >(PlantResult::NotASeed)
                &&& (seed.item_type == ItemType::Seed && !seed_in_season(seed, current_season@))
                    ==> *final(tile) == *old(tile) && r == Err::<Crop, PlantResult>(
                    PlantResult::WrongSeason,
                )
                &&& (seed.item_type == ItemType::Seed && seed_in_season(seed, current_season@))
                    ==> {
                    &&& seed.grows_into matches Some(gi) ==> (db.spec_get(gi@) matches Some(
                        crop_def,
                    ) ==> {
                        &&& r is Ok
                        &&& r->Ok_0.crop_id@ == gi@
                        &&& r->Ok_0.seed_id@ == seed_id@
                        &&& r->Ok_0.stage == GrowthStage::Seed
                        &&& r->Ok_0.days_growing == 0
                        &&& r->Ok_0.days_to_mature == (match crop_def.growth_days {
                            Some(g) => g,
                            None => 4u32,
                        })
                        &&& r->Ok_0.watered_today == false
                        &&& r->Ok_0.days_without_water == 0
                        &&& r->Ok_0.regrows == crop_def.regrows
                        &&& r->Ok_0.valid_seasons@ == seed.seasons@
                        &&& *final(tile) == (FarmTile { state: TileState::Planted, ..*old(tile) })
                    })
                    &&& !(seed.grows_into matches Some(gi) && db.spec_get(gi@) is Some) ==> {
                        &&& *final(tile) == *old(tile)
                        &&& r == Err::<Crop, PlantResult>(PlantResult::UnknownSeed)
                    }
                }
            }
        },
{
    // The tile must accept a seed.
    if !tile.state.can_plant() {
        return Err(
            if tile.state == TileState::Planted {
                PlantResult::AlreadyPlanted
            } else {
                PlantResult::NotTilled
            },
        );
    }

    // The seed must exist in the database.
    let seed: &ItemDefinition = match db.get(seed_id) {
        Some(s) => s,
        None => {
            return Err(PlantResult::UnknownSeed);
        },
    };

    // It must actually be a seed.
    if !seed.is_seed() {
        return Err(PlantResult::NotASeed);
    }

    // The season must fit.
    if seed.seasons.len() > 0 {
        let mut found = false;
        let mut k: usize = 0;
        while k < seed.seasons.len()
            invariant
                k <= seed.seasons@.len(),
                found == exists|j: int|
                    0 <= j < k && (#[trigger] seed.seasons@[j]@) == current_season@,
            decreases seed.seasons@.len() - k,
        {
            if seed.seasons[k] == *current_season {
                found = true;
            }
            k = k + 1;
        }
        if !found {
            return Err(PlantResult::WrongSeason);
        }
    }

    // Create the crop.
    let crop = match Crop::from_seed(seed_id, db) {
        Some(c) => c,
        None => {
            return Err(PlantResult::UnknownSeed);
        },
    };

    // Mark the tile as planted.
    let _ = tile.plant();

    Ok(crop)
}


} // verus!
