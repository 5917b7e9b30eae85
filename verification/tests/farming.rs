use grf_engine::{
    try_plant, Crop, FarmTile, GrowthStage, ItemDatabase, ItemDefinition, ItemType, PlantResult,
    TileState,
};

fn def(id: &str, name: &str, item_type: ItemType) -> ItemDefinition {
    ItemDefinition {
        id: id.to_string(),
        name: name.to_string(),
        item_type,
        max_stack: 999,
        sell_price: 0,
        description: String::new(),
        grows_into: None,
        growth_days: None,
        regrows: false,
        tool_type: None,
        energy: None,
        health: None,
        seasons: Vec::new(),
    }
}

fn create_test_db() -> ItemDatabase {
    let mut db = ItemDatabase::new();

    let mut parsnip_seeds = def("parsnip_seeds", "Parsnip Seeds", ItemType::Seed);
    parsnip_seeds.grows_into = Some("parsnip".to_string());
    parsnip_seeds.seasons = vec!["spring".to_string()];
    db.insert(parsnip_seeds);

    let mut parsnip = def("parsnip", "Parsnip", ItemType::Crop);
    parsnip.growth_days = Some(4);
    db.insert(parsnip);

    let mut tomato_seeds = def("tomato_seeds", "Tomato Seeds", ItemType::Seed);
    tomato_seeds.grows_into = Some("tomato".to_string());
    tomato_seeds.seasons = vec!["summer".to_string()];
    db.insert(tomato_seeds);

    let mut tomato = def("tomato", "Tomato", ItemType::Crop);
    tomato.growth_days = Some(11);
    tomato.regrows = true;
    db.insert(tomato);

    db.insert(def("wood", "Wood", ItemType::Resource));

    db
}

#[test]
fn test_growth_stages() {
    assert_eq!(GrowthStage::Seed.next(), Some(GrowthStage::Sprout));
    assert_eq!(GrowthStage::Sprout.next(), Some(GrowthStage::Growing));
    assert_eq!(GrowthStage::Harvestable.next(), None);
    assert!(GrowthStage::Harvestable.can_harvest());
    assert!(!GrowthStage::Growing.can_harvest());
}

#[test]
fn test_farm_tile_workflow() {
    let mut tile = FarmTile::new();

    assert_eq!(tile.state, TileState::Natural);
    assert!(!tile.state.can_plant());

    // Till the tile
    assert!(tile.till());
    assert_eq!(tile.state, TileState::Tilled);
    assert!(tile.state.can_plant());

    // Water it
    assert!(tile.water());
    assert_eq!(tile.state, TileState::Watered);
    assert!(tile.state.can_plant());

    // Plant
    assert!(tile.plant());
    assert_eq!(tile.state, TileState::Planted);
    assert!(!tile.state.can_plant());
}

#[test]
fn test_create_crop_from_seed() {
    let db = create_test_db();

    let crop = Crop::from_seed(&"parsnip_seeds".to_string(), &db).unwrap();
    assert_eq!(crop.crop_id.as_str(), "parsnip");
    assert_eq!(crop.seed_id.as_str(), "parsnip_seeds");
    assert_eq!(crop.days_to_mature, 4);
    assert_eq!(crop.stage, GrowthStage::Seed);
    assert!(!crop.regrows);
}

#[test]
fn test_regrowable_crop() {
    let db = create_test_db();

    let crop = Crop::from_seed(&"tomato_seeds".to_string(), &db).unwrap();
    assert!(crop.regrows);
    assert_eq!(crop.days_to_mature, 11);
}

#[test]
fn test_crop_growth() {
    let db = create_test_db();
    let mut crop = Crop::from_seed(&"parsnip_seeds".to_string(), &db).unwrap();

    // Water and advance 4 days
    for _ in 0..4 {
        crop.water();
        crop.advance_day(&"spring".to_string());
    }

    assert_eq!(crop.stage, GrowthStage::Harvestable);
    assert!(crop.stage.can_harvest());
}

#[test]
fn test_crop_dies_without_water() {
    let db = create_test_db();
    let mut crop = Crop::from_seed(&"parsnip_seeds".to_string(), &db).unwrap();

    // Don't water for 3 days
    for _ in 0..3 {
        crop.advance_day(&"spring".to_string());
    }

    assert_eq!(crop.stage, GrowthStage::Dead);
    assert!(!crop.stage.is_alive());
}

#[test]
fn test_crop_dies_wrong_season() {
    let db = create_test_db();
    let mut crop = Crop::from_seed(&"parsnip_seeds".to_string(), &db).unwrap();

    crop.water();
    crop.advance_day(&"summer".to_string()); // Wrong season!

    assert_eq!(crop.stage, GrowthStage::Dead);
}

#[test]
fn test_try_plant_success() {
    let db = create_test_db();
    let mut tile = FarmTile::new();
    tile.till();

    let result = try_plant(&mut tile, &"parsnip_seeds".to_string(), &"spring".to_string(), &db);
    assert!(result.is_ok());

    let crop = result.unwrap();
    assert_eq!(crop.crop_id.as_str(), "parsnip");
    assert_eq!(tile.state, TileState::Planted);
}

#[test]
fn test_try_plant_not_tilled() {
    let db = create_test_db();
    let mut tile = FarmTile::new();

    let result = try_plant(&mut tile, &"parsnip_seeds".to_string(), &"spring".to_string(), &db);
    assert_eq!(result.err(), Some(PlantResult::NotTilled));
}

#[test]
fn test_try_plant_wrong_season() {
    let db = create_test_db();
    let mut tile = FarmTile::new();
    tile.till();

    let result = try_plant(&mut tile, &"parsnip_seeds".to_string(), &"summer".to_string(), &db);
    assert_eq!(result.err(), Some(PlantResult::WrongSeason));
}

#[test]
fn test_try_plant_not_seed() {
    let db = create_test_db();
    let mut tile = FarmTile::new();
    tile.till();

    let result = try_plant(&mut tile, &"wood".to_string(), &"spring".to_string(), &db);
    assert_eq!(result.err(), Some(PlantResult::NotASeed));
}

#[test]
fn test_try_plant_unknown_seed() {
    let db = create_test_db();
    let mut tile = FarmTile::new();
    tile.till();

    let result = try_plant(&mut tile, &"mystery".to_string(), &"spring".to_string(), &db);
    assert_eq!(result.err(), Some(PlantResult::UnknownSeed));
}

#[test]
fn test_try_plant_already_planted() {
    let db = create_test_db();
    let mut tile = FarmTile::new();
    tile.till();
    tile.plant();

    let result = try_plant(&mut tile, &"parsnip_seeds".to_string(), &"spring".to_string(), &db);
    assert_eq!(result.err(), Some(PlantResult::AlreadyPlanted));
}

#[test]
fn test_harvest_regrowable() {
    let db = create_test_db();
    let mut crop = Crop::from_seed(&"tomato_seeds".to_string(), &db).unwrap();

    // Grow to harvestable
    for _ in 0..11 {
        crop.water();
        crop.advance_day(&"summer".to_string());
    }

    assert_eq!(crop.stage, GrowthStage::Harvestable);

    // Harvest
    let harvested = crop.harvest();
    assert_eq!(harvested, Some("tomato".to_string()));

    // Should still be alive and growing
    assert!(crop.stage.is_alive());
    assert_eq!(crop.stage, GrowthStage::Growing);
}

#[test]
fn test_harvest_non_regrowable() {
    let db = create_test_db();
    let mut crop = Crop::from_seed(&"parsnip_seeds".to_string(), &db).unwrap();

    // Grow to harvestable
    for _ in 0..4 {
        crop.water();
        crop.advance_day(&"spring".to_string());
    }

    // Harvest
    let harvested = crop.harvest();
    assert_eq!(harvested, Some("parsnip".to_string()));

    // Should be dead (non-regrowable)
    assert_eq!(crop.stage, GrowthStage::Dead);
}

#[test]
fn test_tile_dries_back_overnight() {
    let mut tile = FarmTile::new();
    tile.till();
    tile.water();
    assert_eq!(tile.state, TileState::Watered);
    tile.advance_day();
    assert_eq!(tile.state, TileState::Tilled);
    assert!(!tile.watered_today);
}

#[test]
fn test_stage_advances_quarterwise() {
    let db = create_test_db();
    let mut crop = Crop::from_seed(&"parsnip_seeds".to_string(), &db).unwrap();
    let season = "spring".to_string();

    // Four growth days: sprout, growing, mature, harvestable.
    crop.water();
    crop.advance_day(&season);
    assert_eq!(crop.stage, GrowthStage::Sprout);
    crop.water();
    crop.advance_day(&season);
    assert_eq!(crop.stage, GrowthStage::Growing);
    crop.water();
    crop.advance_day(&season);
    assert_eq!(crop.stage, GrowthStage::Mature);
    crop.water();
    crop.advance_day(&season);
    assert_eq!(crop.stage, GrowthStage::Harvestable);
}
