use grf_engine::{ItemDatabase, ItemDefinition, ItemType, ToolType};

fn def(id: &str, name: &str, item_type: ItemType) -> ItemDefinition {
    ItemDefinition {
        id: id.to_string(),
        name: name.to_string(),
        item_type,
        max_stack: 999,
        sell_price: 0,
        description: String::new(),
        grows_into: None,
        growth_days: None,
        regrows: false,
        tool_type: None,
        energy: None,
        health: None,
        seasons: Vec::new(),
    }
}

fn create_test_db() -> ItemDatabase {
    let mut db = ItemDatabase::new();

    let mut parsnip_seeds = def("parsnip_seeds", "Parsnip Seeds", ItemType::Seed);
    parsnip_seeds.sell_price = 10;
    parsnip_seeds.description = "Plant in spring".to_string();
    parsnip_seeds.grows_into = Some("parsnip".to_string());
    parsnip_seeds.seasons = vec!["spring".to_string()];
    db.insert(parsnip_seeds);

    let mut parsnip = def("parsnip", "Parsnip", ItemType::Crop);
    parsnip.sell_price = 35;
    parsnip.growth_days = Some(4);
    parsnip.seasons = vec!["spring".to_string()];
    db.insert(parsnip);

    let mut wood = def("wood", "Wood", ItemType::Resource);
    wood.sell_price = 2;
    db.insert(wood);

    let mut hoe = def("hoe", "Hoe", ItemType::Tool);
    hoe.max_stack = 1;
    hoe.tool_type = Some(ToolType::Hoe);
    db.insert(hoe);

    let mut salad = def("salad", "Salad", ItemType::Consumable);
    salad.sell_price = 110;
    salad.energy = Some(113);
    salad.health = Some(50);
    db.insert(salad);

    db
}

#[test]
fn test_get_item() {
    let db = create_test_db();

    let parsnip = db.get(&"parsnip".to_string()).unwrap();
    assert_eq!(parsnip.name.as_str(), "Parsnip");
    assert_eq!(parsnip.item_type, ItemType::Crop);
    assert_eq!(parsnip.sell_price, 35);
}

#[test]
fn test_get_by_type() {
    let db = create_test_db();

    let seeds = db.get_by_type(ItemType::Seed);
    assert_eq!(seeds.len(), 1);
    assert_eq!(seeds[0].id.as_str(), "parsnip_seeds");

    let tools = db.get_by_type(ItemType::Tool);
    assert_eq!(tools.len(), 1);
    assert_eq!(tools[0].id.as_str(), "hoe");
}

#[test]
fn test_item_properties() {
    let db = create_test_db();

    let hoe = db.get(&"hoe".to_string()).unwrap();
    assert!(hoe.is_tool());
    assert!(!hoe.is_stackable());
    assert_eq!(hoe.tool_type, Some(ToolType::Hoe));

    let seeds = db.get(&"parsnip_seeds".to_string()).unwrap();
    assert!(seeds.is_seed());
    assert!(seeds.is_stackable());
    assert_eq!(seeds.grows_into, Some("parsnip".to_string()));
}

#[test]
fn test_consumable() {
    let db = create_test_db();

    let salad = db.get(&"salad".to_string()).unwrap();
    assert!(salad.is_edible());
    assert_eq!(salad.energy, Some(113));
    assert_eq!(salad.health, Some(50));
}

#[test]
fn test_contains() {
    let db = create_test_db();

    assert!(db.contains(&"wood".to_string()));
    assert!(db.contains(&"hoe".to_string()));
    assert!(!db.contains(&"nonexistent".to_string()));
}

#[test]
fn test_insert_replaces_same_id() {
    let mut db = ItemDatabase::new();
    db.insert(def("wood", "Wood", ItemType::Resource));
    let mut wood2 = def("wood", "Hardwood", ItemType::Resource);
    wood2.sell_price = 5;
    db.insert(wood2);
    assert_eq!(db.len(), 1);
    let wood = db.get(&"wood".to_string()).unwrap();
    assert_eq!(wood.name.as_str(), "Hardwood");
    assert_eq!(wood.sell_price, 5);
}

#[test]
fn test_len_is_empty_all_ids() {
    let mut db = ItemDatabase::new();
    assert!(db.is_empty());
    db.insert(def("a", "A", ItemType::Resource));
    db.insert(def("b", "B", ItemType::Crop));
    assert!(!db.is_empty());
    assert_eq!(db.len(), 2);
    let ids = db.all_ids();
    assert_eq!(ids, vec!["a", "b"]);
    let pairs = db.iter();
    assert_eq!(pairs.len(), 2);
    assert_eq!(pairs[0].0, "a");
    assert_eq!(pairs[1].1.name.as_str(), "B");
}
