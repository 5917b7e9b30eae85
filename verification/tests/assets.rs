use grf_engine::ResourceManager;

#[derive(Debug, Clone, PartialEq)]
struct TestAsset {
    value: i32,
}

#[test]
fn test_insert_and_get() {
    let mut rm: ResourceManager<TestAsset> = ResourceManager::new();

    let handle = rm.insert(TestAsset { value: 42 });
    let asset = rm.get(handle).unwrap();

    assert_eq!(asset.value, 42);
}

#[test]
fn test_path_caching() {
    let mut rm: ResourceManager<TestAsset> = ResourceManager::new();
    let path = "test/path.txt";

    let handle1 = rm.insert_with_path(TestAsset { value: 1 }, path);
    let handle2 = rm.get_by_path(path).unwrap();

    assert_eq!(handle1.id(), handle2.id());
}

#[test]
fn test_remove() {
    let mut rm: ResourceManager<TestAsset> = ResourceManager::new();

    let handle = rm.insert(TestAsset { value: 42 });
    assert!(rm.get(handle).is_some());

    rm.remove(handle);
    assert!(rm.get(handle).is_none());
}

#[test]
fn test_multiple_types() {
    #[derive(Debug)]
    enum AnyAsset {
        TypeA(i32),
        TypeB(String),
    }

    let mut rm: ResourceManager<AnyAsset> = ResourceManager::new();

    let handle_a = rm.insert(AnyAsset::TypeA(42));
    let handle_b = rm.insert(AnyAsset::TypeB("hello".to_string()));

    match rm.get(handle_a).unwrap() {
        AnyAsset::TypeA(v) => assert_eq!(*v, 42),
        other => panic!("expected the first asset, got {:?}", other),
    }
    match rm.get(handle_b).unwrap() {
        AnyAsset::TypeB(s) => assert_eq!(s.as_str(), "hello"),
        other => panic!("expected the second asset, got {:?}", other),
    }
}

#[test]
fn test_remove_drops_path_binding() {
    let mut rm: ResourceManager<TestAsset> = ResourceManager::new();
    let h1 = rm.insert_with_path(TestAsset { value: 1 }, "a.png");
    let _h2 = rm.insert_with_path(TestAsset { value: 2 }, "b.png");

    let removed = rm.remove(h1).unwrap();
    assert_eq!(removed.value, 1);
    assert!(rm.get_by_path("a.png").is_none());
    // The other binding is untouched.
    let hb = rm.get_by_path("b.png").unwrap();
    assert_eq!(rm.get(hb).unwrap().value, 2);
}

#[test]
fn test_rebinding_a_path_points_at_new_asset() {
    let mut rm: ResourceManager<TestAsset> = ResourceManager::new();
    let h1 = rm.insert_with_path(TestAsset { value: 1 }, "a.png");
    let h2 = rm.insert_with_path(TestAsset { value: 2 }, "a.png");
    assert_ne!(h1.id(), h2.id());
    let bound = rm.get_by_path("a.png").unwrap();
    assert_eq!(bound.id(), h2.id());
    // The old asset stays reachable through its own handle.
    assert_eq!(rm.get(h1).unwrap().value, 1);
}
