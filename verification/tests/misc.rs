use grf_engine::{
    main_menu_items, pause_menu_items, ButtonState, CharacterState, DebugConfig, EventLogFilter,
    EventType, GameState, Input, KeyCode, KeyboardState, MenuItem, PlayerDirection, RenderStats,
    TileState, Tileset, TimeDisplay, WindowConfig,
};

#[test]
fn test_volume_clamping() {
    // We can't create AudioManager in tests without audio hardware
    // but we can test the volume clamping logic
    let volume = 1.5f32.clamp(0.0, 1.0);
    assert_eq!(volume, 1.0);

    let volume = (-0.5f32).clamp(0.0, 1.0);
    assert_eq!(volume, 0.0);
}

#[test]
fn test_direction_row() {
    assert_eq!(PlayerDirection::Down.sprite_row(), 0);
    assert_eq!(PlayerDirection::Up.sprite_row(), 1);
    assert_eq!(PlayerDirection::Left.sprite_row(), 2);
    assert_eq!(PlayerDirection::Right.sprite_row(), 2);
}

#[test]
fn test_direction_flip() {
    assert!(!PlayerDirection::Down.flip_x());
    assert!(!PlayerDirection::Up.flip_x());
    assert!(PlayerDirection::Left.flip_x());
    assert!(!PlayerDirection::Right.flip_x());
}

#[test]
fn test_keyboard_press_release_cycle() {
    let mut kb = KeyboardState::new();
    assert_eq!(kb.get_state(KeyCode::W), ButtonState::Released);

    kb.on_key_pressed(KeyCode::W);
    assert!(kb.is_pressed(KeyCode::W));
    assert!(kb.is_just_pressed(KeyCode::W));

    kb.end_frame();
    assert!(kb.is_pressed(KeyCode::W));
    assert!(!kb.is_just_pressed(KeyCode::W));
    assert_eq!(kb.get_state(KeyCode::W), ButtonState::Held);

    kb.on_key_released(KeyCode::W);
    assert!(kb.is_just_released(KeyCode::W));
    assert!(!kb.is_pressed(KeyCode::W));

    kb.end_frame();
    assert_eq!(kb.get_state(KeyCode::W), ButtonState::Released);
}

#[test]
fn test_keyboard_repeated_press_is_not_just_pressed_again() {
    let mut kb = KeyboardState::new();
    kb.on_key_pressed(KeyCode::A);
    kb.end_frame();
    // The key is held; a repeat press event does not produce a new edge.
    kb.on_key_pressed(KeyCode::A);
    assert_eq!(kb.get_state(KeyCode::A), ButtonState::Held);
}

#[test]
fn test_keyboard_ignores_unknown_key() {
    let mut kb = KeyboardState::new();
    kb.on_key_pressed(KeyCode::Unknown);
    assert!(!kb.is_pressed(KeyCode::Unknown));
}

#[test]
fn test_input_forwards_keyboard() {
    let mut input = Input::new();
    input.on_key_pressed(KeyCode::Space);
    assert!(input.is_key_pressed(KeyCode::Space));
    assert!(input.is_key_just_pressed(KeyCode::Space));
    input.end_frame();
    assert!(input.is_key_pressed(KeyCode::Space));
    input.on_key_released(KeyCode::Space);
    assert!(input.is_key_just_released(KeyCode::Space));
    assert!(input.keyboard().is_just_released(KeyCode::Space));
}

#[test]
fn test_render_stats_record() {
    let mut stats = RenderStats::new();
    stats.record_draw(10);
    stats.record_draw(5);
    stats.record_texture_bind();
    assert_eq!(stats.sprites, 15);
    assert_eq!(stats.vertices, 60);
    assert_eq!(stats.draw_calls, 2);
    assert_eq!(stats.texture_binds, 1);
    stats.reset();
    assert_eq!(stats.sprites, 0);
    assert_eq!(stats.draw_calls, 0);
}

#[test]
fn test_time_display_strings() {
    let mut display = TimeDisplay::new();
    assert_eq!(display.time_string(), "06:00");
    assert_eq!(display.day_string(), "Day 1");
    display.set_time(14, 30, 12);
    assert_eq!(display.time_string(), "14:30");
    assert_eq!(display.day_string(), "Day 12");
    display.set_time(99, 99, 205);
    assert_eq!(display.time_string(), "23:59");
    assert_eq!(display.day_string(), "Day 205");
}

#[test]
fn test_menu_item_lists() {
    let main = main_menu_items();
    assert_eq!(main.len(), 4);
    assert_eq!(main[0].id.as_str(), "new_game");
    assert_eq!(main[3].label.as_str(), "Quit");
    let pause = pause_menu_items();
    assert_eq!(pause.len(), 5);
    assert_eq!(pause[0].id.as_str(), "resume");
    assert_eq!(pause[2].label.as_str(), "Save Game");

    let disabled = MenuItem::disabled("load", "Load");
    assert!(!disabled.enabled);
}

#[test]
fn test_event_filter() {
    let mut filter = EventLogFilter::default();
    assert!(filter.should_show(EventType::Input));
    filter.show_input = false;
    assert!(!filter.should_show(EventType::Input));
    assert!(filter.should_show(EventType::Game));
    assert_eq!(EventType::System.name(), "System");
}

#[test]
fn test_debug_config_toggle() {
    let mut config = DebugConfig::new();
    assert!(!config.enabled);
    config.toggle();
    assert!(config.enabled);
    config.toggle();
    assert!(!config.enabled);
}

#[test]
fn test_window_config_builder() {
    let config = WindowConfig::new("My Game").with_size(640, 480).with_resizable(false);
    assert_eq!(config.title.as_str(), "My Game");
    assert_eq!(config.width, 640);
    assert_eq!(config.height, 480);
    assert!(!config.resizable);

    let default_config = WindowConfig::default();
    assert_eq!(default_config.width, 1280);
    assert_eq!(default_config.height, 720);
}

#[test]
fn test_tileset_count() {
    let tileset = Tileset {
        name: "test".to_string(),
        image: "test.png".to_string(),
        tile_width: 16,
        tile_height: 16,
        columns: 8,
        rows: 4,
        first_gid: 0,
    };
    assert_eq!(tileset.tile_count(), 32);
}

#[test]
fn test_character_state_key() {
    assert_eq!(CharacterState::Idle.key(), "idle");
    assert_eq!(CharacterState::Walking.key(), "walk");
    assert_eq!(CharacterState::Running.key(), "run");
}

#[test]
fn test_game_state_default() {
    assert_eq!(GameState::default(), GameState::MainMenu);
}

#[test]
fn test_tile_state_transitions() {
    assert!(TileState::Natural.can_till());
    assert!(!TileState::Tilled.can_till());
    assert!(TileState::Tilled.can_water());
    assert!(TileState::Planted.can_water());
    assert!(!TileState::Natural.can_water());
}
