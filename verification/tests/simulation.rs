use tower_defense::game::{wave_kind, Game, GameState};
use tower_defense::enemy::{Enemy, EnemyType};
use tower_defense::gui::{Gui, UiState};
use tower_defense::menu::{DifficultyLevel, MenuKey, MenuSignal, PauseMenu};
use tower_defense::tower::TowerType;

#[test]
fn fresh_game_state() {
    let g = Game::new();
    assert_eq!(g.get_player().get_health(), 1000);
    assert_eq!(g.get_player().get_gold(), 1000);
    assert_eq!(g.get_player().get_score(), 0);
    assert_eq!(g.get_wave(), 0);
    assert!(matches!(g.get_game_state(), GameState::Playing));
    assert_eq!(g.enemies.len(), 0);
    assert_eq!(g.towers.len(), 0);
}

#[test]
fn wave_kind_priority() {
    // every fifth wave is Boss; the five-check precedes the three-check,
    // so wave 15 is Boss, not Fast
    assert!(matches!(wave_kind(15), EnemyType::Boss));
    assert!(matches!(wave_kind(5), EnemyType::Boss));
    assert!(matches!(wave_kind(10), EnemyType::Boss));
    assert!(matches!(wave_kind(3), EnemyType::Fast));
    assert!(matches!(wave_kind(9), EnemyType::Fast));
    assert!(matches!(wave_kind(1), EnemyType::Normal));
    assert!(matches!(wave_kind(2), EnemyType::Normal));
    assert!(matches!(wave_kind(7), EnemyType::Normal));
}

#[test]
fn first_wave_spawns_five_normal_enemies_after_cooldown() {
    let mut g = Game::new();
    // five seconds of cooldown burn down over five one-second ticks
    for _ in 0..5 {
        g.update(1000);
        assert_eq!(g.get_wave(), 0);
        assert_eq!(g.enemies.len(), 0);
    }
    // the next tick spawns the first wave
    g.update(1000);
    assert_eq!(g.get_wave(), 1);
    assert_eq!(g.enemies.len(), 5);
    for e in &g.enemies {
        assert!(matches!(e.enemy_type, EnemyType::Normal));
        assert!(!e.is_active());
    }
    // staggered spawn delays, half a second apart, minus the tick already
    // ticked off at spawn
    assert_eq!(g.enemies[0].spawn_delay, 1000);
    assert_eq!(g.enemies[4].spawn_delay, 3000);
}

#[test]
fn paused_game_does_not_tick() {
    let mut g = Game::new();
    g.toggle_pause();
    assert!(matches!(g.get_game_state(), GameState::Paused));
    for _ in 0..10 {
        g.update(1000);
    }
    assert_eq!(g.game_time, 0);
    assert_eq!(g.get_wave(), 0);
    assert_eq!(g.enemies.len(), 0);
    g.toggle_pause();
    assert!(matches!(g.get_game_state(), GameState::Playing));
    g.update(1000);
    assert_eq!(g.game_time, 1000);
}

#[test]
fn terminal_states_absorb_the_pause_toggle() {
    let mut g = Game::new();
    g.game_state = GameState::Victory;
    g.toggle_pause();
    assert!(matches!(g.get_game_state(), GameState::Victory));
    g.game_state = GameState::GameOver;
    g.toggle_pause();
    assert!(matches!(g.get_game_state(), GameState::GameOver));
}

#[test]
fn place_tower_needs_gold_and_buildable_ground() {
    let mut g = Game::new();
    // on the path, not buildable
    assert!(!g.place_tower(TowerType::Basic, 0, 350_000));
    assert_eq!(g.towers.len(), 0);
    assert_eq!(g.get_player().get_gold(), 1000);
    // buildable spot
    assert!(g.place_tower(TowerType::Basic, 450_000, 325_000));
    assert_eq!(g.towers.len(), 1);
    assert_eq!(g.get_player().get_gold(), 950);
    // drain the gold, then placement fails on funds
    g.player.spend_gold(900);
    assert!(!g.place_tower(TowerType::Advanced, 450_000, 325_000));
    assert_eq!(g.towers.len(), 1);
    assert_eq!(g.get_player().get_gold(), 50);
}

#[test]
fn victory_needs_twenty_waves_and_cleared_board() {
    let mut g = Game::new();
    g.wave = 20;
    g.wave_cooldown = 100_000;
    g.update(16);
    assert!(matches!(g.get_game_state(), GameState::Victory));

    let mut g2 = Game::new();
    g2.wave = 19;
    g2.wave_cooldown = 100_000;
    g2.update(16);
    assert!(matches!(g2.get_game_state(), GameState::Playing));

    let mut g3 = Game::new();
    g3.wave = 20;
    g3.wave_cooldown = 100_000;
    let start = (0, 350_000);
    g3.enemies.push(Enemy::new(EnemyType::Normal, start.0, start.1, 60_000));
    g3.update(16);
    assert!(matches!(g3.get_game_state(), GameState::Playing));
}

#[test]
fn breaching_enemy_costs_player_health_and_leaves() {
    let mut g = Game::new();
    g.wave_cooldown = 100_000;
    // an active enemy standing on the last waypoint
    let mut e = Enemy::new(EnemyType::Normal, 1_024_000, 500_000, 0);
    e.path_index = 5;
    e.active = true;
    e.spawn_delay = 0;
    g.enemies.push(e);
    g.update(16);
    assert_eq!(g.enemies.len(), 0);
    assert_eq!(g.get_player().get_health(), 990);
    assert_eq!(g.get_player().get_gold(), 1000);
    assert!(matches!(g.get_game_state(), GameState::Playing));
}

#[test]
fn game_over_when_breaches_empty_the_health() {
    let mut g = Game::new();
    g.wave_cooldown = 100_000;
    g.player.take_damage(995);
    let mut e = Enemy::new(EnemyType::Normal, 1_024_000, 500_000, 0);
    e.path_index = 5;
    e.active = true;
    g.enemies.push(e);
    g.update(16);
    assert_eq!(g.get_player().get_health(), 0);
    assert!(matches!(g.get_game_state(), GameState::GameOver));
}

#[test]
fn dead_enemy_credits_gold_and_score_not_health() {
    let mut g = Game::new();
    g.wave_cooldown = 100_000;
    // dead and standing on the last waypoint: death takes priority over
    // reaching the end
    let mut e = Enemy::new(EnemyType::Normal, 1_024_000, 500_000, 0);
    e.path_index = 5;
    e.active = true;
    e.health = 0;
    g.enemies.push(e);
    g.update(16);
    assert_eq!(g.enemies.len(), 0);
    assert_eq!(g.get_player().get_health(), 1000);
    assert_eq!(g.get_player().get_gold(), 1020);
    assert_eq!(g.get_player().get_score(), 200);
}

#[test]
fn full_scenario_basic_tower_clears_first_kill() {
    let mut g = Game::new();
    assert!(g.place_tower(TowerType::Basic, 450_000, 325_000));
    assert_eq!(g.get_player().get_gold(), 950);
    assert_eq!(g.towers.len(), 1);

    // run one-second ticks until the first enemy dies; a Basic tower fires
    // once per second for 10 damage, so a 100 hp Normal enemy takes ten
    // shots, well under half a minute of play
    let mut ticks = 0;
    while g.get_player().get_score() == 0 {
        g.update(1000);
        ticks += 1;
        assert!(ticks < 30, "no kill within 30 simulated seconds");
    }
    // the first kill pays exactly one Normal reward
    assert_eq!(g.get_player().get_gold(), 970);
    assert_eq!(g.get_player().get_score(), 200);
    // nobody reached the end yet
    assert_eq!(g.get_player().get_health(), 1000);
    assert_eq!(g.get_wave(), 1);
    assert_eq!(g.enemies.len(), 4);
    assert!(matches!(g.get_game_state(), GameState::Playing));
    // ten shots of the four-waypoint walk: the kill lands once ten firing
    // periods have passed since the enemy became targetable
    assert!(ticks >= 15);
}

#[test]
fn projectiles_spawn_on_fire_and_expire() {
    let mut g = Game::new();
    g.wave_cooldown = 100_000;
    assert!(g.place_tower(TowerType::Basic, 450_000, 325_000));
    let mut e = Enemy::new(EnemyType::Normal, 300_000, 350_000, 0);
    e.active = true;
    g.enemies.push(e);
    g.update(16);
    assert_eq!(g.projectiles.len(), 1);
    assert_eq!(g.projectiles[0].start, (450_000, 325_000));
    assert!(matches!(g.projectiles[0].tower_type, TowerType::Basic));
    // projectiles live half a second
    g.update(484);
    assert_eq!(g.projectiles.len(), 0);
}

#[test]
fn pause_menu_navigation_wraps_and_adjusts() {
    let mut m = PauseMenu::new();
    assert_eq!(m.game_speed(), 10);
    assert_eq!(m.sound_volume(), 80);
    assert_eq!(m.music_volume(), 70);
    assert!(matches!(m.difficulty(), DifficultyLevel::Normal));

    // the cursor wraps upward from the top
    assert_eq!(m.handle_key_press(MenuKey::Up), None);
    assert_eq!(m.selected_index, 6);
    assert_eq!(m.handle_key_press(MenuKey::Down), None);
    assert_eq!(m.selected_index, 0);

    // adjust the game speed: clamped to 5..=20 in tenths
    m.handle_key_press(MenuKey::Down);
    assert_eq!(m.selected_index, 1);
    m.handle_key_press(MenuKey::Right);
    assert_eq!(m.game_speed(), 11);
    for _ in 0..20 {
        m.handle_key_press(MenuKey::Left);
    }
    assert_eq!(m.game_speed(), 5);
    for _ in 0..20 {
        m.handle_key_press(MenuKey::Right);
    }
    assert_eq!(m.game_speed(), 20);

    // difficulty cycles on either arrow
    m.handle_key_press(MenuKey::Down);
    m.handle_key_press(MenuKey::Right);
    assert!(matches!(m.difficulty(), DifficultyLevel::Hard));
    m.handle_key_press(MenuKey::Left);
    assert!(matches!(m.difficulty(), DifficultyLevel::Easy));

    // volume steps by five and clamps at 100
    m.handle_key_press(MenuKey::Down);
    m.handle_key_press(MenuKey::Right);
    assert_eq!(m.sound_volume(), 85);
    for _ in 0..10 {
        m.handle_key_press(MenuKey::Right);
    }
    assert_eq!(m.sound_volume(), 100);
}

#[test]
fn pause_menu_selection_signals() {
    let mut m = PauseMenu::new();
    assert_eq!(m.handle_key_press(MenuKey::Select), Some(MenuSignal::Resume));
    assert_eq!(m.handle_key_press(MenuKey::Back), Some(MenuSignal::Resume));
    // move to QuitToMainMenu (index 5) and ExitGame (index 6)
    for _ in 0..5 {
        m.handle_key_press(MenuKey::Down);
    }
    assert_eq!(m.handle_key_press(MenuKey::Select), Some(MenuSignal::QuitToMainMenu));
    m.handle_key_press(MenuKey::Down);
    assert_eq!(m.handle_key_press(MenuKey::Select), Some(MenuSignal::ExitGame));
    // adjustable options emit nothing
    m.handle_key_press(MenuKey::Down);
    m.handle_key_press(MenuKey::Down);
    assert_eq!(m.handle_key_press(MenuKey::Select), None);
}

#[test]
fn difficulty_names_and_cycle() {
    assert_eq!(DifficultyLevel::Easy.as_str(), "Easy");
    assert_eq!(DifficultyLevel::Normal.as_str(), "Normal");
    assert_eq!(DifficultyLevel::Hard.as_str(), "Hard");
    assert!(matches!(DifficultyLevel::Easy.next(), DifficultyLevel::Normal));
    assert!(matches!(DifficultyLevel::Normal.next(), DifficultyLevel::Hard));
    assert!(matches!(DifficultyLevel::Hard.next(), DifficultyLevel::Easy));
}

#[test]
fn gui_clicks_drive_selection_placement_and_pause() {
    let mut ui = Gui::new();
    let mut g = Game::new();
    assert!(ui.selected_tower.is_none());
    assert!(matches!(ui.ui_state, UiState::Main));

    // a field click outside placement mode does nothing
    ui.handle_click(&mut g, 450_000, 325_000);
    assert_eq!(g.towers.len(), 0);

    // the first panel button selects the Basic tower
    ui.handle_click(&mut g, 100_000, 710_000);
    assert!(matches!(ui.selected_tower, Some(TowerType::Basic)));
    assert!(matches!(ui.ui_state, UiState::TowerPlacement));

    // a buildable field click then places it and clears the selection
    ui.handle_click(&mut g, 450_000, 325_000);
    assert_eq!(g.towers.len(), 1);
    assert_eq!(g.get_player().get_gold(), 950);
    assert!(ui.selected_tower.is_none());
    assert!(matches!(ui.ui_state, UiState::Main));

    // the second button selects the Advanced tower; a click on the path
    // places nothing and keeps placement mode
    ui.handle_click(&mut g, 300_000, 710_000);
    assert!(matches!(ui.selected_tower, Some(TowerType::Advanced)));
    ui.handle_click(&mut g, 0, 350_000);
    assert_eq!(g.towers.len(), 1);
    assert!(matches!(ui.ui_state, UiState::TowerPlacement));

    // the cancel region clears the selection; the rightmost region pauses
    ui.handle_click(&mut g, 500_000, 710_000);
    assert!(ui.selected_tower.is_none());
    ui.handle_click(&mut g, 900_000, 710_000);
    assert!(matches!(g.get_game_state(), GameState::Paused));

    // the interface follows the game into a terminal screen
    g.game_state = GameState::GameOver;
    ui.update(g.get_game_state());
    assert!(matches!(ui.ui_state, UiState::GameOver));
}
