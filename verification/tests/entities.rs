use tower_defense::enemy::{Enemy, Enemy1, Enemy2, EnemyType};
use tower_defense::map::{GameMap, Map1, Map2, MapType};
use tower_defense::num::isqrt64;
use tower_defense::player::Player;
use tower_defense::powerup::{Powerup, Powerup1, Powerup2, PowerupType};
use tower_defense::tower::{Tower, Tower1, Tower2, TowerType};

#[test]
fn normal_enemy_stats() {
    let e = Enemy::new(EnemyType::Normal, 0, 0, 1000);
    assert_eq!(e.speed, 50_000);
    assert_eq!(e.get_health(), 100);
    assert_eq!(e.max_health, 100);
    assert_eq!(e.get_damage(), 10);
    assert_eq!(e.get_reward(), 20);
    assert_eq!(e.path_index, 0);
    assert!(!e.is_active());
}

#[test]
fn fast_enemy_stats() {
    let e = Enemy2::create(5, 6, 0);
    assert_eq!(e.speed, 100_000);
    assert_eq!(e.get_health(), 50);
    assert_eq!(e.max_health, 50);
    assert_eq!(e.get_damage(), 5);
    assert_eq!(e.get_reward(), 15);
    assert_eq!(e.get_position(), (5, 6));
}

#[test]
fn boss_stats_scale_normal() {
    let normal = Enemy1::create(0, 0, 0);
    let boss = Enemy::new(EnemyType::Boss, 0, 0, 0);
    assert_eq!(boss.get_health(), 3 * normal.get_health());
    assert_eq!(boss.max_health, 3 * normal.max_health);
    assert_eq!(boss.get_damage(), 2 * normal.get_damage());
    assert_eq!(boss.get_reward(), 3 * normal.get_reward());
    assert_eq!(boss.speed, normal.speed * 7 / 10);
    assert_eq!(boss.speed, 35_000);
}

#[test]
fn spawn_delay_blocks_movement_until_elapsed() {
    let map = GameMap::new(MapType::Beginner);
    let start = map.get_path_start();
    let mut e = Enemy::new(EnemyType::Normal, start.0, start.1, 2000);
    // four half-second ticks sum to exactly the two-second delay
    for _ in 0..4 {
        let reached = e.update(500, &map);
        assert!(!reached);
        assert_eq!(e.get_position(), start);
        assert!(!e.is_active());
    }
    assert_eq!(e.spawn_delay, 0);
    // the next tick activates the enemy and it moves toward waypoint 1
    let reached = e.update(100, &map);
    assert!(!reached);
    assert!(e.is_active());
    // waypoint 1 lies to the right: 50 px/s for 0.1 s is 5 px = 5000 milli-px
    assert_eq!(e.get_position(), (start.0 + 5_000, start.1));
}

#[test]
fn enemy_snaps_onto_waypoint_within_reach() {
    let map = GameMap::new(MapType::Beginner);
    let mut e = Enemy::new(EnemyType::Normal, 299_000, 350_000, 0);
    // 1 px to waypoint 1 at (300, 350); one second covers 50 px
    let reached = e.update(1000, &map);
    assert!(!reached);
    assert_eq!(e.get_position(), (300_000, 350_000));
    assert_eq!(e.path_index, 1);
}

#[test]
fn enemy_at_last_waypoint_reports_reached_end() {
    let map = GameMap::new(MapType::Beginner);
    let mut e = Enemy::new(EnemyType::Normal, 1_024_000, 500_000, 0);
    e.path_index = map.get_path().len() - 1;
    // any dt at all reports the end, even zero
    assert!(e.update(0, &map));
    let mut e2 = Enemy::new(EnemyType::Fast, 1_024_000, 500_000, 0);
    e2.path_index = map.get_path().len() - 1;
    assert!(e2.update(100_000, &map));
    assert_eq!(e2.get_position(), (1_024_000, 500_000));
}

#[test]
fn overkill_damage_reports_died_exactly_once() {
    let mut e = Enemy::new(EnemyType::Fast, 0, 0, 0);
    assert!(!e.take_damage(49));
    assert_eq!(e.get_health(), 1);
    assert!(e.take_damage(500));
    assert_eq!(e.get_health(), 0);
    assert!(!e.take_damage(500));
    assert_eq!(e.get_health(), 0);
}

#[test]
fn basic_tower_stats() {
    let t = Tower1::create(3, 4);
    assert_eq!(t.get_position(), (3, 4));
    assert_eq!(t.get_range(), 1_000_000);
    assert_eq!(t.get_damage(), 10);
    assert_eq!(t.fire_rate, 1000);
    assert_eq!(t.fire_cooldown, 0);
    assert_eq!(t.level, 1);
    assert_eq!(t.cost, 50);
    assert!(matches!(t.get_tower_type(), TowerType::Basic));
}

#[test]
fn advanced_tower_stats() {
    let t = Tower2::create(0, 0);
    assert_eq!(t.get_range(), 1_500_000);
    assert_eq!(t.get_damage(), 25);
    assert_eq!(t.fire_rate, 500);
    assert_eq!(t.cost, 100);
    assert!(matches!(t.get_tower_type(), TowerType::Advanced));
}

#[test]
fn tower_type_costs() {
    assert_eq!(TowerType::Basic.cost(), 50);
    assert_eq!(TowerType::Advanced.cost(), 100);
}

#[test]
fn tower_fires_once_per_period() {
    let mut t = Tower::new(TowerType::Basic, 0, 0);
    let targets: Vec<(i64, i64)> = vec![(100_000, 0)];
    // cooldown starts at zero: the first tick fires
    assert_eq!(t.update(16, &targets), Some((100_000, 0)));
    assert_eq!(t.fire_cooldown, 1000);
    // a target persists continuously, but ticks summing under one second
    // cannot fire again
    let mut elapsed = 0;
    while elapsed + 100 < 1000 {
        assert_eq!(t.update(100, &targets), None);
        elapsed += 100;
    }
    // the tick that completes the period fires again
    assert_eq!(t.update(100, &targets), Some((100_000, 0)));
    assert_eq!(t.fire_cooldown, 1000);
}

#[test]
fn tower_holds_fire_without_target_and_stays_ready() {
    let mut t = Tower::new(TowerType::Basic, 0, 0);
    let empty: Vec<(i64, i64)> = vec![];
    assert_eq!(t.update(5000, &empty), None);
    assert_eq!(t.fire_cooldown, 0);
    // out-of-range target: range is 1000 px, target at ~1414 px
    let far: Vec<(i64, i64)> = vec![(1_000_001, 1_000_001)];
    assert_eq!(t.update(16, &far), None);
}

#[test]
fn targeting_takes_snapshot_order_not_distance() {
    let mut t = Tower::new(TowerType::Basic, 0, 0);
    // both in range; the first of the snapshot is farther away
    let targets: Vec<(i64, i64)> = vec![(900_000, 0), (10_000, 0)];
    assert_eq!(t.update(16, &targets), Some((900_000, 0)));
}

#[test]
fn tower_upgrade_grows_stats_and_costs_half() {
    let mut t = Tower::new(TowerType::Basic, 0, 0);
    assert_eq!(t.get_sell_value(), 25);
    let paid = t.upgrade();
    assert_eq!(paid, 25);
    assert_eq!(t.level, 2);
    assert_eq!(t.get_damage(), 15);
    assert_eq!(t.get_range(), 1_010_000);
    assert_eq!(t.fire_rate, 1200);
    assert_eq!(t.get_sell_value(), 25 + 12);
    let paid2 = t.upgrade();
    assert_eq!(paid2, 25);
    assert_eq!(t.get_damage(), 22);
    assert_eq!(t.fire_rate, 1440);
    assert_eq!(t.level, 3);
}

#[test]
fn upgraded_fire_period_rounds_down() {
    let mut t = Tower::new(TowerType::Basic, 0, 0);
    t.upgrade();
    assert_eq!(t.fire_rate, 1200);
    let targets: Vec<(i64, i64)> = vec![(0, 0)];
    assert!(t.update(16, &targets).is_some());
    // one period at 1.2 shots per second is 833 ms, rounded down
    assert_eq!(t.fire_cooldown, 833);
}

#[test]
fn player_additions_saturate_instead_of_wrapping() {
    let mut p = Player::new(10, u32::MAX - 5);
    p.add_gold(100);
    assert_eq!(p.get_gold(), u32::MAX);
    p.add_score(u32::MAX);
    p.add_score(u32::MAX);
    assert_eq!(p.get_score(), u32::MAX);
}

#[test]
fn player_economy_clamps_at_zero() {
    let mut p = Player::new(100, 40);
    p.take_damage(30);
    assert_eq!(p.get_health(), 70);
    p.take_damage(1000);
    assert_eq!(p.get_health(), 0);
    assert!(p.is_dead());
    // spending more than the balance is refused outright
    p.spend_gold(41);
    assert_eq!(p.get_gold(), 40);
    p.spend_gold(40);
    assert_eq!(p.get_gold(), 0);
    p.add_gold(15);
    p.add_score(150);
    assert_eq!(p.get_gold(), 15);
    assert_eq!(p.get_score(), 150);
}

#[test]
fn maps_have_walkable_paths_and_buildable_ground() {
    let m1 = Map1::create();
    assert!(m1.get_path().len() >= 2);
    assert_eq!(m1.get_path_start(), (0, 350_000));
    assert!(m1.can_place_tower(450_000, 325_000));
    assert!(m1.can_place_tower(350_000, 250_000));
    assert!(!m1.can_place_tower(-1, 325_000));
    assert!(!m1.can_place_tower(0, 350_000));
    let m2 = Map2::create();
    assert!(m2.get_path().len() >= 2);
    assert_eq!(m2.get_path_start(), (0, 100_000));
    assert!(m2.can_place_tower(200_000, 200_000));
    assert!(!m2.can_place_tower(1_023_999, 100));
}

#[test]
fn powerups_run_down_their_duration() {
    let mut p = Powerup::new(PowerupType::DamageBoost);
    assert_eq!(p.get_cost(), 100);
    assert_eq!(p.get_duration(), 10_000);
    assert!(!p.is_active());
    assert!(matches!(p.get_type(), PowerupType::DamageBoost));
    // an inactive powerup does not burn down
    assert!(!p.update(5000));
    assert_eq!(p.get_duration(), 10_000);
    p.activate();
    assert!(p.is_active());
    assert!(p.update(4000));
    assert_eq!(p.get_duration(), 6_000);
    assert!(!p.update(6000));
    assert!(!p.is_active());
    assert_eq!(p.get_duration(), 0);

    let g = Powerup2::create();
    assert_eq!(g.get_cost(), 150);
    assert_eq!(g.get_duration(), 20_000);
}

#[test]
fn integer_square_root_brackets() {
    assert_eq!(isqrt64(0), 0);
    assert_eq!(isqrt64(1), 1);
    assert_eq!(isqrt64(3), 1);
    assert_eq!(isqrt64(4), 2);
    assert_eq!(isqrt64(99), 9);
    assert_eq!(isqrt64(100), 10);
    assert_eq!(isqrt64(281_474_976_710_656), 16_777_216);
    assert_eq!(isqrt64(u64::MAX), 4_294_967_295);
}
