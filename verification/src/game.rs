//! The simulation orchestrator: it owns the live enemies and towers, the
//! player ledger and the wave counter, and advances the whole world once
//! per tick.
//!
//! Per tick, while the game is Playing:
//! 1. elapsed time grows and the wave cooldown counts down; when it has
//!    run out a new wave spawns and the cooldown resets,
//! 2. the positions of all active enemies are snapshotted,
//! 3. every tower ticks against that snapshot; each shot yields a fire
//!    event and a transient projectile for presentation,
//! 4. every fire event damages the first enemy within a fixed hit
//!    tolerance of the recorded target position,
//! 5. every enemy advances along the path; dead enemies credit gold and
//!    score, enemies that reached the end deduct player health, and both
//!    leave the live set (death takes priority over reaching the end),
//! 6. the player ledger is updated and the terminal states checked:
//!    GameOver when the player's health ran out, Victory when twenty or
//!    more waves have spawned and no live enemy remains.
//!
//! The whole transition is written down as the spec function `tick_model`,
//! and `Game::update` is proved to implement exactly that function.
use vstd::prelude::*;
use crate::enemy::{
    damaged, dist2, enemy_new_spec, enemy_update_reached, enemy_updated, enemy_wf, Enemy,
    EnemyType,
};
use crate::map::{can_place_at, in_area, map_areas, map_path, point_wf, GameMap, MapType};
use crate::num::{clamp_u32, clamp_to_u32, sat_add_u32, sat_add_u64, sat_sub_u32};
use crate::player::Player;
use crate::tower::{
    cost_of, tower_fired, tower_new_spec, tower_updated, tower_wf, lemma_find_target_in_snap,
    Tower, TowerType,
};

verus! {

/// Milliseconds before the first wave spawns.
pub const FIRST_WAVE_COOLDOWN: u32 = 5_000;

/// Milliseconds between subsequent waves.
pub const WAVE_COOLDOWN: u32 = 20_000;

/// Enemies in a wave: this base count plus the wave counter.
pub const WAVE_BASE_COUNT: u64 = 5;

/// Spawn delay of the first enemy of a wave, in milliseconds.
pub const SPAWN_DELAY_BASE: u64 = 2_000;

/// Extra spawn delay of each further enemy of a wave, in milliseconds.
pub const SPAWN_DELAY_STEP: u64 = 500;

/// A fire event damages the first enemy within this many milli-pixels of
/// the recorded target position.
pub const HIT_TOLERANCE: i64 = 15_000;

/// Lifetime of a presentation projectile, in milliseconds.
pub const PROJECTILE_LIFETIME: u32 = 500;

/// Waves that must have spawned before victory can be declared.
pub const VICTORY_WAVE: u32 = 20;

pub const START_HEALTH: u32 = 1_000;

pub const START_GOLD: u32 = 1_000;

#[derive(Clone, Copy, Debug, PartialEq, Eq, Structural)]
pub enum GameState {
    Playing,
    Paused,
    GameOver,
    Victory,
}

/// A transient tower shot, kept only so that a presentation layer can draw
/// it; it never affects the simulation.
#[derive(Clone, Copy, Debug)]
pub struct Projectile {
    pub start: (i64, i64),
    pub target: (i64, i64),
    /// Milliseconds since the shot, saturating.
    pub time_alive: u32,
    pub max_lifetime: u32,
    pub tower_type: TowerType,
}

pub struct Game {
    pub enemies: Vec<Enemy>,
    pub towers: Vec<Tower>,
    pub projectiles: Vec<Projectile>,
    pub player: Player,
    pub current_map: MapType,
    /// Number of waves spawned so far.
    pub wave: u32,
    /// Elapsed game time in milliseconds.
    pub game_time: u64,
    /// Milliseconds until the next wave spawns.
    pub wave_cooldown: u32,
    pub game_state: GameState,
}

/// The mathematical state of a game: the live collections as sequences,
/// everything else as plain values.
#[verifier::ext_equal]
pub ghost struct GameModel {
    pub enemies: Seq<Enemy>,
    pub towers: Seq<Tower>,
    pub projectiles: Seq<Projectile>,
    pub player: Player,
    pub current_map: MapType,
    pub wave: u32,
    pub game_time: u64,
    pub wave_cooldown: u32,
    pub game_state: GameState,
}

impl View for Game {
    type V = GameModel;

    open spec fn view(&self) -> GameModel {
        GameModel {
            enemies: self.enemies@,
            towers: self.towers@,
            projectiles: self.projectiles@,
            player: self.player,
            current_map: self.current_map,
            wave: self.wave,
            game_time: self.game_time,
            wave_cooldown: self.wave_cooldown,
            game_state: self.game_state,
        }
    }
}


/// Which kind the `w`-th wave (counting from one) consists of: every fifth
/// wave is Boss, every remaining third is Fast, the rest are Normal. The
/// divisible-by-five check comes first, so a wave number divisible by both
/// five and three resolves to Boss.
pub open spec fn wave_kind_of(w: int) -> EnemyType {
    if w % 5 == 0 {
        EnemyType::Boss
    } else if w % 3 == 0 {
        EnemyType::Fast
    } else {
        EnemyType::Normal
    }
}

/// The staggered spawn delay of the `i`-th enemy of a wave.
pub open spec fn spawn_delay_of(i: int) -> u32 {
    if SPAWN_DELAY_BASE + SPAWN_DELAY_STEP * i > u32::MAX {
        u32::MAX
    } else {
        (SPAWN_DELAY_BASE + SPAWN_DELAY_STEP * i) as u32
    }
}

/// The enemies one wave adds: `WAVE_BASE_COUNT + wave` enemies, all of the
/// kind of wave number `wave + 1`, at the path start, with staggered delays.
pub open spec fn wave_batch(wave: u32, start: (i64, i64)) -> Seq<Enemy> {
    Seq::new(
        (WAVE_BASE_COUNT + wave) as nat,
        |i: int| enemy_new_spec(wave_kind_of(wave + 1), start.0, start.1, spawn_delay_of(i)),
    )
}

/// The positions of the active enemies, in the order the live set holds
/// them; inactive (not yet spawned) enemies are invisible to targeting.
pub open spec fn active_positions(es: Seq<Enemy>) -> Seq<(i64, i64)>
    decreases es.len(),
{
    if es.len() == 0 {
        Seq::empty()
    } else {
        active_positions(es.drop_last()) + (if es.last().active {
            seq![(es.last().x, es.last().y)]
        } else {
            Seq::empty()
        })
    }
}

/// All towers after one tick against the snapshot.
pub open spec fn ticked_towers(ts: Seq<Tower>, dt: u32, snap: Seq<(i64, i64)>) -> Seq<Tower> {
    ts.map_values(|t: Tower| tower_updated(t, dt, snap))
}

/// The fire events of one tick: for every tower that fired, its chosen
/// target position paired with the tower's damage, in tower order.
pub open spec fn fire_events(ts: Seq<Tower>, dt: u32, snap: Seq<(i64, i64)>) -> Seq<
    ((i64, i64), u32),
>
    decreases ts.len(),
{
    if ts.len() == 0 {
        Seq::empty()
    } else {
        fire_events(ts.drop_last(), dt, snap) + (match tower_fired(ts.last(), dt, snap) {
            Some(p) => seq![(p, ts.last().damage)],
            None => Seq::empty(),
        })
    }
}

pub open spec fn projectile_of(t: Tower, target: (i64, i64)) -> Projectile {
    Projectile {
        start: (t.x, t.y),
        target,
        time_alive: 0u32,
        max_lifetime: PROJECTILE_LIFETIME,
        tower_type: t.tower_type,
    }
}

/// The presentation projectiles spawned by one tick, in tower order.
pub open spec fn new_projectiles(ts: Seq<Tower>, dt: u32, snap: Seq<(i64, i64)>) -> Seq<Projectile>
    decreases ts.len(),
{
    if ts.len() == 0 {
        Seq::empty()
    } else {
        new_projectiles(ts.drop_last(), dt, snap) + (match tower_fired(ts.last(), dt, snap) {
            Some(p) => seq![projectile_of(ts.last(), p)],
            None => Seq::empty(),
        })
    }
}

/// Projectiles after aging by `dt`: each gains `dt` of lifetime and the
/// expired ones leave, keeping the order of the rest.
pub open spec fn aged_projectiles(ps: Seq<Projectile>, dt: u32) -> Seq<Projectile>
    decreases ps.len(),
{
    if ps.len() == 0 {
        Seq::empty()
    } else {
        let p = ps.last();
        let aged = Projectile { time_alive: sat_add_u32(p.time_alive, dt), ..p };
        aged_projectiles(ps.drop_last(), dt) + (if aged.time_alive < aged.max_lifetime {
            seq![aged]
        } else {
            Seq::empty()
        })
    }
}

/// An enemy is hit by a fire event when it stands within the hit tolerance
/// of the recorded target position, whether or not it is the enemy the
/// tower aimed at.
pub open spec fn within_tolerance(e: Enemy, pos: (i64, i64)) -> bool {
    dist2((e.x, e.y), pos) <= HIT_TOLERANCE * HIT_TOLERANCE
}

/// One fire event applied to the live set: the first enemy within
/// tolerance of the target position takes the damage; the scan stops
/// there, so one shot never hits twice.
pub open spec fn damage_applied(es: Seq<Enemy>, pos: (i64, i64), dmg: u32) -> Seq<Enemy>
    decreases es.len(),
{
    if es.len() == 0 {
        es
    } else if within_tolerance(es[0], pos) {
        seq![damaged(es[0], dmg)] + es.skip(1)
    } else {
        seq![es[0]] + damage_applied(es.skip(1), pos, dmg)
    }
}

/// All fire events of a tick applied in order.
pub open spec fn events_applied(es: Seq<Enemy>, evs: Seq<((i64, i64), u32)>) -> Seq<Enemy>
    decreases evs.len(),
{
    if evs.len() == 0 {
        es
    } else {
        let prev = events_applied(es, evs.drop_last());
        damage_applied(prev, evs.last().0, evs.last().1)
    }
}

/// Death takes priority over reaching the end: a dead enemy cannot march
/// into the player's base, so an enemy that is both dead and at the last
/// waypoint counts as died.
pub open spec fn enemy_dies(e: Enemy, dt: u32, path: Seq<(i64, i64)>) -> bool {
    enemy_updated(e, dt, path).health == 0
}

pub open spec fn enemy_breaches(e: Enemy, dt: u32, path: Seq<(i64, i64)>) -> bool {
    !enemy_dies(e, dt, path) && enemy_update_reached(e, dt, path)
}

/// The live set after the movement pass: every enemy advanced, and the
/// dead and the arrived removed, in one deferred sweep.
pub open spec fn surviving_enemies(es: Seq<Enemy>, dt: u32, path: Seq<(i64, i64)>) -> Seq<Enemy>
    decreases es.len(),
{
    if es.len() == 0 {
        Seq::empty()
    } else {
        surviving_enemies(es.drop_last(), dt, path) + (if !enemy_dies(es.last(), dt, path)
            && !enemy_breaches(es.last(), dt, path) {
            seq![enemy_updated(es.last(), dt, path)]
        } else {
            Seq::empty()
        })
    }
}

/// Total damage dealt to the player by enemies that reached the end this
/// tick, as a saturating 64-bit sum.
pub open spec fn total_breach_damage(es: Seq<Enemy>, dt: u32, path: Seq<(i64, i64)>) -> u64
    decreases es.len(),
{
    if es.len() == 0 {
        0u64
    } else {
        let prev = total_breach_damage(es.drop_last(), dt, path);
        if enemy_breaches(es.last(), dt, path) {
            sat_add_u64(prev, es.last().damage as u64)
        } else {
            prev
        }
    }
}

/// Total gold earned from enemies that died this tick.
pub open spec fn total_rewards(es: Seq<Enemy>, dt: u32, path: Seq<(i64, i64)>) -> u64
    decreases es.len(),
{
    if es.len() == 0 {
        0u64
    } else {
        let prev = total_rewards(es.drop_last(), dt, path);
        if enemy_dies(es.last(), dt, path) {
            sat_add_u64(prev, es.last().reward as u64)
        } else {
            prev
        }
    }
}

/// Total score earned this tick: ten points per gold of reward.
pub open spec fn total_score(es: Seq<Enemy>, dt: u32, path: Seq<(i64, i64)>) -> u64
    decreases es.len(),
{
    if es.len() == 0 {
        0u64
    } else {
        let prev = total_score(es.drop_last(), dt, path);
        if enemy_dies(es.last(), dt, path) {
            sat_add_u64(prev, (es.last().reward * 10) as u64)
        } else {
            prev
        }
    }
}

/// The player ledger after a tick's deductions and rewards.
pub open spec fn economy_applied(p: Player, ded: u64, rew: u64, sc: u64) -> Player {
    let p1 = if ded > 0 {
        Player { health: sat_sub_u32(p.health, clamp_u32(ded)), ..p }
    } else {
        p
    };
    if rew > 0 {
        Player {
            gold: sat_add_u32(p1.gold, clamp_u32(rew)),
            score: sat_add_u32(p1.score, clamp_u32(sc)),
            ..p1
        }
    } else {
        p1
    }
}

/// The game state at the end of a tick: Victory exactly when enough waves
/// have spawned and no live enemy remains; else GameOver exactly when this
/// tick's deduction emptied the player's health; else still Playing.
pub open spec fn state_after(ded: u64, p_after: Player, wave: u32, live: nat) -> GameState {
    if wave >= VICTORY_WAVE && live == 0 {
        GameState::Victory
    } else if ded > 0 && p_after.health == 0 {
        GameState::GameOver
    } else {
        GameState::Playing
    }
}

/// The whole per-tick transition. A game that is not Playing does not
/// change at all.
pub open spec fn tick_model(g: GameModel, dt: u32) -> GameModel {
    if g.game_state != GameState::Playing {
        g
    } else {
        let time2 = sat_add_u64(g.game_time, dt as u64);
        let spawning = g.wave_cooldown == 0;
        let wave2 = if spawning { sat_add_u32(g.wave, 1) } else { g.wave };
        let cooldown2 = if spawning { WAVE_COOLDOWN } else { sat_sub_u32(g.wave_cooldown, dt) };
        let enemies1 = if spawning {
            g.enemies + wave_batch(g.wave, map_path(g.current_map)[0])
        } else {
            g.enemies
        };
        let snap = active_positions(enemies1);
        let towers2 = ticked_towers(g.towers, dt, snap);
        let projectiles2 = aged_projectiles(g.projectiles + new_projectiles(g.towers, dt, snap), dt);
        let enemies2 = events_applied(enemies1, fire_events(g.towers, dt, snap));
        let path = map_path(g.current_map);
        let enemies3 = surviving_enemies(enemies2, dt, path);
        let ded = total_breach_damage(enemies2, dt, path);
        let rew = total_rewards(enemies2, dt, path);
        let sc = total_score(enemies2, dt, path);
        let player2 = economy_applied(g.player, ded, rew, sc);
        let state2 = state_after(ded, player2, wave2, enemies3.len());
        GameModel {
            enemies: enemies3,
            towers: towers2,
            projectiles: projectiles2,
            player: player2,
            current_map: g.current_map,
            wave: wave2,
            game_time: time2,
            wave_cooldown: cooldown2,
            game_state: state2,
        }
    }
}

pub open spec fn toggled(s: GameState) -> GameState {
    match s {
        GameState::Playing => GameState::Paused,
        GameState::Paused => GameState::Playing,
        _ => s,
    }
}

pub open spec fn place_allowed(g: GameModel, tower_type: TowerType, x: i64, y: i64) -> bool {
    g.player.gold >= cost_of(tower_type) && can_place_at(map_areas(g.current_map), x, y)
}

pub open spec fn place_tower_model(g: GameModel, tower_type: TowerType, x: i64, y: i64) -> GameModel {
    if place_allowed(g, tower_type, x, y) {
        GameModel {
            towers: g.towers.push(tower_new_spec(tower_type, x, y)),
            player: Player { gold: (g.player.gold - cost_of(tower_type)) as u32, ..g.player },
            ..g
        }
    } else {
        g
    }
}

/// A fresh game: empty live sets, the beginner map, full starting funds,
/// five seconds on the clock before the first wave.
pub open spec fn initial_model() -> GameModel {
    GameModel {
        enemies: Seq::empty(),
        towers: Seq::empty(),
        projectiles: Seq::empty(),
        player: Player { health: START_HEALTH, gold: START_GOLD, score: 0u32 },
        current_map: MapType::Beginner,
        wave: 0u32,
        game_time: 0u64,
        wave_cooldown: FIRST_WAVE_COOLDOWN,
        game_state: GameState::Playing,
    }
}

/// The wave kind rule, as an executable function of the one-based wave
/// number.
pub fn wave_kind(wave_number: u64) -> (k: EnemyType)
    ensures
        k == wave_kind_of(wave_number as int),
{
    if wave_number % 5 == 0 {
        EnemyType::Boss
    } else if wave_number % 3 == 0 {
        EnemyType::Fast
    } else {
        EnemyType::Normal
    }
}

/// A wave number divisible by five spawns Boss enemies even when it is
/// also divisible by three: the five-check comes first.
pub proof fn lemma_boss_wave_priority(w: int)
    requires
        w % 5 == 0,
    ensures
        wave_kind_of(w) == EnemyType::Boss,
{
}

/// Victory is declared only with at least `VICTORY_WAVE` waves spawned and
/// exactly zero live enemies.
pub proof fn lemma_victory_requires_cleared_board(g: GameModel, dt: u32)
    requires
        g.game_state == GameState::Playing,
        tick_model(g, dt).game_state == GameState::Victory,
    ensures
        tick_model(g, dt).wave >= VICTORY_WAVE,
        tick_model(g, dt).enemies.len() == 0,
{
}

impl Game {
    /// Every live enemy is well formed and stands at a valid waypoint index
    /// of the active map; every live tower is well formed.
    pub open spec fn wf(self) -> bool {
        &&& forall|i: int|
            0 <= i < self.enemies@.len() ==> enemy_wf(#[trigger] self.enemies@[i])
                && self.enemies@[i].path_index < map_path(self.current_map).len()
        &&& forall|i: int| 0 <= i < self.towers@.len() ==> tower_wf(#[trigger] self.towers@[i])
    }

    pub fn new() -> (g: Game)
        ensures
            g@ == initial_model(),
            g.wf(),
    {
        let g = Game {
            enemies: Vec::new(),
            towers: Vec::new(),
            projectiles: Vec::new(),
            player: Player::new(START_HEALTH, START_GOLD),
            current_map: MapType::Beginner,
            wave: 0,
            game_time: 0,
            wave_cooldown: FIRST_WAVE_COOLDOWN,
            game_state: GameState::Playing,
        };
        proof {
            assert(g@ =~= initial_model());
        }
        g
    }

    /// The active map, rebuilt from its kind.
    pub fn get_current_map(&self) -> (m: GameMap)
        ensures
            m.wf(),
            m.map_type == self.current_map,
            m.path@ == map_path(self.current_map),
            m.buildable_areas@ == map_areas(self.current_map),
    {
        GameMap::new(self.current_map)
    }

    pub fn get_player(&self) -> (p: &Player)
        ensures
            p == &self.player,
    {
        &self.player
    }

    pub fn get_wave(&self) -> (w: u32)
        ensures
            w == self.wave,
    {
        self.wave
    }

    pub fn get_game_state(&self) -> (s: &GameState)
        ensures
            s == &self.game_state,
    {
        &self.game_state
    }

    /// Playing and Paused toggle into each other; the two terminal states
    /// absorb the toggle.
    pub fn toggle_pause(&mut self)
        ensures
            final(self)@ == (GameModel { game_state: toggled(old(self)@.game_state), ..old(self)@ }),
    {
        self.game_state = match self.game_state {
            GameState::Playing => GameState::Paused,
            GameState::Paused => GameState::Playing,
            state => state,
        };
    }

    /// Build a tower: succeeds exactly when the player can afford the
    /// tower's cost and (x, y) lies in a buildable rectangle of the active
    /// map; on success the cost is debited and the tower joins the live
    /// set, otherwise nothing changes.
    pub fn place_tower(&mut self, tower_type: TowerType, x: i64, y: i64) -> (placed: bool)
        requires
            old(self).wf(),
        ensures
            placed == place_allowed(old(self)@, tower_type, x, y),
            final(self)@ == place_tower_model(old(self)@, tower_type, x, y),
            final(self).wf(),
    {
        let tower_cost = tower_type.cost();
        let map = self.get_current_map();
        if self.player.get_gold() >= tower_cost && map.can_place_tower(x, y) {
            proof {
                let areas = map_areas(self.current_map);
                let i = choose|i: int| 0 <= i < areas.len() && in_area(#[trigger] areas[i], x, y);
                assert(crate::map::area_wf(areas[i]));
            }
            let tower = Tower::new(tower_type, x, y);
            self.towers.push(tower);
            self.player.spend_gold(tower_cost);
            proof {
                assert(self@ =~= place_tower_model(old(self)@, tower_type, x, y));
            }
            true
        } else {
            proof {
                assert(self@ =~= place_tower_model(old(self)@, tower_type, x, y));
            }
            false
        }
    }

    /// Spawn one wave at the path start: `WAVE_BASE_COUNT + wave` enemies
    /// of the kind of wave number `wave + 1`, with staggered spawn delays.
    fn spawn_wave(&mut self)
        requires
            old(self).wf(),
        ensures
            final(self)@ == (GameModel {
                enemies: old(self)@.enemies + wave_batch(
                    old(self).wave,
                    map_path(old(self).current_map)[0],
                ),
                ..old(self)@
            }),
            final(self).wf(),
    {
        let count: u64 = WAVE_BASE_COUNT + (self.wave as u64);
        let kind = wave_kind((self.wave as u64) + 1);
        let map = self.get_current_map();
        let start = map.get_path_start();
        let ghost orig = self@;
        let ghost batch = wave_batch(self.wave, map_path(self.current_map)[0]);
        let mut i: u64 = 0;
        while i < count
            invariant
                i <= count,
                count == WAVE_BASE_COUNT + orig.wave,
                kind == wave_kind_of(orig.wave + 1),
                start == map_path(orig.current_map)[0],
                batch == wave_batch(orig.wave, map_path(orig.current_map)[0]),
                self.enemies@.len() == orig.enemies.len() + i,
                forall|j: int| 0 <= j < orig.enemies.len() ==> self.enemies@[j] == orig.enemies[j],
                forall|j: int|
                    0 <= j < i ==> self.enemies@[orig.enemies.len() + j] == batch[j],
                self.towers@ == orig.towers,
                self.projectiles@ == orig.projectiles,
                self.player == orig.player,
                self.current_map == orig.current_map,
                self.wave == orig.wave,
                self.game_time == orig.game_time,
                self.wave_cooldown == orig.wave_cooldown,
                self.game_state == orig.game_state,
                self.wf(),
                crate::map::GameMap::wf(map),
                map.map_type == orig.current_map,
            decreases count - i,
        {
            let delay64: u64 = SPAWN_DELAY_BASE + SPAWN_DELAY_STEP * i;
            let delay: u32 = if delay64 > 0xFFFF_FFFFu64 {
                u32::MAX
            } else {
                delay64 as u32
            };
            let e = crate::enemy::Enemy::new(kind, start.0, start.1, delay);
            proof {
                assert(delay == spawn_delay_of(i as int));
                assert(e == batch[i as int]);
                assert(enemy_wf(e));
            }
            self.enemies.push(e);
            i = i + 1;
        }
        proof {
            assert(self.enemies@ =~= orig.enemies + batch);
            assert(self@ =~= (GameModel { enemies: orig.enemies + batch, ..orig }));
        }
    }

    /// Apply one fire event: scan the live set in order and damage the
    /// first enemy within the hit tolerance of the target position.
    fn damage_enemy_at_position(&mut self, position: (i64, i64), damage: u32)
        requires
            old(self).wf(),
            point_wf(position),
        ensures
            self_after_damage(*old(self), *final(self), position, damage),
            final(self).wf(),
    {
        let ghost orig = self.enemies@;
        let n = self.enemies.len();
        let mut i: usize = 0;
        while i < n
            invariant
                i <= n,
                n == self.enemies@.len(),
                self.enemies@ == orig,
                orig == old(self).enemies@,
                self.towers@ == old(self).towers@,
                self.projectiles@ == old(self).projectiles@,
                self.player == old(self).player,
                self.current_map == old(self).current_map,
                self.wave == old(self).wave,
                self.game_time == old(self).game_time,
                self.wave_cooldown == old(self).wave_cooldown,
                self.game_state == old(self).game_state,
                self.wf(),
                point_wf(position),
                forall|j: int| 0 <= j < i ==> !within_tolerance(#[trigger] orig[j], position),
            decreases n - i,
        {
            let e = self.enemies[i];
            if crate::enemy::within_distance((e.x, e.y), position, HIT_TOLERANCE) {
                let mut hit = self.enemies[i];
                hit.take_damage(damage);
                self.enemies[i] = hit;
                proof {
                    lemma_damage_applied_hit(orig, position, damage, i as int);
                    assert(self.enemies@ == damage_applied(orig, position, damage));
                    assert(self@ =~= (GameModel {
                        enemies: damage_applied(old(self)@.enemies, position, damage),
                        ..old(self)@
                    }));
                    assert forall|j: int| 0 <= j < self.enemies@.len() implies enemy_wf(
                        #[trigger] self.enemies@[j],
                    ) && self.enemies@[j].path_index < map_path(self.current_map).len() by {
                        assert(orig[j] == old(self)@.enemies[j]);
                        if j == i as int {
                            assert(self.enemies@[j] == damaged(orig[j], damage));
                        } else {
                            assert(self.enemies@[j] == orig[j]);
                        }
                    }
                }
                return;
            }
            i = i + 1;
        }
        proof {
            lemma_damage_applied_miss(orig, position, damage);
            assert(self@ =~= (GameModel {
                enemies: damage_applied(old(self)@.enemies, position, damage),
                ..old(self)@
            }));
        }
    }

    /// One simulation tick of `dt` milliseconds, exactly the transition
    /// `tick_model`. Nothing happens unless the game is Playing.
    #[verifier::rlimit(100)]
    pub fn update(&mut self, dt: u32)
        requires
            old(self).wf(),
        ensures
            final(self)@ == tick_model(old(self)@, dt),
            final(self).wf(),
    {
        match self.game_state {
            GameState::Playing => {}
            _ => {
                return;
            }
        }
        let ghost g0 = old(self)@;

        // stage 1: elapsed time and wave spawning
        self.game_time = self.game_time.saturating_add(dt as u64);
        if self.wave_cooldown > 0 {
            self.wave_cooldown = self.wave_cooldown.saturating_sub(dt);
        } else {
            self.spawn_wave();
            self.wave = if self.wave < u32::MAX {
                self.wave + 1
            } else {
                self.wave
            };
            self.wave_cooldown = WAVE_COOLDOWN;
        }
        let ghost enemies1 = self@.enemies;
        let ghost wave2v = self@.wave;
        let ghost cd2v = self@.wave_cooldown;
        let ghost time2v = self@.game_time;
        proof {
            assert(enemies1 == (if g0.wave_cooldown == 0 {
                g0.enemies + wave_batch(g0.wave, map_path(g0.current_map)[0])
            } else {
                g0.enemies
            }));
            assert(wave2v == (if g0.wave_cooldown == 0 {
                sat_add_u32(g0.wave, 1)
            } else {
                g0.wave
            }));
            assert(cd2v == (if g0.wave_cooldown == 0 {
                WAVE_COOLDOWN
            } else {
                sat_sub_u32(g0.wave_cooldown, dt)
            }));
            assert(time2v == sat_add_u64(g0.game_time, dt as u64));
            assert(self.towers@ == g0.towers);
            assert(self.projectiles@ == g0.projectiles);
            assert(self.player == g0.player);
            assert(self.current_map == g0.current_map);
            assert(self.game_state == GameState::Playing);
        }

        // stage 2: snapshot the active enemies' positions
        let mut snap: Vec<(i64, i64)> = Vec::new();
        let n_enemies = self.enemies.len();
        let mut i: usize = 0;
        while i < n_enemies
            invariant
                i <= n_enemies,
                n_enemies == self.enemies@.len(),
                self.enemies@ == enemies1,
                self.wf(),
                snap@ == active_positions(enemies1.take(i as int)),
                forall|k: int| 0 <= k < snap@.len() ==> point_wf(#[trigger] snap@[k]),
            decreases n_enemies - i,
        {
            let e = self.enemies[i];
            proof {
                assert(enemies1.take(i + 1).drop_last() =~= enemies1.take(i as int));
                assert(enemies1.take(i + 1).last() == enemies1[i as int]);
            }
            if e.is_active() {
                snap.push(e.get_position());
            }
            i = i + 1;
        }
        proof {
            assert(enemies1.take(n_enemies as int) =~= enemies1);
        }

        // stage 3: tick every tower, collecting fire events and projectiles
        let ghost towers0 = self.towers@;
        let mut events: Vec<((i64, i64), u32)> = Vec::new();
        let mut spawned_projectiles: Vec<Projectile> = Vec::new();
        let n_towers = self.towers.len();
        let mut ti: usize = 0;
        while ti < n_towers
            invariant
                ti <= n_towers,
                n_towers == self.towers@.len(),
                towers0.len() == n_towers,
                self.enemies@ == enemies1,
                self.wf(),
                forall|k: int| 0 <= k < snap@.len() ==> point_wf(#[trigger] snap@[k]),
                forall|j: int| ti <= j < n_towers ==> self.towers@[j] == towers0[j],
                forall|j: int|
                    0 <= j < ti ==> self.towers@[j] == tower_updated(towers0[j], dt, snap@),
                events@ == fire_events(towers0.take(ti as int), dt, snap@),
                spawned_projectiles@ == new_projectiles(towers0.take(ti as int), dt, snap@),
                forall|k: int| 0 <= k < events@.len() ==> point_wf(#[trigger] events@[k].0),
                self.projectiles@ == g0.projectiles,
                self.player == g0.player,
                self.current_map == g0.current_map,
                self.wave == wave2v,
                self.game_time == time2v,
                self.wave_cooldown == cd2v,
                self.game_state == GameState::Playing,
            decreases n_towers - ti,
        {
            let mut t = self.towers[ti];
            proof {
                assert(towers0.take(ti + 1).drop_last() =~= towers0.take(ti as int));
                assert(towers0.take(ti + 1).last() == towers0[ti as int]);
            }
            let fired = t.update(dt, &snap);
            self.towers[ti] = t;
            if let Some(target) = fired {
                proof {
                    lemma_find_target_in_snap(
                        towers0[ti as int].x,
                        towers0[ti as int].y,
                        towers0[ti as int].range,
                        snap@,
                    );
                    assert(point_wf(target));
                }
                events.push((target, t.get_damage()));
                spawned_projectiles.push(
                    Projectile {
                        start: t.get_position(),
                        target,
                        time_alive: 0,
                        max_lifetime: PROJECTILE_LIFETIME,
                        tower_type: t.get_tower_type(),
                    },
                );
            }
            ti = ti + 1;
        }
        proof {
            assert(towers0.take(n_towers as int) =~= towers0);
            assert(self.towers@ =~= ticked_towers(towers0, dt, snap@));
        }

        // stage 3b: age the projectiles, the newly spawned ones included
        self.projectiles.append(&mut spawned_projectiles);
        let ghost projs1 = self.projectiles@;
        let mut kept_projectiles: Vec<Projectile> = Vec::new();
        let n_projs = self.projectiles.len();
        let mut pi: usize = 0;
        while pi < n_projs
            invariant
                pi <= n_projs,
                n_projs == self.projectiles@.len(),
                self.projectiles@ == projs1,
                kept_projectiles@ == aged_projectiles(projs1.take(pi as int), dt),
            decreases n_projs - pi,
        {
            proof {
                assert(projs1.take(pi + 1).drop_last() =~= projs1.take(pi as int));
                assert(projs1.take(pi + 1).last() == projs1[pi as int]);
            }
            let mut p = self.projectiles[pi];
            p.time_alive = p.time_alive.saturating_add(dt);
            if p.time_alive < p.max_lifetime {
                kept_projectiles.push(p);
            }
            pi = pi + 1;
        }
        self.projectiles = kept_projectiles;
        proof {
            assert(projs1.take(n_projs as int) =~= projs1);
        }

        // stage 4: resolve the fire events against the live enemies
        let ghost projs2v = self.projectiles@;
        proof {
            assert(projs2v == aged_projectiles(
                g0.projectiles + new_projectiles(g0.towers, dt, snap@),
                dt,
            ));
        }
        let ghost events_all = events@;
        let n_events = events.len();
        let mut evi: usize = 0;
        while evi < n_events
            invariant
                evi <= n_events,
                n_events == events@.len(),
                events@ == events_all,
                forall|k: int| 0 <= k < events@.len() ==> point_wf(#[trigger] events@[k].0),
                self.enemies@ == events_applied(enemies1, events_all.take(evi as int)),
                self.wf(),
                self.towers@ == ticked_towers(towers0, dt, snap@),
                self.projectiles@ == projs2v,
                self.player == g0.player,
                self.current_map == g0.current_map,
                self.wave == wave2v,
                self.game_time == time2v,
                self.wave_cooldown == cd2v,
                self.game_state == GameState::Playing,
            decreases n_events - evi,
        {
            proof {
                assert(events_all.take(evi + 1).drop_last() =~= events_all.take(evi as int));
                assert(events_all.take(evi + 1).last() == events_all[evi as int]);
            }
            let ev = events[evi];
            self.damage_enemy_at_position(ev.0, ev.1);
            evi = evi + 1;
        }
        let ghost enemies2 = self.enemies@;
        proof {
            assert(events_all.take(n_events as int) =~= events_all);
            assert(enemies2 == events_applied(enemies1, fire_events(towers0, dt, snap@)));
        }

        // stage 5: advance every enemy, classify, and sweep the removals
        let map = self.get_current_map();
        let ghost path = map.path@;
        let mut kept: Vec<Enemy> = Vec::new();
        let mut breach: u64 = 0;
        let mut rewards: u64 = 0;
        let mut score: u64 = 0;
        let n_live = self.enemies.len();
        let mut mi: usize = 0;
        while mi < n_live
            invariant
                mi <= n_live,
                n_live == self.enemies@.len(),
                self.enemies@ == enemies2,
                self.wf(),
                map.wf(),
                map.map_type == self.current_map,
                path == map_path(self.current_map),
                path == map.path@,
                kept@ == surviving_enemies(enemies2.take(mi as int), dt, path),
                breach == total_breach_damage(enemies2.take(mi as int), dt, path),
                rewards == total_rewards(enemies2.take(mi as int), dt, path),
                score == total_score(enemies2.take(mi as int), dt, path),
                forall|k: int|
                    0 <= k < kept@.len() ==> enemy_wf(#[trigger] kept@[k]) && kept@[k].path_index
                        < path.len(),
            decreases n_live - mi,
        {
            proof {
                assert(enemies2.take(mi + 1).drop_last() =~= enemies2.take(mi as int));
                assert(enemies2.take(mi + 1).last() == enemies2[mi as int]);
            }
            let mut e = self.enemies[mi];
            let reached = e.update(dt, &map);
            if e.get_health() == 0 {
                rewards = rewards.saturating_add(e.get_reward() as u64);
                score = score.saturating_add((e.get_reward() as u64) * 10);
            } else if reached {
                breach = breach.saturating_add(e.get_damage() as u64);
            } else {
                kept.push(e);
            }
            mi = mi + 1;
        }
        self.enemies = kept;
        proof {
            assert(enemies2.take(n_live as int) =~= enemies2);
        }

        // stage 6: settle the ledger and check the terminal states
        if breach > 0 {
            self.player.take_damage(clamp_to_u32(breach));
            if self.player.is_dead() {
                self.game_state = GameState::GameOver;
            }
        }
        if rewards > 0 {
            self.player.add_gold(clamp_to_u32(rewards));
            self.player.add_score(clamp_to_u32(score));
        }
        if self.wave >= VICTORY_WAVE && self.enemies.len() == 0 {
            self.game_state = GameState::Victory;
        }
        proof {
            let snapg = active_positions(enemies1);
            let path_g = map_path(g0.current_map);
            let m = tick_model(g0, dt);
            assert(snap@ == snapg);
            assert(path == path_g);
            assert(m.enemies == surviving_enemies(enemies2, dt, path_g));
            assert(m.towers == ticked_towers(g0.towers, dt, snapg));
            assert(m.projectiles == aged_projectiles(
                g0.projectiles + new_projectiles(g0.towers, dt, snapg),
                dt,
            ));
            assert(m.player == economy_applied(
                g0.player,
                total_breach_damage(enemies2, dt, path_g),
                total_rewards(enemies2, dt, path_g),
                total_score(enemies2, dt, path_g),
            ));
            assert(m.game_state == state_after(
                total_breach_damage(enemies2, dt, path_g),
                m.player,
                m.wave,
                m.enemies.len(),
            ));
            assert(self.enemies@ == m.enemies);
            assert(self.towers@ == m.towers);
            assert(self.projectiles@ == m.projectiles);
            assert(self.player == m.player);
            assert(self.wave == m.wave);
            assert(self.game_time == m.game_time);
            assert(self.wave_cooldown == m.wave_cooldown);
            assert(self.current_map == m.current_map);
            assert(self.game_state == m.game_state);
            assert(self@ =~= m);
        }
    }
}

/// How `damage_enemy_at_position` relates the new state to the old: only
/// the enemy list changes, and it changes to `damage_applied`.
pub open spec fn self_after_damage(pre: Game, post: Game, pos: (i64, i64), dmg: u32) -> bool {
    post@ == (GameModel { enemies: damage_applied(pre@.enemies, pos, dmg), ..pre@ })
}

/// If the first `k` enemies are out of tolerance and the `k`-th is within,
/// the event updates exactly the `k`-th enemy.
proof fn lemma_damage_applied_hit(es: Seq<Enemy>, pos: (i64, i64), dmg: u32, k: int)
    requires
        0 <= k < es.len(),
        forall|j: int| 0 <= j < k ==> !within_tolerance(#[trigger] es[j], pos),
        within_tolerance(es[k], pos),
    ensures
        damage_applied(es, pos, dmg) == es.update(k, damaged(es[k], dmg)),
    decreases k,
{
    if k == 0 {
        assert(damage_applied(es, pos, dmg) =~= es.update(0, damaged(es[0], dmg)));
    } else {
        assert(!within_tolerance(es[0], pos));
        assert forall|j: int| 0 <= j < k - 1 implies !within_tolerance(
            #[trigger] es.skip(1)[j],
            pos,
        ) by {
            assert(es.skip(1)[j] == es[j + 1]);
        }
        assert(es.skip(1)[k - 1] == es[k]);
        lemma_damage_applied_hit(es.skip(1), pos, dmg, k - 1);
        assert(damage_applied(es, pos, dmg) =~= es.update(k, damaged(es[k], dmg)));
    }
}

/// If no enemy is within tolerance, the event changes nothing.
proof fn lemma_damage_applied_miss(es: Seq<Enemy>, pos: (i64, i64), dmg: u32)
    requires
        forall|j: int| 0 <= j < es.len() ==> !within_tolerance(#[trigger] es[j], pos),
    ensures
        damage_applied(es, pos, dmg) == es,
    decreases es.len(),
{
    if es.len() > 0 {
        assert forall|j: int| 0 <= j < es.len() - 1 implies !within_tolerance(
            #[trigger] es.skip(1)[j],
            pos,
        ) by {
            assert(es.skip(1)[j] == es[j + 1]);
        }
        lemma_damage_applied_miss(es.skip(1), pos, dmg);
        assert(damage_applied(es, pos, dmg) =~= es);
    }
}

} // verus!
