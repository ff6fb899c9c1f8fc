//! Enemies: stateful actors that follow the map's waypoint path.
//!
//! An enemy is spawned with a staggered `spawn_delay`; while the delay is
//! positive it neither moves nor becomes visible to towers. Once the delay
//! runs out it turns `active` and walks toward the next waypoint at its
//! fixed speed, snapping onto a waypoint whenever one step would overshoot
//! it. An enemy standing on the last waypoint reports that it reached the
//! end; dying (health reaching zero) is detected by the orchestrator.
use vstd::prelude::*;
use crate::{COORD_LIMIT, SPEED_LIMIT, MS_PER_SECOND};
use crate::map::GameMap;
use crate::num::{iabs, sat_sub_u32, sqrt_floor, isqrt64, lemma_sqrt_floor_bounds};
use vstd::arithmetic::div_mod::{lemma_div_is_ordered, lemma_div_multiples_vanish, lemma_div_pos_is_pos};

verus! {

#[derive(Clone, Copy, Debug, PartialEq, Eq, Structural)]
pub enum EnemyType {
    Normal,
    Fast,
    Boss,
}

#[derive(Clone, Copy, Debug, PartialEq, Eq, Structural)]
pub struct Enemy {
    pub enemy_type: EnemyType,
    /// Position in milli-pixels.
    pub x: i64,
    pub y: i64,
    /// Speed in milli-pixels per second.
    pub speed: i64,
    pub health: u32,
    pub max_health: u32,
    /// Damage dealt to the player if this enemy reaches the end of the path.
    pub damage: u32,
    /// Gold credited to the player when this enemy dies.
    pub reward: u32,
    /// Index of the waypoint the enemy stands at or last passed.
    pub path_index: usize,
    /// Milliseconds until the enemy becomes active.
    pub spawn_delay: u32,
    pub active: bool,
}

pub struct Enemy1;

pub struct Enemy2;

pub open spec fn enemy_wf(e: Enemy) -> bool {
    &&& -COORD_LIMIT <= e.x <= COORD_LIMIT
    &&& -COORD_LIMIT <= e.y <= COORD_LIMIT
    &&& 0 <= e.speed <= SPEED_LIMIT
    &&& e.health <= e.max_health
}

/// The stats an enemy of each kind is created with. Boss stats are the
/// Normal stats transformed by health x3, damage x2, reward x3, speed x0.7.
pub open spec fn enemy_new_spec(enemy_type: EnemyType, x: i64, y: i64, spawn_delay: u32) -> Enemy {
    match enemy_type {
        EnemyType::Normal => Enemy {
            enemy_type, x, y,
            speed: 50_000i64,
            health: 100u32,
            max_health: 100u32,
            damage: 10u32,
            reward: 20u32,
            path_index: 0usize,
            spawn_delay,
            active: false,
        },
        EnemyType::Fast => Enemy {
            enemy_type, x, y,
            speed: 100_000i64,
            health: 50u32,
            max_health: 50u32,
            damage: 5u32,
            reward: 15u32,
            path_index: 0usize,
            spawn_delay,
            active: false,
        },
        EnemyType::Boss => Enemy {
            enemy_type, x, y,
            speed: 35_000i64,
            health: 300u32,
            max_health: 300u32,
            damage: 20u32,
            reward: 60u32,
            path_index: 0usize,
            spawn_delay,
            active: false,
        },
    }
}

/// Squared euclidean distance between two points, as a mathematical integer.
pub open spec fn dist2(a: (i64, i64), b: (i64, i64)) -> int {
    (b.0 - a.0) * (b.0 - a.0) + (b.1 - a.1) * (b.1 - a.1)
}

/// Whether two in-bounds points lie within `radius` of each other, decided
/// on squared distances so that no square root is needed.
pub fn within_distance(a: (i64, i64), b: (i64, i64), radius: i64) -> (r: bool)
    requires
        -COORD_LIMIT <= a.0 <= COORD_LIMIT,
        -COORD_LIMIT <= a.1 <= COORD_LIMIT,
        -COORD_LIMIT <= b.0 <= COORD_LIMIT,
        -COORD_LIMIT <= b.1 <= COORD_LIMIT,
        0 <= radius <= COORD_LIMIT,
    ensures
        r == (dist2(a, b) <= radius * radius),
{
    let dx: i64 = b.0 - a.0;
    let dy: i64 = b.1 - a.1;
    proof {
        assert(dx * dx >= 0) by (nonlinear_arith);
        assert(dy * dy >= 0) by (nonlinear_arith);
        assert(dx * dx <= 281_474_976_710_656i64) by (nonlinear_arith)
            requires -16_777_216i64 <= dx, dx <= 16_777_216i64;
        assert(dy * dy <= 281_474_976_710_656i64) by (nonlinear_arith)
            requires -16_777_216i64 <= dy, dy <= 16_777_216i64;
        assert(radius * radius >= 0) by (nonlinear_arith);
        assert(radius * radius <= 70_368_744_177_664i64) by (nonlinear_arith)
            requires 0 <= radius, radius <= 8_388_608i64;
    }
    let d2: i64 = dx * dx + dy * dy;
    let r2: i64 = radius * radius;
    d2 <= r2
}

/// The rounded-down euclidean distance between two points.
pub open spec fn dist_floor(a: (i64, i64), b: (i64, i64)) -> int {
    sqrt_floor(dist2(a, b) as nat) as int
}

/// How far an enemy travels in `dt` milliseconds, in milli-pixels.
pub open spec fn step_len(speed: i64, dt: u32) -> int {
    speed * dt / (MS_PER_SECOND as int)
}

/// One coordinate after moving `step` out of `d` of the way from `from`
/// toward `to`, rounding the travelled fraction down.
pub open spec fn moved_coord(from: i64, to: i64, step: int, d: int) -> int {
    if to >= from {
        from + iabs(to - from) * step / d
    } else {
        from - iabs(to - from) * step / d
    }
}

/// An active enemy's position and waypoint index after one step toward
/// `target`: snap onto the waypoint if it is within reach, else move
/// proportionally along the straight line toward it.
pub open spec fn enemy_moved(e: Enemy, dt: u32, target: (i64, i64)) -> Enemy {
    let step = step_len(e.speed, dt);
    let d = dist_floor((e.x, e.y), target);
    if d <= step {
        Enemy { x: target.0, y: target.1, path_index: (e.path_index + 1) as usize, ..e }
    } else {
        Enemy {
            x: moved_coord(e.x, target.0, step, d) as i64,
            y: moved_coord(e.y, target.1, step, d) as i64,
            ..e
        }
    }
}

/// The full per-tick transition of one enemy against `path`.
pub open spec fn enemy_updated(e: Enemy, dt: u32, path: Seq<(i64, i64)>) -> Enemy {
    if e.spawn_delay > 0 {
        Enemy { spawn_delay: sat_sub_u32(e.spawn_delay, dt), ..e }
    } else {
        let ea = Enemy { active: true, ..e };
        if e.path_index >= path.len() - 1 {
            ea
        } else {
            enemy_moved(ea, dt, path[e.path_index + 1])
        }
    }
}

/// Whether the per-tick transition reports that the end of the path was
/// reached: only an active enemy standing at the last waypoint does.
pub open spec fn enemy_update_reached(e: Enemy, dt: u32, path: Seq<(i64, i64)>) -> bool {
    e.spawn_delay == 0 && e.path_index >= path.len() - 1
}

/// Health after an attack: reduced by `damage`, clamped at zero.
pub open spec fn damaged(e: Enemy, damage: u32) -> Enemy {
    if damage >= e.health {
        Enemy { health: 0u32, ..e }
    } else {
        Enemy { health: (e.health - damage) as u32, ..e }
    }
}

/// An attack reports a kill exactly when it brings positive health to zero.
pub open spec fn damage_kills(e: Enemy, damage: u32) -> bool {
    e.health > 0 && damage >= e.health
}

impl Enemy {
    pub fn new(enemy_type: EnemyType, x: i64, y: i64, spawn_delay: u32) -> (e: Enemy)
        ensures
            e == enemy_new_spec(enemy_type, x, y, spawn_delay),
    {
        match enemy_type {
            EnemyType::Normal => Enemy1::create(x, y, spawn_delay),
            EnemyType::Fast => Enemy2::create(x, y, spawn_delay),
            EnemyType::Boss => {
                let mut enemy = Enemy1::create(x, y, spawn_delay);
                enemy.enemy_type = EnemyType::Boss;
                enemy.health = enemy.health * 3;
                enemy.max_health = enemy.max_health * 3;
                enemy.damage = enemy.damage * 2;
                enemy.reward = enemy.reward * 3;
                enemy.speed = enemy.speed * 7 / 10;
                enemy
            }
        }
    }

    /// Advance this enemy by `dt` milliseconds. Returns true exactly when the
    /// enemy is active and already stands at the last waypoint of the path.
    pub fn update(&mut self, dt: u32, map: &GameMap) -> (reached: bool)
        requires
            enemy_wf(*old(self)),
            map.wf(),
            old(self).path_index < map.path@.len(),
        ensures
            *final(self) == enemy_updated(*old(self), dt, map.path@),
            reached == enemy_update_reached(*old(self), dt, map.path@),
            enemy_wf(*final(self)),
            final(self).path_index < map.path@.len(),
    {
        if self.spawn_delay > 0 {
            self.spawn_delay = self.spawn_delay.saturating_sub(dt);
            return false;
        }

        if !self.active {
            self.active = true;
        }

        let path = map.get_path();
        if self.path_index >= path.len() - 1 {
            return true;
        }

        let target = path[self.path_index + 1];
        let dx: i64 = target.0 - self.x;
        let dy: i64 = target.1 - self.y;
        let adx: i64 = if dx < 0 { -dx } else { dx };
        let ady: i64 = if dy < 0 { -dy } else { dy };
        proof {
            assert(adx * adx <= 2 * COORD_LIMIT * (2 * COORD_LIMIT)) by (nonlinear_arith)
                requires 0 <= adx <= 2 * COORD_LIMIT;
            assert(ady * ady <= 2 * COORD_LIMIT * (2 * COORD_LIMIT)) by (nonlinear_arith)
                requires 0 <= ady <= 2 * COORD_LIMIT;
            assert(adx * adx == dx * dx) by (nonlinear_arith)
                requires adx == iabs(dx as int);
            assert(ady * ady == dy * dy) by (nonlinear_arith)
                requires ady == iabs(dy as int);
            assert(adx * adx >= 0) by (nonlinear_arith);
            assert(ady * ady >= 0) by (nonlinear_arith);
        }
        let d2: i64 = adx * adx + ady * ady;
        let dist_u: u64 = isqrt64(d2 as u64);
        proof {
            assert(d2 as u64 as nat == d2 as nat);
            assert((dist_u as int) * (dist_u as int) <= d2 as int);
            // the root of a value within 8 * COORD_LIMIT^2 is well under i64 range
            assert(dist_u as int <= 4 * COORD_LIMIT) by (nonlinear_arith)
                requires
                    0 <= dist_u as int,
                    (dist_u as int) * (dist_u as int) <= 2 * (2 * COORD_LIMIT * (2 * COORD_LIMIT)),
                    COORD_LIMIT == 8_388_608i64;
        }
        let dist: i64 = dist_u as i64;
        proof {
            assert(dist as int == sqrt_floor(d2 as nat) as int);
            assert(dist_floor((self.x, self.y), target) == dist as int);
        }
        proof {
            assert(self.speed * (dt as i64) >= 0) by (nonlinear_arith)
                requires self.speed >= 0, (dt as i64) >= 0;
            assert(self.speed * (dt as i64) <= SPEED_LIMIT * 0x1_0000_0000i64) by (nonlinear_arith)
                requires 0 <= self.speed <= SPEED_LIMIT, 0 <= (dt as i64), (dt as i64) < 0x1_0000_0000i64;
        }
        let step: i64 = self.speed * (dt as i64) / 1000;
        proof {
            lemma_div_pos_is_pos(self.speed * (dt as i64), 1000);
            assert(step == step_len(self.speed, dt));
        }

        if dist <= step {
            self.x = target.0;
            self.y = target.1;
            self.path_index = self.path_index + 1;
        } else {
            // step < dist here, so the fraction moved on each axis is at most
            // the whole axis gap and the enemy stays between its old position
            // and the target waypoint.
            proof {
                assert(adx * step >= 0) by (nonlinear_arith)
                    requires 0 <= adx, 0 <= step;
                assert(ady * step >= 0) by (nonlinear_arith)
                    requires 0 <= ady, 0 <= step;
                assert(adx * step <= 2 * COORD_LIMIT * (4 * COORD_LIMIT)) by (nonlinear_arith)
                    requires 0 <= adx, adx <= 2 * COORD_LIMIT, 0 <= step, step <= 4 * COORD_LIMIT;
                assert(ady * step <= 2 * COORD_LIMIT * (4 * COORD_LIMIT)) by (nonlinear_arith)
                    requires 0 <= ady, ady <= 2 * COORD_LIMIT, 0 <= step, step <= 4 * COORD_LIMIT;
            }
            let mvx: i64 = adx * step / dist;
            let mvy: i64 = ady * step / dist;
            proof {
                assert(adx * step <= adx * dist) by (nonlinear_arith)
                    requires 0 <= adx, step <= dist;
                assert(ady * step <= ady * dist) by (nonlinear_arith)
                    requires 0 <= ady, step <= dist;
                lemma_div_is_ordered(adx * step, adx * dist, dist as int);
                lemma_div_is_ordered(ady * step, ady * dist, dist as int);
                lemma_div_multiples_vanish(adx as int, dist as int);
                lemma_div_multiples_vanish(ady as int, dist as int);
                assert(adx * dist == dist * adx) by (nonlinear_arith);
                assert(ady * dist == dist * ady) by (nonlinear_arith);
                assert(mvx <= adx);
                assert(mvy <= ady);
                lemma_div_pos_is_pos(adx * step, dist as int);
                lemma_div_pos_is_pos(ady * step, dist as int);
            }
            self.x = if dx >= 0 { self.x + mvx } else { self.x - mvx };
            self.y = if dy >= 0 { self.y + mvy } else { self.y - mvy };
        }
        false
    }

    /// Reduce health by `damage`, clamped at zero; report whether this very
    /// call brought positive health down to zero.
    pub fn take_damage(&mut self, damage: u32) -> (died: bool)
        ensures
            *final(self) == damaged(*old(self), damage),
            died == damage_kills(*old(self), damage),
    {
        if damage >= self.health {
            let was_alive = self.health > 0;
            self.health = 0;
            return was_alive;
        }
        self.health = self.health - damage;
        false
    }

    pub fn get_reward(&self) -> (r: u32)
        ensures
            r == self.reward,
    {
        self.reward
    }

    pub fn get_damage(&self) -> (d: u32)
        ensures
            d == self.damage,
    {
        self.damage
    }

    pub fn get_position(&self) -> (p: (i64, i64))
        ensures
            p == (self.x, self.y),
    {
        (self.x, self.y)
    }

    pub fn is_active(&self) -> (a: bool)
        ensures
            a == self.active,
    {
        self.active
    }

    pub fn get_health(&self) -> (h: u32)
        ensures
            h == self.health,
    {
        self.health
    }
}

impl Enemy1 {
    pub fn create(x: i64, y: i64, spawn_delay: u32) -> (e: Enemy)
        ensures
            e == enemy_new_spec(EnemyType::Normal, x, y, spawn_delay),
    {
        Enemy {
            enemy_type: EnemyType::Normal,
            x,
            y,
            speed: 50_000,
            health: 100,
            max_health: 100,
            damage: 10,
            reward: 20,
            path_index: 0,
            spawn_delay,
            active: false,
        }
    }
}

impl Enemy2 {
    pub fn create(x: i64, y: i64, spawn_delay: u32) -> (e: Enemy)
        ensures
            e == enemy_new_spec(EnemyType::Fast, x, y, spawn_delay),
    {
        Enemy {
            enemy_type: EnemyType::Fast,
            x,
            y,
            speed: 100_000,
            health: 50,
            max_health: 50,
            damage: 5,
            reward: 15,
            path_index: 0,
            spawn_delay,
            active: false,
        }
    }
}

/// Boss stats are exactly the Normal stats scaled by x3 health, x2 damage,
/// x3 reward and x0.7 speed (in fixed point, 7/10 of the speed).
pub proof fn lemma_boss_stats_scale_normal(x: i64, y: i64, spawn_delay: u32)
    ensures
        enemy_new_spec(EnemyType::Boss, x, y, spawn_delay).health
            == 3 * enemy_new_spec(EnemyType::Normal, x, y, spawn_delay).health,
        enemy_new_spec(EnemyType::Boss, x, y, spawn_delay).max_health
            == 3 * enemy_new_spec(EnemyType::Normal, x, y, spawn_delay).max_health,
        enemy_new_spec(EnemyType::Boss, x, y, spawn_delay).damage
            == 2 * enemy_new_spec(EnemyType::Normal, x, y, spawn_delay).damage,
        enemy_new_spec(EnemyType::Boss, x, y, spawn_delay).reward
            == 3 * enemy_new_spec(EnemyType::Normal, x, y, spawn_delay).reward,
        enemy_new_spec(EnemyType::Boss, x, y, spawn_delay).speed
            == enemy_new_spec(EnemyType::Normal, x, y, spawn_delay).speed * 7 / 10,
{
}

/// While the spawn delay is still running, a tick only counts the delay
/// down: the enemy does not move, does not advance along the path, does not
/// become active, and is never reported as having reached the end.
pub proof fn lemma_spawn_delay_blocks_motion(e: Enemy, dt: u32, path: Seq<(i64, i64)>)
    requires
        e.spawn_delay > 0,
    ensures
        enemy_updated(e, dt, path).x == e.x,
        enemy_updated(e, dt, path).y == e.y,
        enemy_updated(e, dt, path).path_index == e.path_index,
        enemy_updated(e, dt, path).active == e.active,
        enemy_updated(e, dt, path).spawn_delay == sat_sub_u32(e.spawn_delay, dt),
        !enemy_update_reached(e, dt, path),
{
}

/// The total of a sequence of tick lengths, in milliseconds.
pub open spec fn total_ms(dts: Seq<u32>) -> int
    decreases dts.len(),
{
    if dts.len() == 0 {
        0
    } else {
        total_ms(dts.drop_last()) + dts.last()
    }
}

/// The enemy after the ticks of `dts`, applied in order.
pub open spec fn enemy_run(e: Enemy, dts: Seq<u32>, path: Seq<(i64, i64)>) -> Enemy
    decreases dts.len(),
{
    if dts.len() == 0 {
        e
    } else {
        enemy_updated(enemy_run(e, dts.drop_last(), path), dts.last(), path)
    }
}

/// Over any run of (non-empty) ticks whose lengths sum to at most the
/// spawn delay, the enemy does not move, stays inactive, and merely counts
/// its delay down by exactly the elapsed time.
pub proof fn lemma_spawn_delay_blocks_until_elapsed(e: Enemy, dts: Seq<u32>, path: Seq<(i64, i64)>)
    requires
        forall|i: int| 0 <= i < dts.len() ==> #[trigger] dts[i] > 0,
        total_ms(dts) <= e.spawn_delay,
    ensures
        enemy_run(e, dts, path).x == e.x,
        enemy_run(e, dts, path).y == e.y,
        enemy_run(e, dts, path).path_index == e.path_index,
        enemy_run(e, dts, path).active == e.active,
        enemy_run(e, dts, path).health == e.health,
        enemy_run(e, dts, path).spawn_delay == e.spawn_delay - total_ms(dts),
    decreases dts.len(),
{
    if dts.len() > 0 {
        let prefix = dts.drop_last();
        assert(forall|i: int| 0 <= i < prefix.len() ==> #[trigger] prefix[i] > 0);
        assert(dts.last() > 0);
        assert(total_ms(prefix) == total_ms(dts) - dts.last());
        lemma_spawn_delay_blocks_until_elapsed(e, prefix, path);
        let pre = enemy_run(e, prefix, path);
        assert(pre.spawn_delay > 0);
        assert(sat_sub_u32(pre.spawn_delay, dts.last()) == pre.spawn_delay - dts.last());
    }
}

/// An active enemy standing at the last waypoint is reported as having
/// reached the end by the very next tick, whatever `dt` is, and does not
/// move any further.
pub proof fn lemma_last_waypoint_reaches_end(e: Enemy, dt: u32, path: Seq<(i64, i64)>)
    requires
        e.spawn_delay == 0,
        e.path_index == path.len() - 1,
    ensures
        enemy_update_reached(e, dt, path),
        enemy_updated(e, dt, path) == (Enemy { active: true, ..e }),
{
}

/// Overkill damage brings health to exactly zero and reports the kill once:
/// any further attack on the dead enemy reports died == false.
pub proof fn lemma_overkill_reports_died_once(e: Enemy, first: u32, second: u32)
    requires
        e.health > 0,
        first >= e.health,
    ensures
        damaged(e, first).health == 0,
        damage_kills(e, first),
        !damage_kills(damaged(e, first), second),
        damaged(damaged(e, first), second).health == 0,
{
}

} // verus!
