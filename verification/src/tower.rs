//! Towers: fixed actors that track a cooldown and fire at the first enemy
//! position, in snapshot order, within their circular range.
//!
//! The cooldown counts down by `dt` each tick, clamped at zero; whenever it
//! is zero and some snapshot position is in range, the tower fires at the
//! first such position and the cooldown resets to one full firing period
//! (1 / fire_rate, in milliseconds).
use vstd::prelude::*;
use crate::COORD_LIMIT;
use crate::enemy::dist2;
use crate::map::point_wf;
use crate::num::sat_sub_u32;

verus! {

/// Upper bound on a tower's range, in milli-pixels.
pub const RANGE_LIMIT: i64 = 8_388_608;

/// Upper bound on a tower's damage per shot; upgrades stop here.
pub const TOWER_DAMAGE_LIMIT: u32 = 1_000_000_000;

/// Upper bound on the fire rate, in milli-shots per second; upgrades stop here.
pub const FIRE_RATE_LIMIT: u32 = 1_000_000;

/// A full firing period never exceeds this many milliseconds, because the
/// fire rate is at least one milli-shot per second.
pub const COOLDOWN_LIMIT: u32 = 1_000_000;

/// Flat range gain per upgrade, in milli-pixels.
pub const UPGRADE_RANGE_GAIN: i64 = 10_000;

#[derive(Clone, Copy, Debug, PartialEq, Eq, Structural)]
pub enum TowerType {
    Basic,
    Advanced,
}

#[derive(Clone, Copy, Debug, PartialEq, Eq, Structural)]
pub struct Tower {
    pub tower_type: TowerType,
    /// Position in milli-pixels, fixed at placement.
    pub x: i64,
    pub y: i64,
    /// Range in milli-pixels.
    pub range: i64,
    pub damage: u32,
    /// Shots per second, in milli-shots (1000 = one shot per second).
    pub fire_rate: u32,
    /// Milliseconds until the tower may fire again; zero means ready.
    pub fire_cooldown: u32,
    pub level: u32,
    pub cost: u32,
}

pub struct Tower1;

pub struct Tower2;

pub open spec fn tower_wf(t: Tower) -> bool {
    &&& -COORD_LIMIT <= t.x <= COORD_LIMIT
    &&& -COORD_LIMIT <= t.y <= COORD_LIMIT
    &&& 0 <= t.range <= RANGE_LIMIT
    &&& t.damage <= TOWER_DAMAGE_LIMIT
    &&& 1 <= t.fire_rate <= FIRE_RATE_LIMIT
    &&& t.fire_cooldown <= COOLDOWN_LIMIT
    &&& 1 <= t.level
    &&& t.cost <= 1_000_000
}

pub open spec fn tower_new_spec(tower_type: TowerType, x: i64, y: i64) -> Tower {
    match tower_type {
        TowerType::Basic => Tower {
            tower_type, x, y,
            range: 1_000_000i64,
            damage: 10u32,
            fire_rate: 1000u32,
            fire_cooldown: 0u32,
            level: 1u32,
            cost: 50u32,
        },
        TowerType::Advanced => Tower {
            tower_type, x, y,
            range: 1_500_000i64,
            damage: 25u32,
            fire_rate: 500u32,
            fire_cooldown: 0u32,
            level: 1u32,
            cost: 100u32,
        },
    }
}

/// A point is in range when its squared distance to the tower is at most
/// the squared range.
pub open spec fn in_range(tx: i64, ty: i64, range: i64, p: (i64, i64)) -> bool {
    dist2((tx, ty), p) <= range * range
}

/// The first position of the snapshot, in encounter order, that lies in
/// range; the tie-break is the order of the snapshot, never the distance.
pub open spec fn find_target_spec(tx: i64, ty: i64, range: i64, snap: Seq<(i64, i64)>) -> Option<
    (i64, i64),
>
    decreases snap.len(),
{
    if snap.len() == 0 {
        None
    } else if in_range(tx, ty, range, snap[0]) {
        Some(snap[0])
    } else {
        find_target_spec(tx, ty, range, snap.skip(1))
    }
}

/// One full firing period in milliseconds: the fixed-point form of
/// `1 / fire_rate` seconds.
pub open spec fn fire_period(fire_rate: u32) -> u32 {
    if fire_rate == 0 { COOLDOWN_LIMIT } else { (1_000_000int / fire_rate as int) as u32 }
}

/// The tower's state after one tick: the cooldown counts down, and resets
/// to a full period exactly when the tower fires.
pub open spec fn tower_updated(t: Tower, dt: u32, snap: Seq<(i64, i64)>) -> Tower {
    let c = sat_sub_u32(t.fire_cooldown, dt);
    if c == 0 && find_target_spec(t.x, t.y, t.range, snap).is_some() {
        Tower { fire_cooldown: fire_period(t.fire_rate), ..t }
    } else {
        Tower { fire_cooldown: c, ..t }
    }
}

/// What the tick returns: the chosen target position, if the tower fired.
pub open spec fn tower_fired(t: Tower, dt: u32, snap: Seq<(i64, i64)>) -> Option<(i64, i64)> {
    let c = sat_sub_u32(t.fire_cooldown, dt);
    if c == 0 {
        find_target_spec(t.x, t.y, t.range, snap)
    } else {
        None
    }
}

/// The tower after one upgrade: damage grows by half (rounded down), range
/// by a flat gain, the fire rate by a fifth (rounded down), each stopping
/// at its cap; the level counts up.
pub open spec fn tower_upgraded(t: Tower) -> Tower {
    Tower {
        level: if t.level < u32::MAX { (t.level + 1) as u32 } else { t.level },
        damage: if t.damage + t.damage / 2 > TOWER_DAMAGE_LIMIT {
            TOWER_DAMAGE_LIMIT
        } else {
            (t.damage + t.damage / 2) as u32
        },
        range: if t.range + UPGRADE_RANGE_GAIN > RANGE_LIMIT {
            RANGE_LIMIT
        } else {
            (t.range + UPGRADE_RANGE_GAIN) as i64
        },
        fire_rate: if t.fire_rate + t.fire_rate / 5 > FIRE_RATE_LIMIT {
            FIRE_RATE_LIMIT
        } else {
            (t.fire_rate + t.fire_rate / 5) as u32
        },
        ..t
    }
}

/// Half the cost back, plus a quarter of the cost for every level gained.
pub open spec fn sell_value_spec(t: Tower) -> u32 {
    let v = t.cost as int / 2 + (t.level - 1) * (t.cost as int / 4);
    if v > u32::MAX { u32::MAX } else { v as u32 }
}

/// If no position among the first `k` is in range, the search outcome over
/// the whole snapshot is the outcome over the rest.
proof fn lemma_find_target_skip(tx: i64, ty: i64, range: i64, snap: Seq<(i64, i64)>, k: int)
    requires
        0 <= k <= snap.len(),
        forall|j: int| 0 <= j < k ==> !in_range(tx, ty, range, #[trigger] snap[j]),
    ensures
        find_target_spec(tx, ty, range, snap) == find_target_spec(tx, ty, range, snap.skip(k)),
    decreases k,
{
    if k == 0 {
        assert(snap.skip(0) =~= snap);
    } else {
        assert(!in_range(tx, ty, range, snap[0]));
        assert(snap.len() > 0);
        assert forall|j: int| 0 <= j < k - 1 implies !in_range(
            tx,
            ty,
            range,
            #[trigger] snap.skip(1)[j],
        ) by {
            assert(snap.skip(1)[j] == snap[j + 1]);
        }
        lemma_find_target_skip(tx, ty, range, snap.skip(1), k - 1);
        assert(snap.skip(1).skip(k - 1) =~= snap.skip(k));
    }
}

/// Whatever the search returns is an element of the snapshot.
pub proof fn lemma_find_target_in_snap(tx: i64, ty: i64, range: i64, snap: Seq<(i64, i64)>)
    ensures
        match find_target_spec(tx, ty, range, snap) {
            Some(p) => snap.contains(p),
            None => true,
        },
    decreases snap.len(),
{
    if snap.len() > 0 && !in_range(tx, ty, range, snap[0]) {
        lemma_find_target_in_snap(tx, ty, range, snap.skip(1));
        if find_target_spec(tx, ty, range, snap.skip(1)) is Some {
            let p = find_target_spec(tx, ty, range, snap.skip(1)).unwrap();
            assert(snap.skip(1).contains(p));
            let i = choose|i: int| 0 <= i < snap.skip(1).len() && snap.skip(1)[i] == p;
            assert(snap[i + 1] == p);
        }
    }
}

/// Of two snapshot positions that are both in range, the one that comes
/// earlier is the one chosen, no matter which of the two is closer.
pub proof fn lemma_targeting_prefers_earlier(
    tx: i64,
    ty: i64,
    range: i64,
    snap: Seq<(i64, i64)>,
    i: int,
    j: int,
)
    requires
        0 <= i < j < snap.len(),
        in_range(tx, ty, range, snap[i]),
        in_range(tx, ty, range, snap[j]),
        forall|k: int| 0 <= k < i ==> !in_range(tx, ty, range, #[trigger] snap[k]),
    ensures
        find_target_spec(tx, ty, range, snap) == Some(snap[i]),
    decreases i,
{
    lemma_find_target_skip(tx, ty, range, snap, i);
    assert(snap.skip(i)[0] == snap[i]);
}

/// The tower after a run of ticks, each a tick length paired with the
/// enemy-position snapshot of that tick.
pub open spec fn tower_run(t: Tower, steps: Seq<(u32, Seq<(i64, i64)>)>) -> Tower
    decreases steps.len(),
{
    if steps.len() == 0 {
        t
    } else {
        tower_updated(tower_run(t, steps.drop_last()), steps.last().0, steps.last().1)
    }
}

/// Whether any tick of the run fired.
pub open spec fn tower_run_fired(t: Tower, steps: Seq<(u32, Seq<(i64, i64)>)>) -> bool
    decreases steps.len(),
{
    if steps.len() == 0 {
        false
    } else {
        tower_run_fired(t, steps.drop_last()) || tower_fired(
            tower_run(t, steps.drop_last()),
            steps.last().0,
            steps.last().1,
        ) is Some
    }
}

/// The total elapsed time of a run, in milliseconds.
pub open spec fn total_step_ms(steps: Seq<(u32, Seq<(i64, i64)>)>) -> int
    decreases steps.len(),
{
    if steps.len() == 0 {
        0
    } else {
        total_step_ms(steps.drop_last()) + steps.last().0
    }
}

/// While less time has passed than the pending cooldown, the tower cannot
/// fire, however many targets stand in range on every tick; the cooldown
/// merely counts down by exactly the elapsed time.
pub proof fn lemma_cooldown_blocks_fire(t: Tower, steps: Seq<(u32, Seq<(i64, i64)>)>)
    requires
        total_step_ms(steps) < t.fire_cooldown,
    ensures
        !tower_run_fired(t, steps),
        tower_run(t, steps) == (Tower {
            fire_cooldown: (t.fire_cooldown - total_step_ms(steps)) as u32,
            ..t
        }),
    decreases steps.len(),
{
    lemma_total_step_ms_nonneg(steps);
    if steps.len() == 0 {
        assert(tower_run(t, steps) == t);
        assert((t.fire_cooldown - total_step_ms(steps)) as u32 == t.fire_cooldown);
    } else {
        let prefix = steps.drop_last();
        lemma_total_step_ms_nonneg(prefix);
        assert(total_step_ms(prefix) == total_step_ms(steps) - steps.last().0);
        lemma_cooldown_blocks_fire(t, prefix);
        let pre = tower_run(t, prefix);
        assert(pre.fire_cooldown == t.fire_cooldown - total_step_ms(prefix));
        assert(pre.fire_cooldown - steps.last().0 > 0);
        assert(sat_sub_u32(pre.fire_cooldown, steps.last().0) == pre.fire_cooldown
            - steps.last().0);
    }
}

proof fn lemma_total_step_ms_nonneg(steps: Seq<(u32, Seq<(i64, i64)>)>)
    ensures
        total_step_ms(steps) >= 0,
    decreases steps.len(),
{
    if steps.len() > 0 {
        lemma_total_step_ms_nonneg(steps.drop_last());
    }
}

/// A tower that has just fired cannot fire again until one full firing
/// period (1 / fire_rate) has elapsed, even if a valid target persists
/// continuously through every tick of the run.
pub proof fn lemma_no_refire_within_period(
    t: Tower,
    dt: u32,
    snap: Seq<(i64, i64)>,
    steps: Seq<(u32, Seq<(i64, i64)>)>,
)
    requires
        1 <= t.fire_rate,
        tower_fired(t, dt, snap) is Some,
        total_step_ms(steps) < fire_period(t.fire_rate),
    ensures
        !tower_run_fired(tower_updated(t, dt, snap), steps),
{
    let fired = tower_updated(t, dt, snap);
    assert(fired.fire_cooldown == fire_period(t.fire_rate));
    lemma_cooldown_blocks_fire(fired, steps);
}

impl Tower {
    pub fn new(tower_type: TowerType, x: i64, y: i64) -> (t: Tower)
        ensures
            t == tower_new_spec(tower_type, x, y),
    {
        match tower_type {
            TowerType::Basic => Tower1::create(x, y),
            TowerType::Advanced => Tower2::create(x, y),
        }
    }

    /// One tick: count the cooldown down by `dt` and, when ready, fire at
    /// the first snapshot position in range.
    pub fn update(&mut self, dt: u32, enemies: &Vec<(i64, i64)>) -> (target: Option<(i64, i64)>)
        requires
            tower_wf(*old(self)),
            forall|i: int| 0 <= i < enemies@.len() ==> point_wf(#[trigger] enemies@[i]),
        ensures
            *final(self) == tower_updated(*old(self), dt, enemies@),
            target == tower_fired(*old(self), dt, enemies@),
            tower_wf(*final(self)),
    {
        self.fire_cooldown = self.fire_cooldown.saturating_sub(dt);
        if self.fire_cooldown == 0 {
            let found = self.find_target(enemies);
            if let Some(target) = found {
                proof {
                    lemma_fire_period_bounded(self.fire_rate);
                }
                self.fire_cooldown = 1_000_000u32 / self.fire_rate;
                return Some(target);
            }
        }
        None
    }

    /// Scan the snapshot in order for the first position in range.
    fn find_target(&self, enemies: &Vec<(i64, i64)>) -> (target: Option<(i64, i64)>)
        requires
            tower_wf(*self),
            forall|i: int| 0 <= i < enemies@.len() ==> point_wf(#[trigger] enemies@[i]),
        ensures
            target == find_target_spec(self.x, self.y, self.range, enemies@),
    {
        let n = enemies.len();
        let mut i: usize = 0;
        while i < n
            invariant
                n == enemies@.len(),
                i <= n,
                tower_wf(*self),
                forall|k: int| 0 <= k < enemies@.len() ==> point_wf(#[trigger] enemies@[k]),
                forall|j: int|
                    0 <= j < i ==> !in_range(self.x, self.y, self.range, #[trigger] enemies@[j]),
            decreases n - i,
        {
            let p = enemies[i];
            if crate::enemy::within_distance((self.x, self.y), p, self.range) {
                proof {
                    lemma_find_target_skip(self.x, self.y, self.range, enemies@, i as int);
                    assert(enemies@.skip(i as int)[0] == enemies@[i as int]);
                }
                return Some(p);
            }
            i = i + 1;
        }
        proof {
            lemma_find_target_skip(self.x, self.y, self.range, enemies@, n as int);
        }
        None
    }

    /// Pay half the base cost; damage, range and fire rate grow, the level
    /// counts up.
    pub fn upgrade(&mut self) -> (upgrade_cost: u32)
        requires
            tower_wf(*old(self)),
        ensures
            *final(self) == tower_upgraded(*old(self)),
            upgrade_cost == old(self).cost / 2,
            tower_wf(*final(self)),
    {
        let upgrade_cost = self.cost / 2;
        if self.level < u32::MAX {
            self.level = self.level + 1;
        }
        let grown_damage = self.damage + self.damage / 2;
        self.damage = if grown_damage > TOWER_DAMAGE_LIMIT { TOWER_DAMAGE_LIMIT } else { grown_damage };
        let grown_range = self.range + UPGRADE_RANGE_GAIN;
        self.range = if grown_range > RANGE_LIMIT { RANGE_LIMIT } else { grown_range };
        let grown_rate = self.fire_rate + self.fire_rate / 5;
        self.fire_rate = if grown_rate > FIRE_RATE_LIMIT { FIRE_RATE_LIMIT } else { grown_rate };
        upgrade_cost
    }

    pub fn get_sell_value(&self) -> (v: u32)
        requires
            tower_wf(*self),
        ensures
            v == sell_value_spec(*self),
    {
        let base = (self.cost / 2) as u64;
        let per_level = (self.cost / 4) as u64;
        proof {
            assert(((self.level - 1) as u64) * per_level <= 0xFFFF_FFFFu64 * 250_000u64)
                by (nonlinear_arith)
                requires
                    0 <= ((self.level - 1) as u64),
                    ((self.level - 1) as u64) <= 0xFFFF_FFFFu64,
                    0 <= per_level,
                    per_level <= 250_000;
        }
        let v = base + ((self.level - 1) as u64) * per_level;
        proof {
            assert(((self.level - 1) as u64) * per_level
                == (self.level - 1) * (self.cost as int / 4)) by (nonlinear_arith)
                requires
                    per_level == self.cost as int / 4,
                    self.level >= 1;
        }
        crate::num::clamp_to_u32(v)
    }

    pub fn get_position(&self) -> (p: (i64, i64))
        ensures
            p == (self.x, self.y),
    {
        (self.x, self.y)
    }

    pub fn get_range(&self) -> (r: i64)
        ensures
            r == self.range,
    {
        self.range
    }

    pub fn get_damage(&self) -> (d: u32)
        ensures
            d == self.damage,
    {
        self.damage
    }

    pub fn get_tower_type(&self) -> (t: TowerType)
        ensures
            t == self.tower_type,
    {
        self.tower_type
    }
}

impl TowerType {
    pub fn cost(&self) -> (c: u32)
        ensures
            c == cost_of(*self),
    {
        match self {
            TowerType::Basic => 50,
            TowerType::Advanced => 100,
        }
    }
}

pub open spec fn cost_of(t: TowerType) -> u32 {
    match t {
        TowerType::Basic => 50u32,
        TowerType::Advanced => 100u32,
    }
}

/// A fire rate of at least one milli-shot per second keeps the period at or
/// under `COOLDOWN_LIMIT` milliseconds.
pub proof fn lemma_fire_period_bounded(fire_rate: u32)
    requires
        1 <= fire_rate,
    ensures
        0 <= 1_000_000int / fire_rate as int <= COOLDOWN_LIMIT,
        fire_period(fire_rate) == 1_000_000int / fire_rate as int,
{
    assert(1_000_000int / fire_rate as int <= 1_000_000int / 1) by (nonlinear_arith)
        requires 1 <= fire_rate as int;
    assert(1_000_000int / fire_rate as int >= 0) by (nonlinear_arith)
        requires 1 <= fire_rate as int;
}

impl Tower1 {
    pub fn create(x: i64, y: i64) -> (t: Tower)
        ensures
            t == tower_new_spec(TowerType::Basic, x, y),
    {
        Tower {
            tower_type: TowerType::Basic,
            x,
            y,
            range: 1_000_000,
            damage: 10,
            fire_rate: 1000,
            fire_cooldown: 0,
            level: 1,
            cost: 50,
        }
    }
}

impl Tower2 {
    pub fn create(x: i64, y: i64) -> (t: Tower)
        ensures
            t == tower_new_spec(TowerType::Advanced, x, y),
    {
        Tower {
            tower_type: TowerType::Advanced,
            x,
            y,
            range: 1_500_000,
            damage: 25,
            fire_rate: 500,
            fire_cooldown: 0,
            level: 1,
            cost: 100,
        }
    }
}

} // verus!
