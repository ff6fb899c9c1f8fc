//! The two fixed maps: an ordered waypoint polyline that enemies walk, plus
//! the rectangles on which towers may be built.
//!
//! Coordinates are in milli-pixels (1000 units = one pixel).
use vstd::prelude::*;
use crate::COORD_LIMIT;

verus! {

#[derive(Clone, Copy, Debug, PartialEq, Eq, Structural)]
pub enum MapType {
    Beginner,
    Advanced,
}

pub struct GameMap {
    pub map_type: MapType,
    pub path: Vec<(i64, i64)>,
    /// Rectangles as (x, y, width, height).
    pub buildable_areas: Vec<(i64, i64, i64, i64)>,
}

pub struct Map1;

pub struct Map2;

pub open spec fn beginner_path() -> Seq<(i64, i64)> {
    seq![
        (0i64, 350_000i64),
        (300_000i64, 350_000i64),
        (300_000i64, 150_000i64),
        (700_000i64, 150_000i64),
        (700_000i64, 500_000i64),
        (1_024_000i64, 500_000i64),
    ]
}

pub open spec fn beginner_areas() -> Seq<(i64, i64, i64, i64)> {
    seq![
        (350_000i64, 250_000i64, 200_000i64, 150_000i64),
        (50_000i64, 450_000i64, 200_000i64, 200_000i64),
        (750_000i64, 50_000i64, 200_000i64, 250_000i64),
    ]
}

pub open spec fn advanced_path() -> Seq<(i64, i64)> {
    seq![
        (0i64, 100_000i64),
        (800_000i64, 100_000i64),
        (800_000i64, 300_000i64),
        (200_000i64, 300_000i64),
        (200_000i64, 550_000i64),
        (1_024_000i64, 550_000i64),
    ]
}

pub open spec fn advanced_areas() -> Seq<(i64, i64, i64, i64)> {
    seq![
        (100_000i64, 150_000i64, 250_000i64, 100_000i64),
        (300_000i64, 380_000i64, 300_000i64, 120_000i64),
        (850_000i64, 350_000i64, 150_000i64, 150_000i64),
    ]
}

pub open spec fn map_path(t: MapType) -> Seq<(i64, i64)> {
    match t {
        MapType::Beginner => beginner_path(),
        MapType::Advanced => advanced_path(),
    }
}

pub open spec fn map_areas(t: MapType) -> Seq<(i64, i64, i64, i64)> {
    match t {
        MapType::Beginner => beginner_areas(),
        MapType::Advanced => advanced_areas(),
    }
}

pub open spec fn point_wf(p: (i64, i64)) -> bool {
    &&& -COORD_LIMIT <= p.0 <= COORD_LIMIT
    &&& -COORD_LIMIT <= p.1 <= COORD_LIMIT
}

pub open spec fn area_wf(a: (i64, i64, i64, i64)) -> bool {
    &&& 0 <= a.0
    &&& 0 <= a.1
    &&& 0 <= a.2
    &&& 0 <= a.3
    &&& a.0 + a.2 <= COORD_LIMIT
    &&& a.1 + a.3 <= COORD_LIMIT
}

/// (x, y) lies inside the rectangle `a`, borders included.
pub open spec fn in_area(a: (i64, i64, i64, i64), x: i64, y: i64) -> bool {
    &&& a.0 <= x <= a.0 + a.2
    &&& a.1 <= y <= a.1 + a.3
}

/// (x, y) lies inside some buildable rectangle.
pub open spec fn can_place_at(areas: Seq<(i64, i64, i64, i64)>, x: i64, y: i64) -> bool {
    exists|i: int| 0 <= i < areas.len() && in_area(#[trigger] areas[i], x, y)
}

impl GameMap {
    /// The map's data is exactly that of its kind, every waypoint lies within
    /// the coordinate bound, and every buildable rectangle is non-degenerate
    /// and within bounds.
    pub open spec fn wf(self) -> bool {
        &&& self.path@.len() >= 2
        &&& forall|i: int| 0 <= i < self.path@.len() ==> point_wf(#[trigger] self.path@[i])
        &&& forall|i: int|
            0 <= i < self.buildable_areas@.len() ==> area_wf(#[trigger] self.buildable_areas@[i])
        &&& self.path@ == map_path(self.map_type)
        &&& self.buildable_areas@ == map_areas(self.map_type)
    }

    pub fn new(map_type: MapType) -> (m: GameMap)
        ensures
            m.wf(),
            m.map_type == map_type,
            m.path@ == map_path(map_type),
            m.buildable_areas@ == map_areas(map_type),
    {
        match map_type {
            MapType::Beginner => Map1::create(),
            MapType::Advanced => Map2::create(),
        }
    }

    pub fn can_place_tower(&self, x: i64, y: i64) -> (ok: bool)
        requires
            self.wf(),
        ensures
            ok == can_place_at(self.buildable_areas@, x, y),
    {
        let n = self.buildable_areas.len();
        let mut i: usize = 0;
        while i < n
            invariant
                n == self.buildable_areas@.len(),
                i <= n,
                self.wf(),
                forall|j: int| 0 <= j < i ==> !in_area(#[trigger] self.buildable_areas@[j], x, y),
            decreases n - i,
        {
            let a = self.buildable_areas[i];
            if x >= a.0 && x <= a.0 + a.2 && y >= a.1 && y <= a.1 + a.3 {
                return true;
            }
            i = i + 1;
        }
        false
    }

    pub fn get_path(&self) -> (p: &Vec<(i64, i64)>)
        ensures
            p@ == self.path@,
    {
        &self.path
    }

    pub fn get_path_start(&self) -> (s: (i64, i64))
        requires
            self.wf(),
        ensures
            s == self.path@[0],
    {
        self.path[0]
    }
}

impl Map1 {
    pub fn create() -> (m: GameMap)
        ensures
            m.wf(),
            m.map_type == MapType::Beginner,
            m.path@ == beginner_path(),
            m.buildable_areas@ == beginner_areas(),
    {
        let path: Vec<(i64, i64)> = vec![
            (0i64, 350_000i64),
            (300_000i64, 350_000i64),
            (300_000i64, 150_000i64),
            (700_000i64, 150_000i64),
            (700_000i64, 500_000i64),
            (1_024_000i64, 500_000i64),
        ];
        let buildable_areas: Vec<(i64, i64, i64, i64)> = vec![
            (350_000i64, 250_000i64, 200_000i64, 150_000i64),
            (50_000i64, 450_000i64, 200_000i64, 200_000i64),
            (750_000i64, 50_000i64, 200_000i64, 250_000i64),
        ];
        proof {
            assert(path@ =~= beginner_path());
            assert(buildable_areas@ =~= beginner_areas());
        }
        GameMap { map_type: MapType::Beginner, path, buildable_areas }
    }
}

impl Map2 {
    pub fn create() -> (m: GameMap)
        ensures
            m.wf(),
            m.map_type == MapType::Advanced,
            m.path@ == advanced_path(),
            m.buildable_areas@ == advanced_areas(),
    {
        let path: Vec<(i64, i64)> = vec![
            (0i64, 100_000i64),
            (800_000i64, 100_000i64),
            (800_000i64, 300_000i64),
            (200_000i64, 300_000i64),
            (200_000i64, 550_000i64),
            (1_024_000i64, 550_000i64),
        ];
        let buildable_areas: Vec<(i64, i64, i64, i64)> = vec![
            (100_000i64, 150_000i64, 250_000i64, 100_000i64),
            (300_000i64, 380_000i64, 300_000i64, 120_000i64),
            (850_000i64, 350_000i64, 150_000i64, 150_000i64),
        ];
        proof {
            assert(path@ =~= advanced_path());
            assert(buildable_areas@ =~= advanced_areas());
        }
        GameMap { map_type: MapType::Advanced, path, buildable_areas }
    }
}

} // verus!
