//! The declarative description of the world: levels made of floors, exits
//! and elevators. Distances are fixed-point, in thousandths of a tile.
use vstd::prelude::*;

verus! {

/// One tile, in the fixed-point unit used for every distance.
pub const TILE: i64 = 1000;

/// Half a tile.
pub const HALF_TILE: i64 = 500;

/// The largest magnitude a coordinate or a length of the world may have.
pub const MAX_COORD: i64 = 1_000_000_000_000;

/// The largest number of levels a world may hold (level indices are `u8`).
pub const MAX_LEVELS: usize = 255;

/// A position in the world, in thousandths of a tile.
#[derive(Clone, Copy, Debug, PartialEq, Eq, Structural)]
pub struct Point {
    pub x: i64,
    pub y: i64,
}

pub open spec fn coord_ok(v: i64) -> bool {
    -MAX_COORD <= v <= MAX_COORD
}

fn check_coord(v: i64) -> (r: bool)
    ensures
        r == coord_ok(v),
{
    -MAX_COORD <= v && v <= MAX_COORD
}

impl Point {
    pub open spec fn wf(self) -> bool {
        coord_ok(self.x) && coord_ok(self.y)
    }

    pub fn is_valid(&self) -> (r: bool)
        ensures
            r == self.wf(),
    {
        check_coord(self.x) && check_coord(self.y)
    }

    pub fn new(x: i64, y: i64) -> (r: Point)
        ensures
            r.x == x,
            r.y == y,
    {
        Point { x, y }
    }
}

/// A horizontal run of ground tiles starting at `loc` and `length` long,
/// with optional overrides of the tile drawn at its ends and in its middle.
#[derive(Clone, Copy, Debug, PartialEq, Eq, Structural)]
pub struct FloorDefinition {
    pub loc: Point,
    pub length: i64,
    pub left: Option<usize>,
    pub right: Option<usize>,
    pub middle: Option<usize>,
}

impl FloorDefinition {
    pub open spec fn wf(self) -> bool {
        self.loc.wf() && 0 < self.length <= MAX_COORD
    }

    pub fn is_valid(&self) -> (r: bool)
        ensures
            r == self.wf(),
    {
        self.loc.is_valid() && 0 < self.length && self.length <= MAX_COORD
    }
}

/// A door leading to the next level.
#[derive(Clone, Copy, Debug, PartialEq, Eq, Structural)]
pub struct ExitDefinition {
    pub location: Point,
}

impl ExitDefinition {
    pub open spec fn wf(self) -> bool {
        self.location.wf()
    }

    pub fn is_valid(&self) -> (r: bool)
        ensures
            r == self.wf(),
    {
        self.location.is_valid()
    }
}

/// How an elevator is driven.
#[derive(Clone, Copy, Debug)]
pub enum ElevatorControl {
    /// It travels back and forth on its own.
    Constant,
    /// Driven by a pair of switches; described but without behaviour yet.
    Switches { locations: (Point, Point) },
}

/// A moving platform that travels vertically from `start_location` to `end_y`.
#[derive(Clone, Copy, Debug)]
pub struct ElevatorDefinition {
    pub start_location: Point,
    pub end_y: i64,
    pub control: ElevatorControl,
}

impl ElevatorDefinition {
    pub open spec fn wf(self) -> bool {
        self.start_location.wf() && coord_ok(self.end_y)
    }

    pub fn is_valid(&self) -> (r: bool)
        ensures
            r == self.wf(),
    {
        self.start_location.is_valid() && check_coord(self.end_y)
    }
}

/// One kind of content of a level, with the records of that kind.
#[derive(Clone, Debug)]
pub enum Feature {
    Floor(Vec<FloorDefinition>),
    Exit(Vec<ExitDefinition>),
    Elevator(Vec<ElevatorDefinition>),
}

pub open spec fn floors_wf(s: Seq<FloorDefinition>) -> bool {
    forall|i: int| 0 <= i < s.len() ==> (#[trigger] s[i]).wf()
}

pub open spec fn exits_wf(s: Seq<ExitDefinition>) -> bool {
    forall|i: int| 0 <= i < s.len() ==> (#[trigger] s[i]).wf()
}

pub open spec fn elevators_wf(s: Seq<ElevatorDefinition>) -> bool {
    forall|i: int| 0 <= i < s.len() ==> (#[trigger] s[i]).wf()
}

/// The view of a feature: its records as sequences.
pub enum FeatureModel {
    Floor(Seq<FloorDefinition>),
    Exit(Seq<ExitDefinition>),
    Elevator(Seq<ElevatorDefinition>),
}

impl View for Feature {
    type V = FeatureModel;

    open spec fn view(&self) -> FeatureModel {
        match self {
            Feature::Floor(v) => FeatureModel::Floor(v@),
            Feature::Exit(v) => FeatureModel::Exit(v@),
            Feature::Elevator(v) => FeatureModel::Elevator(v@),
        }
    }
}

impl FeatureModel {
    pub open spec fn wf(self) -> bool {
        match self {
            FeatureModel::Floor(s) => floors_wf(s),
            FeatureModel::Exit(s) => exits_wf(s),
            FeatureModel::Elevator(s) => elevators_wf(s),
        }
    }
}

impl Feature {
    pub fn is_valid(&self) -> (r: bool)
        ensures
            r == self@.wf(),
    {
        match self {
            Feature::Floor(v) => {
                let mut i: usize = 0;
                while i < v.len()
                    invariant
                        self@ == FeatureModel::Floor(v@),
                        0 <= i <= v@.len(),
                        forall|j: int| 0 <= j < i ==> (#[trigger] v@[j]).wf(),
                    decreases v@.len() - i,
                {
                    if !v[i].is_valid() {
                        assert(!v@[i as int].wf());

                        return false;
                    }
                    i = i + 1;
                }
                true
            },
            Feature::Exit(v) => {
                let mut i: usize = 0;
                while i < v.len()
                    invariant
                        self@ == FeatureModel::Exit(v@),
                        0 <= i <= v@.len(),
                        forall|j: int| 0 <= j < i ==> (#[trigger] v@[j]).wf(),
                    decreases v@.len() - i,
                {
                    if !v[i].is_valid() {
                        assert(!v@[i as int].wf());

                        return false;
                    }
                    i = i + 1;
                }
                true
            },
            Feature::Elevator(v) => {
                let mut i: usize = 0;
                while i < v.len()
                    invariant
                        self@ == FeatureModel::Elevator(v@),
                        0 <= i <= v@.len(),
                        forall|j: int| 0 <= j < i ==> (#[trigger] v@[j]).wf(),
                    decreases v@.len() - i,
                {
                    if !v[i].is_valid() {
                        assert(!v@[i as int].wf());

                        return false;
                    }
                    i = i + 1;
                }
                true
            },
        }
    }
}

/// The content of one level, in the order it was written.
#[derive(Clone, Debug)]
pub struct LevelDefinition {
    pub features: Vec<Feature>,
}

impl LevelDefinition {
    pub open spec fn features_view(self) -> Seq<FeatureModel> {
        self.features@.map_values(|f: Feature| f@)
    }

    pub open spec fn wf(self) -> bool {
        forall|i: int| 0 <= i < self.features@.len() ==> (#[trigger] self.features@[i])@.wf()
    }

    pub fn is_valid(&self) -> (r: bool)
        ensures
            r == self.wf(),
    {
        let mut i: usize = 0;
        while i < self.features.len()
            invariant
                0 <= i <= self.features@.len(),
                forall|j: int| 0 <= j < i ==> (#[trigger] self.features@[j])@.wf(),
            decreases self.features@.len() - i,
        {
            if !self.features[i].is_valid() {
                return false;
            }
            i = i + 1;
        }
        true
    }
}

/// The whole world: its levels, in order.
#[derive(Clone, Debug)]
pub struct WorldDefinition {
    pub levels: Vec<LevelDefinition>,
}

impl WorldDefinition {
    pub open spec fn wf(self) -> bool {
        &&& self.levels@.len() <= MAX_LEVELS
        &&& forall|i: int| 0 <= i < self.levels@.len() ==> (#[trigger] self.levels@[i]).wf()
    }

    /// Whether the world is one the level director can build: at most
    /// `MAX_LEVELS` levels, every floor of positive length, every coordinate
    /// within bounds.
    pub fn is_valid(&self) -> (r: bool)
        ensures
            r == self.wf(),
    {
        if self.levels.len() > MAX_LEVELS {
            return false;
        }
        let mut i: usize = 0;
        while i < self.levels.len()
            invariant
                0 <= i <= self.levels@.len(),
                forall|j: int| 0 <= j < i ==> (#[trigger] self.levels@[j]).wf(),
            decreases self.levels@.len() - i,
        {
            if !self.levels[i].is_valid() {
                return false;
            }
            i = i + 1;
        }
        true
    }

    /// The definition of level `idx`, if the world has that many levels.
    pub fn level_at(&self, idx: u8) -> (r: Option<&LevelDefinition>)
        ensures
            (idx as int) < self.levels@.len() ==> r == Some(&self.levels@[idx as int]),
            (idx as int) >= self.levels@.len() ==> r.is_none(),
    {
        if (idx as usize) < self.levels.len() {
            Some(&self.levels[idx as usize])
        } else {
            None
        }
    }
}

} // verus!
