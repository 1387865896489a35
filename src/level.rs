//! The level director: which level is active, what its root holds, how a
//! level is built from its definition and how an exit leads to the next.
use vstd::prelude::*;
use crate::elevator::{elevator_spawn, setup, update, updated};
use crate::entity::Spawned;
use crate::floor::{floor_spawns, spawn_floor_onto};
use crate::world::{
    ElevatorDefinition, ExitDefinition, Feature, FeatureModel, FloorDefinition, LevelDefinition,
    Point, WorldDefinition, HALF_TILE, TILE,
};

verus! {

pub const DOOR_BOTTOM_SPRITE_INDEX: usize = 48;

pub const DOOR_TOP_SPRITE_INDEX: usize = 43;

pub const EXIT_SIGN_SPRITE_INDEX: usize = 39;

/// Where the player is put back when it goes through an exit.
pub const PLAYER_START_X: i64 = 0;

pub const PLAYER_START_Y: i64 = 10000;

/// The per-frame steps of the level director: exits, then building.
pub struct LevelPlugin;

/// A marker for a level that has finished building.
pub struct Ready;

/// The root of the active level: its index and the objects spawned under it.
pub struct Level {
    idx: u8,
    children: Vec<Spawned>,
}

/// What a level root is: the index of the active level and its children.
pub struct LevelState {
    pub idx: u8,
    pub children: Seq<Spawned>,
}

impl View for Level {
    type V = LevelState;

    closed spec fn view(&self) -> LevelState {
        LevelState { idx: self.idx, children: self.children@ }
    }
}

/// The three markers of an exit of level `idx`: the door's lower half, which
/// leads to level `idx + 1`, the upper half above it and the sign two tiles
/// to its right.
pub open spec fn exit_spawns(e: ExitDefinition, idx: u8) -> Seq<Spawned> {
    seq![
        Spawned::ExitDoor { at: e.location, destination: (idx + 1) as u8 },
        Spawned::DoorTop { at: Point { x: e.location.x, y: (e.location.y + TILE) as i64 } },
        Spawned::ExitSign { at: Point { x: (e.location.x + 2 * TILE) as i64, y: e.location.y } },
    ]
}

pub open spec fn exits_spawns(s: Seq<ExitDefinition>, idx: u8) -> Seq<Spawned>
    decreases s.len(),
{
    if s.len() == 0 {
        seq![]
    } else {
        exits_spawns(s.drop_last(), idx) + exit_spawns(s.last(), idx)
    }
}

pub open spec fn floors_spawns(s: Seq<FloorDefinition>) -> Seq<Spawned>
    decreases s.len(),
{
    if s.len() == 0 {
        seq![]
    } else {
        floors_spawns(s.drop_last()) + floor_spawns(s.last())
    }
}

pub open spec fn elevators_spawns(s: Seq<ElevatorDefinition>) -> Seq<Spawned>
    decreases s.len(),
{
    if s.len() == 0 {
        seq![]
    } else {
        elevators_spawns(s.drop_last()).push(elevator_spawn(s.last()))
    }
}

pub open spec fn feature_spawns(f: FeatureModel, idx: u8) -> Seq<Spawned> {
    match f {
        FeatureModel::Floor(s) => floors_spawns(s),
        FeatureModel::Exit(s) => exits_spawns(s, idx),
        FeatureModel::Elevator(s) => elevators_spawns(s),
    }
}

/// Everything level `idx` spawns: each feature's objects, in the order the
/// features and their records are written.
pub open spec fn level_spawns(fs: Seq<FeatureModel>, idx: u8) -> Seq<Spawned>
    decreases fs.len(),
{
    if fs.len() == 0 {
        seq![]
    } else {
        level_spawns(fs.drop_last(), idx) + feature_spawns(fs.last(), idx)
    }
}


/// Appends the tiles and colliders of `floors`, in order.
pub fn spawn_floors(children: &mut Vec<Spawned>, floors: &[FloorDefinition])
    requires
        forall|i: int| 0 <= i < floors@.len() ==> (#[trigger] floors@[i]).wf(),
    ensures
        final(children)@ == old(children)@ + floors_spawns(floors@),
{
    let ghost start = old(children)@;
    let mut i: usize = 0;
    while i < floors.len()
        invariant
            0 <= i <= floors@.len(),
            forall|j: int| 0 <= j < floors@.len() ==> (#[trigger] floors@[j]).wf(),
            children@ == start + floors_spawns(floors@.subrange(0, i as int)),
        decreases floors@.len() - i,
    {
        spawn_floor_onto(children, &floors[i]);
        proof {
            let s = floors@.subrange(0, i + 1);
            assert(s.drop_last() =~= floors@.subrange(0, i as int));
            assert(children@ =~= start + floors_spawns(s));
        }
        i = i + 1;
    }
    assert(floors@.subrange(0, floors@.len() as int) =~= floors@);
}

/// Appends the elevators of `elevators`, in order.
pub fn spawn_elevators(children: &mut Vec<Spawned>, elevators: &[ElevatorDefinition])
    requires
        forall|i: int| 0 <= i < elevators@.len() ==> (#[trigger] elevators@[i]).wf(),
    ensures
        final(children)@ == old(children)@ + elevators_spawns(elevators@),
{
    let ghost start = old(children)@;
    let mut i: usize = 0;
    while i < elevators.len()
        invariant
            0 <= i <= elevators@.len(),
            forall|j: int| 0 <= j < elevators@.len() ==> (#[trigger] elevators@[j]).wf(),
            children@ == start + elevators_spawns(elevators@.subrange(0, i as int)),
        decreases elevators@.len() - i,
    {
        setup(children, &elevators[i]);
        proof {
            let s = elevators@.subrange(0, i + 1);
            assert(s.drop_last() =~= elevators@.subrange(0, i as int));
            assert(children@ =~= start + elevators_spawns(s));
        }
        i = i + 1;
    }
    assert(elevators@.subrange(0, elevators@.len() as int) =~= elevators@);
}

/// Appends the markers of `exits` of level `level_index`, in order.
pub fn spawn_exits(children: &mut Vec<Spawned>, level_index: u8, exits: &[ExitDefinition])
    requires
        level_index < 255,
        forall|i: int| 0 <= i < exits@.len() ==> (#[trigger] exits@[i]).wf(),
    ensures
        final(children)@ == old(children)@ + exits_spawns(exits@, level_index),
{
    let ghost start = old(children)@;
    let mut i: usize = 0;
    while i < exits.len()
        invariant
            0 <= i <= exits@.len(),
            level_index < 255,
            forall|j: int| 0 <= j < exits@.len() ==> (#[trigger] exits@[j]).wf(),
            children@ == start + exits_spawns(exits@.subrange(0, i as int), level_index),
        decreases exits@.len() - i,
    {
        let loc = exits[i].location;
        let door_top = Point { x: loc.x, y: loc.y + TILE };
        let exit_sign = Point { x: loc.x + 2 * TILE, y: loc.y };
        children.push(Spawned::ExitDoor { at: loc, destination: level_index + 1 });
        children.push(Spawned::DoorTop { at: door_top });
        children.push(Spawned::ExitSign { at: exit_sign });
        proof {
            let s = exits@.subrange(0, i + 1);
            assert(s.drop_last() =~= exits@.subrange(0, i as int));
            assert(children@ =~= start + exits_spawns(s, level_index));
        }
        i = i + 1;
    }
    assert(exits@.subrange(0, exits@.len() as int) =~= exits@);
}

/// Appends everything level `level_index` spawns from its definition.
pub fn spawn_level_features(
    children: &mut Vec<Spawned>,
    level_index: u8,
    level_definition: &LevelDefinition,
)
    requires
        level_index < 255,
        level_definition.wf(),
    ensures
        final(children)@ == old(children)@ + level_spawns(
            level_definition.features_view(),
            level_index,
        ),
{
    let ghost start = old(children)@;
    let ghost fs = level_definition.features_view();
    let mut i: usize = 0;
    while i < level_definition.features.len()
        invariant
            0 <= i <= level_definition.features@.len(),
            level_index < 255,
            level_definition.wf(),
            fs == level_definition.features_view(),
            children@ == start + level_spawns(fs.subrange(0, i as int), level_index),
        decreases level_definition.features@.len() - i,
    {
        let feature = &level_definition.features[i];
        assert(feature@.wf());
        match feature {
            Feature::Exit(exits) => {
                spawn_exits(children, level_index, exits.as_slice());
            },
            Feature::Floor(floors) => {
                spawn_floors(children, floors.as_slice());
            },
            Feature::Elevator(elevators) => {
                spawn_elevators(children, elevators.as_slice());
            },
        }
        proof {
            let s = fs.subrange(0, i + 1);
            assert(s.drop_last() =~= fs.subrange(0, i as int));
            assert(s.last() == feature@);
            assert(children@ =~= start + level_spawns(s, level_index));
        }
        i = i + 1;
    }
    assert(fs.subrange(0, fs.len() as int) =~= fs);
}


/// Whether a player at `p` stands close enough to an exit door at `at` to
/// go through it: less than half a tile away along each axis.
pub open spec fn near(p: Point, at: Point) -> bool {
    &&& -HALF_TILE < p.x - at.x < HALF_TILE
    &&& -HALF_TILE < p.y - at.y < HALF_TILE
}

pub open spec fn player_start() -> Point {
    Point { x: PLAYER_START_X, y: PLAYER_START_Y }
}

/// Going through the exit doors among `ch` in order, starting with the player
/// at `p` in level `idx`: where the player ends up, the level it is sent to,
/// and whether any door was taken. A door taken puts the player back at the
/// start, and later doors are tried from there.
pub open spec fn exits_outcome(ch: Seq<Spawned>, p: Point, idx: u8) -> (Point, u8, bool)
    decreases ch.len(),
{
    if ch.len() == 0 {
        (p, idx, false)
    } else {
        let r = exits_outcome(ch.drop_last(), p, idx);
        match ch.last() {
            Spawned::ExitDoor { at, destination } => if near(r.0, at) {
                (player_start(), destination, true)
            } else {
                r
            },
            _ => r,
        }
    }
}

/// One exit check: with the advance key held, the outcome of the exit doors
/// for the player; without it, nothing changes. Returns the new root and the
/// new player position.
pub open spec fn exit_step(s: LevelState, up_pressed: bool, p: Point) -> (LevelState, Point) {
    if !up_pressed {
        (s, p)
    } else {
        let r = exits_outcome(s.children, p, s.idx);
        (LevelState { idx: r.1, children: if r.2 { seq![] } else { s.children } }, r.0)
    }
}

/// The root after entering level `k`: that index, nothing spawned yet.
pub open spec fn entered(k: u8) -> LevelState {
    LevelState { idx: k, children: seq![] }
}

/// The root after a building step: a root with no children whose level
/// exists gets that level's objects; any other root stays as it is.
pub open spec fn built(s: LevelState, w: WorldDefinition) -> LevelState {
    if s.children.len() == 0 && (s.idx as int) < w.levels@.len() {
        LevelState {
            idx: s.idx,
            children: level_spawns(w.levels@[s.idx as int].features_view(), s.idx),
        }
    } else {
        s
    }
}

/// The end-of-game screen, shown once the last level is left.
pub fn spawn_win_screen() {
}

impl Level {
    /// The root at the start of a session: the first level, not built yet.
    pub fn new() -> (r: Level)
        ensures
            r@ == entered(0),
    {
        Level { idx: 0, children: Vec::new() }
    }

    pub fn idx(&self) -> (r: u8)
        ensures
            r == self@.idx,
    {
        self.idx
    }

    pub fn children(&self) -> (r: &Vec<Spawned>)
        ensures
            r@ == self@.children,
    {
        &self.children
    }

    /// Makes level `idx` the active one and removes everything spawned.
    pub fn enter_level(&mut self, idx: u8)
        ensures
            final(self)@ == entered(idx),
    {
        self.idx = idx;
        self.children = Vec::new();
    }

    /// Builds the active level if nothing is spawned yet; past the last level
    /// it shows the end-of-game screen instead.
    pub fn spawn_level(&mut self, world: &WorldDefinition)
        requires
            world.wf(),
        ensures
            final(self)@ == built(old(self)@, *world),
    {
        if self.children.len() > 0 {
            return;
        }
        match world.level_at(self.idx) {
            Some(level_definition) => {
                spawn_level_features(&mut self.children, self.idx, level_definition);
                assert(self.children@ =~= level_spawns(level_definition.features_view(), self.idx));
            },
            None => spawn_win_screen(),
        }
    }

    /// With the advance key held, sends a player standing at an exit door to
    /// the door's level: the player goes back to the start and everything
    /// spawned is removed, to be built again for the new level.
    pub fn exit_level(&mut self, up_pressed: bool, player: &mut Point)
        ensures
            (final(self)@, *final(player)) == exit_step(old(self)@, up_pressed, *old(player)),
    {
        if !up_pressed {
            return;
        }
        let ghost p0 = *old(player);
        let ghost idx0 = old(self)@.idx;
        let mut taken = false;
        let mut i: usize = 0;
        while i < self.children.len()
            invariant
                0 <= i <= self.children@.len(),
                self.children@ == old(self)@.children,
                (*player, self.idx, taken) == exits_outcome(
                    self.children@.subrange(0, i as int),
                    p0,
                    idx0,
                ),
            decreases self.children@.len() - i,
        {
            proof {
                let s = self.children@.subrange(0, i + 1);
                assert(s.drop_last() =~= self.children@.subrange(0, i as int));
                assert(s.last() == self.children@[i as int]);
            }
            match self.children[i] {
                Spawned::ExitDoor { at, destination } => {
                    let dx = player.x as i128 - at.x as i128;
                    let dy = player.y as i128 - at.y as i128;
                    if -(HALF_TILE as i128) < dx && dx < HALF_TILE as i128 && -(HALF_TILE as i128)
                        < dy && dy < HALF_TILE as i128 {
                        *player = Point { x: PLAYER_START_X, y: PLAYER_START_Y };
                        self.idx = destination;
                        taken = true;
                    }
                },
                _ => {},
            }
            i = i + 1;
        }
        assert(self.children@.subrange(0, self.children@.len() as int) =~= self.children@);
        if taken {
            self.children = Vec::new();
        }
        assert(self@.children =~= exit_step(old(self)@, up_pressed, p0).0.children);
    }

    /// Moves every elevator of the level on by one frame.
    pub fn update_elevators(&mut self)
        ensures
            final(self)@.idx == old(self)@.idx,
            final(self)@.children.len() == old(self)@.children.len(),
            forall|i: int|
                0 <= i < old(self)@.children.len() ==> #[trigger] final(self)@.children[i]
                    == updated(old(self)@.children[i]),
    {
        update(&mut self.children);
    }
}

impl LevelPlugin {
    /// One frame of the level director: the exits are checked, then the
    /// active level is built if nothing is spawned.
    pub fn update(
        &self,
        level: &mut Level,
        world: &WorldDefinition,
        up_pressed: bool,
        player: &mut Point,
    )
        requires
            world.wf(),
        ensures
            ({
                let e = exit_step(old(level)@, up_pressed, *old(player));
                &&& final(level)@ == built(e.0, *world)
                &&& *final(player) == e.1
            }),
    {
        level.exit_level(up_pressed, player);
        level.spawn_level(world);
    }
}

impl crate::elevator::ElevatorPlugin {
    /// One frame of every elevator of the active level.
    pub fn update(&self, level: &mut Level)
        ensures
            final(level)@.idx == old(level)@.idx,
            final(level)@.children.len() == old(level)@.children.len(),
            forall|i: int|
                0 <= i < old(level)@.children.len() ==> #[trigger] final(level)@.children[i]
                    == updated(old(level)@.children[i]),
    {
        level.update_elevators();
    }
}

/// Entering a level is atomic to an observer: right after it nothing is
/// spawned, and after the next building step exactly that level's objects
/// are, when the level exists.
pub proof fn lemma_transition_atomic(w: WorldDefinition, k: u8)
    requires
        w.wf(),
    ensures
        entered(k).children.len() == 0,
        (k as int) < w.levels@.len() ==> built(entered(k), w).children == level_spawns(
            w.levels@[k as int].features_view(),
            k,
        ),
        (k as int) >= w.levels@.len() ==> built(entered(k), w) == entered(k),
{
}


/// Whether every exit door among `s` leads to level `d`.
pub open spec fn doors_lead_to(s: Seq<Spawned>, d: u8) -> bool {
    forall|i: int|
        0 <= i < s.len() ==> match #[trigger] s[i] {
            Spawned::ExitDoor { destination, .. } => destination == d,
            _ => true,
        }
}

proof fn lemma_doors_concat(a: Seq<Spawned>, b: Seq<Spawned>, d: u8)
    requires
        doors_lead_to(a, d),
        doors_lead_to(b, d),
    ensures
        doors_lead_to(a + b, d),
{
    assert forall|i: int| 0 <= i < (a + b).len() implies match #[trigger] (a + b)[i] {
        Spawned::ExitDoor { destination, .. } => destination == d,
        _ => true,
    } by {
        if i < a.len() {
            assert((a + b)[i] == a[i]);
        } else {
            assert((a + b)[i] == b[i - a.len()]);
        }
    }
}

proof fn lemma_feature_doors(f: FeatureModel, idx: u8)
    requires
        idx < 255,
    ensures
        doors_lead_to(feature_spawns(f, idx), (idx + 1) as u8),
    decreases
        match f {
            FeatureModel::Floor(s) => s.len(),
            FeatureModel::Exit(s) => s.len(),
            FeatureModel::Elevator(s) => s.len(),
        },
{
    let d = (idx + 1) as u8;
    match f {
        FeatureModel::Floor(s) => {
            if s.len() > 0 {
                lemma_feature_doors(FeatureModel::Floor(s.drop_last()), idx);
                let t = floor_spawns(s.last());
                assert forall|i: int| 0 <= i < t.len() implies match #[trigger] t[i] {
                    Spawned::ExitDoor { destination, .. } => destination == d,
                    _ => true,
                } by {}
                lemma_doors_concat(floors_spawns(s.drop_last()), t, d);
            }
        },
        FeatureModel::Exit(s) => {
            if s.len() > 0 {
                lemma_feature_doors(FeatureModel::Exit(s.drop_last()), idx);
                lemma_doors_concat(exits_spawns(s.drop_last(), idx), exit_spawns(s.last(), idx), d);
            }
        },
        FeatureModel::Elevator(s) => {
            if s.len() > 0 {
                lemma_feature_doors(FeatureModel::Elevator(s.drop_last()), idx);
                lemma_doors_concat(
                    elevators_spawns(s.drop_last()),
                    seq![elevator_spawn(s.last())],
                    d,
                );
                assert(elevators_spawns(s) =~= elevators_spawns(s.drop_last()) + seq![
                    elevator_spawn(s.last()),
                ]);
            }
        },
    }
}

/// Every exit door that level `idx` spawns leads to level `idx + 1`.
pub proof fn lemma_exit_destinations(fs: Seq<FeatureModel>, idx: u8)
    requires
        idx < 255,
    ensures
        doors_lead_to(level_spawns(fs, idx), (idx + 1) as u8),
    decreases fs.len(),
{
    if fs.len() > 0 {
        lemma_exit_destinations(fs.drop_last(), idx);
        lemma_feature_doors(fs.last(), idx);
        lemma_doors_concat(
            level_spawns(fs.drop_last(), idx),
            feature_spawns(fs.last(), idx),
            (idx + 1) as u8,
        );
    }
}

} // verus!
