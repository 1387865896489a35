//! Laying out a floor run: its ground tiles and the one collider behind them.
use vstd::prelude::*;
use crate::entity::Spawned;
use crate::world::{FloorDefinition, Point, HALF_TILE, TILE};

verus! {

pub const GROUND_TEXTURE_INDEX_MIDDLE: usize = 82;

pub const GROUND_TEXTURE_INDEX_LEFT: usize = 48;

pub const GROUND_TEXTURE_INDEX_RIGHT: usize = 41;

pub const GROUND_TEXTURE_INDEX_ALONE: usize = 38;

pub open spec fn or_default(o: Option<usize>, d: usize) -> usize {
    match o {
        Some(v) => v,
        None => d,
    }
}

/// The number of tiles of a run `length` long: one per started tile.
pub open spec fn tile_count(length: int) -> int {
    (length + TILE - 1) / (TILE as int)
}

/// The atlas index of the tile that starts `offset` after the run's start.
pub open spec fn tile_index_at(f: FloorDefinition, offset: int) -> usize {
    if f.length == TILE {
        or_default(f.left, GROUND_TEXTURE_INDEX_ALONE)
    } else if offset == 0 {
        or_default(f.left, GROUND_TEXTURE_INDEX_LEFT)
    } else if f.length - offset <= TILE {
        or_default(f.right, GROUND_TEXTURE_INDEX_RIGHT)
    } else {
        or_default(f.middle, GROUND_TEXTURE_INDEX_MIDDLE)
    }
}

/// The `i`-th tile of a run, centered in its cell.
pub open spec fn floor_tile(f: FloorDefinition, i: int) -> Spawned {
    Spawned::GroundTile {
        index: tile_index_at(f, i * TILE),
        at: Point { x: (f.loc.x + i * TILE + HALF_TILE) as i64, y: f.loc.y },
    }
}

/// The collider of a run: as long as the run, one tile high, centered on it.
pub open spec fn floor_collider(f: FloorDefinition) -> Spawned {
    Spawned::FloorBody {
        min: Point { x: f.loc.x, y: (f.loc.y - HALF_TILE) as i64 },
        max: Point { x: (f.loc.x + f.length) as i64, y: (f.loc.y + HALF_TILE) as i64 },
    }
}

pub open spec fn floor_tiles(f: FloorDefinition) -> Seq<Spawned> {
    Seq::new(tile_count(f.length as int) as nat, |i: int| floor_tile(f, i))
}

/// Everything a run spawns: its tiles from left to right, then its collider.
pub open spec fn floor_spawns(f: FloorDefinition) -> Seq<Spawned> {
    floor_tiles(f).push(floor_collider(f))
}

/// The atlas index a spawned object is drawn with, if it is a ground tile.
pub open spec fn ground_index(s: Spawned) -> Option<usize> {
    match s {
        Spawned::GroundTile { index, .. } => Some(index),
        _ => None,
    }
}

/// A run one tile long is a single tile, drawn with the left override or the
/// stand-alone tile.
pub proof fn lemma_single_tile_floor(f: FloorDefinition)
    requires
        f.wf(),
        f.length == TILE,
    ensures
        floor_tiles(f).len() == 1,
        ground_index(floor_tiles(f)[0]) == Some(or_default(f.left, GROUND_TEXTURE_INDEX_ALONE)),
{
}

/// A run of a whole number `n >= 2` of tiles has exactly `n` tiles: the left
/// one first, the right one last and middle ones in between.
pub proof fn lemma_whole_floor(f: FloorDefinition, n: int)
    requires
        f.wf(),
        n >= 2,
        f.length == n * TILE,
    ensures
        floor_tiles(f).len() == n,
        ground_index(floor_tiles(f)[0]) == Some(or_default(f.left, GROUND_TEXTURE_INDEX_LEFT)),
        ground_index(floor_tiles(f)[n - 1]) == Some(or_default(f.right, GROUND_TEXTURE_INDEX_RIGHT)),
        forall|i: int|
            0 < i < n - 1 ==> ground_index(#[trigger] floor_tiles(f)[i]) == Some(
                or_default(f.middle, GROUND_TEXTURE_INDEX_MIDDLE),
            ),
{
    lemma_tile_count(f.length as int, n);
    assert((n - 1) * TILE == n * TILE - TILE) by (nonlinear_arith);
    assert forall|i: int| 0 < i < n - 1 implies ground_index(#[trigger] floor_tiles(f)[i]) == Some(
        or_default(f.middle, GROUND_TEXTURE_INDEX_MIDDLE),
    ) by {
        assert(i * TILE > 0 && i * TILE < n * TILE - TILE) by (nonlinear_arith)
            requires
                0 < i < n - 1,
        ;
    }
}

/// The collider of a run is exactly as wide as the run and centered at
/// `loc.x + length / 2`, one tile high around `loc.y`.
pub proof fn lemma_floor_collider(f: FloorDefinition)
    requires
        f.wf(),
    ensures
        floor_spawns(f).last() == floor_collider(f),
        floor_collider(f) matches Spawned::FloorBody { min, max } && max.x - min.x == f.length
            && min.x + max.x == 2 * f.loc.x + f.length && max.y - min.y == TILE && min.y
            + max.y == 2 * f.loc.y,
{
}

proof fn lemma_tile_count(length: int, k: int)
    requires
        0 < length,
        (k - 1) * TILE < length <= k * TILE,
    ensures
        tile_count(length) == k,
{
    assert(tile_count(length) == k) by (nonlinear_arith)
        requires
            0 < length,
            (k - 1) * 1000 < length <= k * 1000,
            tile_count(length) == (length + 999) / 1000,
    ;
}

/// Appends the tiles and the collider of `floor` to `children`.
pub fn spawn_floor_onto(children: &mut Vec<Spawned>, floor: &FloorDefinition)
    requires
        floor.wf(),
    ensures
        final(children)@ == old(children)@ + floor_spawns(*floor),
{
    let ghost start = old(children)@;
    let mut x_offset: i64 = 0;
    let ghost mut k: int = 0;
    while x_offset < floor.length
        invariant
            floor.wf(),
            0 <= k,
            x_offset == k * TILE,
            (k - 1) * TILE < floor.length,
            children@ == start + Seq::new(k as nat, |i: int| floor_tile(*floor, i)),
        decreases floor.length + TILE - x_offset,
    {
        let index = if floor.length == TILE {
            match floor.left {
                Some(v) => v,
                None => GROUND_TEXTURE_INDEX_ALONE,
            }
        } else if x_offset == 0 {
            match floor.left {
                Some(v) => v,
                None => GROUND_TEXTURE_INDEX_LEFT,
            }
        } else if floor.length - x_offset <= TILE {
            match floor.right {
                Some(v) => v,
                None => GROUND_TEXTURE_INDEX_RIGHT,
            }
        } else {
            match floor.middle {
                Some(v) => v,
                None => GROUND_TEXTURE_INDEX_MIDDLE,
            }
        };
        let at = Point { x: floor.loc.x + x_offset + HALF_TILE, y: floor.loc.y };
        children.push(Spawned::GroundTile { index, at });
        proof {
            assert(Spawned::GroundTile { index, at } == floor_tile(*floor, k));
            assert(children@ =~= start + Seq::new((k + 1) as nat, |i: int| floor_tile(*floor, i)));
            k = k + 1;
        }
        x_offset = x_offset + TILE;
    }
    proof {
        lemma_tile_count(floor.length as int, k);
    }
    let min = Point { x: floor.loc.x, y: floor.loc.y - HALF_TILE };
    let max = Point { x: floor.loc.x + floor.length, y: floor.loc.y + HALF_TILE };
    children.push(Spawned::FloorBody { min, max });
    assert(children@ =~= start + floor_spawns(*floor));
}

} // verus!
