//! The procedurally generated isometric tile map: tile placement by the 2:1
//! projection, the playable-area corners, and random tile selection.
//!
//! The tile-type grid itself comes from the caller (it is sampled from
//! coherent noise by the presentation layer); everything from the grid to
//! screen placement is exact fixed-point arithmetic and is specified here.

use vstd::prelude::*;

verus! {

use crate::atlas::{Atlas, AtlasInfo, Sprite, SpriteRef, spec_sprite_of};
use crate::geometry::Point;

/// The nominal tile size, in whole game units: 128 wide, 64 high.
pub const TILE_WIDTH: i64 = 128;

/// The nominal tile height, in whole game units.
pub const TILE_HEIGHT: i64 = 64;

/// The largest supported map side length, in tiles.
pub const MAX_MAP_SIZE: usize = 4096;

/// One placed tile: its screen position (in milli-units) and its sprite.
#[derive(Clone, Copy, Debug, PartialEq, Eq, Structural)]
pub struct Tile {
    pub position: Point,
    pub sprite: Sprite,
}

/// One map layer: a level number and its grid of placed tiles, one row per
/// grid row, tiles whose type has no sprite skipped.
#[derive(Debug)]
pub struct Layer {
    pub level: i32,
    pub data: Vec<Vec<Tile>>,
}

/// The generated map: its side length in tiles, its layers (only the base
/// layer is populated), and the four corner points of the base layer,
/// in the order top, right, bottom, left.
#[derive(Debug)]
pub struct TileMap {
    /// The side length of the map, in tiles.
    pub size: usize,
    /// The layers of the map.
    pub layers: Vec<Layer>,
    /// The corners of the playable area: top, right, bottom, left.
    pub playable_area: [Point; 4],
}

/// The isometric x placement of the tile at grid cell `(x_idx, y_idx)`, in
/// milli-units: the 2:1 projection, recentered by half a tile and by the
/// sprite's excess width, then scaled by six tenths.
pub open spec fn spec_tile_x(x_idx: int, y_idx: int, sprite_w: int) -> int {
    (x_idx * 64 - y_idx * 64 - (sprite_w - 128) - 64) * 600
}

/// The isometric y placement of the tile at grid cell `(x_idx, y_idx)` on a
/// map of `rows` rows, in milli-units.
pub open spec fn spec_tile_y(x_idx: int, y_idx: int, sprite_h: int, rows: int) -> int {
    (y_idx * 32 + x_idx * 32 - (sprite_h - 64) - (32 * rows - 32)) * 600
}

/// The tile placed for grid cell `(x_idx, y_idx)` holding tile type `v`, on
/// a map of `rows` rows described by `meta`.
pub open spec fn spec_tile_at(v: u32, x_idx: int, y_idx: int, meta: AtlasInfo, rows: int) -> Tile {
    let sprite = spec_sprite_of(meta.frames@[v as int], meta.size);
    Tile {
        position: Point {
            x: spec_tile_x(x_idx, y_idx, sprite.width as int) as i64,
            y: spec_tile_y(x_idx, y_idx, sprite.height as int, rows) as i64,
        },
        sprite,
    }
}

/// The row of placed tiles for one grid row: cell values in range yield
/// their tile, values with no declared frame are skipped.
pub open spec fn spec_tile_row(
    row: Seq<u32>,
    x_idx: int,
    y0: int,
    meta: AtlasInfo,
    rows: int,
) -> Seq<Tile>
    decreases row.len(),
{
    if row.len() == 0 {
        Seq::empty()
    } else {
        let rest = spec_tile_row(row.skip(1), x_idx, y0 + 1, meta, rows);
        if row[0] < meta.frames@.len() {
            seq![spec_tile_at(row[0], x_idx, y0, meta, rows)] + rest
        } else {
            rest
        }
    }
}

/// Extending a grid row by one cell extends its tile row by at most that
/// cell's tile.
proof fn lemma_tile_row_push(row: Seq<u32>, v: u32, x_idx: int, y0: int, meta: AtlasInfo, rows: int)
    ensures
        spec_tile_row(row.push(v), x_idx, y0, meta, rows) == if v < meta.frames@.len() {
            spec_tile_row(row, x_idx, y0, meta, rows).push(
                spec_tile_at(v, x_idx, y0 + row.len(), meta, rows),
            )
        } else {
            spec_tile_row(row, x_idx, y0, meta, rows)
        },
    decreases row.len(),
{
    reveal_with_fuel(spec_tile_row, 4);
    if row.len() == 0 {
        assert(row.push(v).skip(1) =~= Seq::<u32>::empty());
        if v < meta.frames@.len() {
            assert(spec_tile_row(row.push(v), x_idx, y0, meta, rows) =~=
                spec_tile_row(row, x_idx, y0, meta, rows).push(
                    spec_tile_at(v, x_idx, y0 + row.len(), meta, rows),
                ));
        }
    } else {
        assert(row.push(v).skip(1) =~= row.skip(1).push(v));
        lemma_tile_row_push(row.skip(1), v, x_idx, y0 + 1, meta, rows);
        if v < meta.frames@.len() {
            assert(spec_tile_row(row.push(v), x_idx, y0, meta, rows) =~=
                spec_tile_row(row, x_idx, y0, meta, rows).push(
                    spec_tile_at(v, x_idx, y0 + row.len(), meta, rows),
                ));
        } else {
            assert(spec_tile_row(row.push(v), x_idx, y0, meta, rows) =~=
                spec_tile_row(row, x_idx, y0, meta, rows));
        }
    }
}

/// Every tile of a generated row lies within the world coordinate limit.
proof fn lemma_tile_pos_in_limit(v: u32, x_idx: int, y_idx: int, meta: AtlasInfo, rows: int)
    requires
        meta.wf(),
        0 <= v < meta.frames@.len(),
        0 <= x_idx < rows,
        0 <= y_idx,
        y_idx < rows,
        rows <= MAX_MAP_SIZE,
    ensures
        spec_tile_at(v, x_idx, y_idx, meta, rows).position.in_limit(),
{
    let sprite = spec_sprite_of(meta.frames@[v as int], meta.size);
    assert(0 <= sprite.width <= 1_000_000 && 0 <= sprite.height <= 1_000_000);
}

impl TileMap {
    /// True when the base layer's grid is full: one row per grid row, each
    /// of the map's side length, so every cell produced a tile.
    pub open spec fn complete(self) -> bool {
        &&& self.layers@.len() >= 1
        &&& self.layers@[0].data@.len() == self.size
        &&& self.size >= 1
        &&& forall|x: int| 0 <= x < self.size ==>
            (#[trigger] self.layers@[0].data@[x])@.len() == self.size
    }

    /// Whether `p` is the position of some tile of the base layer.
    pub open spec fn is_tile_position(self, p: Point) -> bool {
        exists|x: int, y: int|
            0 <= x < self.layers@[0].data@.len()
            && 0 <= y < self.layers@[0].data@[x]@.len()
            && (#[trigger] self.layers@[0].data@[x]@[y]).position == p
    }

    /// True when every base-layer tile position is within the world limit.
    pub open spec fn tiles_in_limit(self) -> bool {
        forall|x: int, y: int|
            0 <= x < self.layers@[0].data@.len()
            && 0 <= y < self.layers@[0].data@[x]@.len() ==>
            (#[trigger] self.layers@[0].data@[x]@[y]).position.in_limit()
    }

    /// Generates the map for the given tile-type grid against the landscape
    /// atlas: one base layer of placed tiles, each at its exact isometric
    /// position, and the playable-area corners taken from the four corner
    /// tiles. Returns `None` when a corner row came out empty, so no
    /// playable area exists.
    pub fn new(grid: &Vec<Vec<u32>>, landscape: &Atlas, size: usize) -> (r: Option<TileMap>)
        requires
            1 <= size <= MAX_MAP_SIZE,
            grid@.len() == size,
            forall|x: int| 0 <= x < size ==> (#[trigger] grid@[x])@.len() == size,
            landscape.meta.wf(),
        ensures
            r matches Some(m) ==> {
                &&& m.size == size
                &&& m.layers@.len() == 1
                &&& m.layers@[0].level == 0
                &&& m.layers@[0].data@.len() == size
                &&& forall|x: int| 0 <= x < size ==>
                    (#[trigger] m.layers@[0].data@[x])@ == spec_tile_row(
                        grid@[x]@, x, 0, landscape.meta, size as int,
                    )
                &&& m.playable_area@[0] == m.layers@[0].data@[0]@[0].position
                &&& m.playable_area@[1] == m.layers@[0].data@[0]@.last().position
                &&& m.playable_area@[2] == m.layers@[0].data@[size - 1]@.last().position
                &&& m.playable_area@[3] == m.layers@[0].data@[size - 1]@[0].position
                &&& m.tiles_in_limit()
            },
            r is Some <==> {
                let first = spec_tile_row(grid@[0]@, 0, 0, landscape.meta, size as int);
                let last = spec_tile_row(
                    grid@[size - 1]@, size - 1, 0, landscape.meta, size as int,
                );
                first.len() > 0 && last.len() > 0
            },
    {
        let mut data: Vec<Vec<Tile>> = Vec::new();
        let mut x_idx: usize = 0;
        while x_idx < size
            invariant
                x_idx <= size,
                1 <= size <= MAX_MAP_SIZE,
                grid@.len() == size,
                forall|x: int| 0 <= x < size ==> (#[trigger] grid@[x])@.len() == size,
                landscape.meta.wf(),
                data@.len() == x_idx,
                forall|x: int| 0 <= x < x_idx ==>
                    (#[trigger] data@[x])@ == spec_tile_row(
                        grid@[x]@, x, 0, landscape.meta, size as int,
                    ),
                forall|x: int, y: int|
                    0 <= x < data@.len() && 0 <= y < data@[x]@.len() ==>
                    (#[trigger] data@[x]@[y]).position.in_limit(),
            decreases size - x_idx,
        {
            let mut row: Vec<Tile> = Vec::new();
            let grid_row: &Vec<u32> = &grid[x_idx];
            let mut y_idx: usize = 0;
            while y_idx < size
                invariant
                    y_idx <= size,
                    1 <= size <= MAX_MAP_SIZE,
                    x_idx < size,
                    grid_row@.len() == size,
                    grid_row@ == grid@[x_idx as int]@,
                    landscape.meta.wf(),
                    row@ == spec_tile_row(
                        grid_row@.take(y_idx as int), x_idx as int, 0, landscape.meta,
                        size as int,
                    ),
                    forall|y: int| 0 <= y < row@.len() ==>
                        (#[trigger] row@[y]).position.in_limit(),
                decreases size - y_idx,
            {
                let v: u32 = grid_row[y_idx];
                proof {
                    assert(grid_row@.take(y_idx as int + 1) =~=
                        grid_row@.take(y_idx as int).push(v));
                    lemma_tile_row_push(
                        grid_row@.take(y_idx as int), v, x_idx as int, 0, landscape.meta,
                        size as int,
                    );
                }
                match landscape.create_sprite(&SpriteRef::Index(v as usize)) {
                    Some(sprite) => {
                        let position = calculate_tile_position(
                            x_idx, y_idx, &sprite, size,
                        );
                        proof {
                            lemma_tile_pos_in_limit(
                                v, x_idx as int, y_idx as int, landscape.meta, size as int,
                            );
                            assert(spec_tile_row(grid_row@.take(y_idx as int), x_idx as int,
                                0, landscape.meta, size as int).len() == row@.len());
                        }
                        row.push(Tile { position, sprite });
                    },
                    None => {
                    },
                }
                y_idx += 1;
            }
            proof {
                assert(grid_row@.take(size as int) =~= grid@[x_idx as int]@);
            }
            data.push(row);
            x_idx += 1;
        }

        if data[0].len() == 0 || data[size - 1].len() == 0 {
            return None;
        }
        let top = data[0][0].position;
        let right = data[0][data[0].len() - 1].position;
        let bottom = data[size - 1][data[size - 1].len() - 1].position;
        let left = data[size - 1][0].position;
        let layers = vec![Layer { level: 0, data }];
        Some(TileMap { size, layers, playable_area: [top, right, bottom, left] })
    }

    /// Returns the reference to the layers.
    pub fn layers(&self) -> (r: &Vec<Layer>)
        ensures
            r == &self.layers,
    {
        &self.layers
    }

    /// Returns the number of layers.
    pub fn layers_len(&self) -> (r: usize)
        ensures
            r == self.layers@.len(),
    {
        self.layers.len()
    }

    /// Returns the position of a uniformly randomly chosen base-layer tile,
    /// or `None` when the randomly chosen row has no tiles.
    pub fn get_random_point(&self) -> (r: Option<Point>)
        requires
            self.layers@.len() >= 1,
            self.layers@[0].data@.len() >= 1,
        ensures
            r matches Some(p) ==> self.is_tile_position(p),
            self.complete() ==> r is Some,
    {
        let layer = &self.layers[0];
        let x = crate::rng::rand_below(layer.data.len() as u64) as usize;
        let row = &layer.data[x];
        if row.len() == 0 {
            return None;
        }
        let y = crate::rng::rand_below(row.len() as u64) as usize;
        let p = row[y].position;
        proof {
            assert(self.layers@[0].data@[x as int]@[y as int].position == p);
        }
        Some(p)
    }
}

/// Calculates the isometric screen position of the tile at a grid cell: the
/// 2:1 projection of the cell indices, centered by the sprite's excess size
/// over the nominal tile and by the map's own height, scaled by six tenths.
pub fn calculate_tile_position(x_idx: usize, y_idx: usize, sprite: &Sprite, rows: usize) -> (r:
    Point)
    requires
        x_idx < rows,
        y_idx < rows,
        rows <= MAX_MAP_SIZE,
        0 <= sprite.width <= 1_000_000,
        0 <= sprite.height <= 1_000_000,
    ensures
        r.x == spec_tile_x(x_idx as int, y_idx as int, sprite.width as int),
        r.y == spec_tile_y(x_idx as int, y_idx as int, sprite.height as int, rows as int),
        r.in_limit(),
{
    let xi = x_idx as i64;
    let yi = y_idx as i64;
    let w = sprite.width as i64;
    let h = sprite.height as i64;
    let xu: i64 = xi * 64 - yi * 64 - (w - 128) - 64;
    let yu: i64 = yi * 32 + xi * 32 - (h - 64) - (32 * (rows as i64) - 32);
    Point { x: xu * 600, y: yu * 600 }
}

/// Map generation is deterministic: the ensured placement is a pure function
/// of the grid, the atlas descriptor and the size, so two maps generated
/// from equal inputs place every tile identically.
pub proof fn lemma_generation_deterministic(
    m1: TileMap,
    m2: TileMap,
    grid: Seq<Seq<u32>>,
    meta: AtlasInfo,
    size: int,
)
    requires
        m1.layers@.len() == 1,
        m2.layers@.len() == 1,
        m1.layers@[0].data@.len() == size,
        m2.layers@[0].data@.len() == size,
        forall|x: int| 0 <= x < size ==>
            (#[trigger] m1.layers@[0].data@[x])@ == spec_tile_row(grid[x], x, 0, meta, size),
        forall|x: int| 0 <= x < size ==>
            (#[trigger] m2.layers@[0].data@[x])@ == spec_tile_row(grid[x], x, 0, meta, size),
    ensures
        forall|x: int| 0 <= x < size ==>
            (#[trigger] m1.layers@[0].data@[x])@ == (#[trigger] m2.layers@[0].data@[x])@,
{
}

} // verus!
