//! The tile grid and the assembly of its tiles into one mosaic.

use vstd::prelude::*;
use vstd::arithmetic::div_mod::lemma_fundamental_div_mod;
use vstd::arithmetic::div_mod::lemma_fundamental_div_mod_converse;
use crate::raster::Mosaic;
use crate::raster::TileImage;

verus! {

/// The order in which a provider numbers the tiles of its grid.
#[derive(Clone, Copy, Debug, PartialEq, Eq, Structural)]
pub enum CoordinateOrder {
    /// Row after row: the tile at column `x`, row `y` has index `x + y * d`.
    RowMajor,
    /// Column after column: the tile at column `x`, row `y` has index `y + x * d`.
    ColumnMajor,
}

/// The place of a tile in the grid: column `x`, row `y`.
#[derive(Clone, Copy, Debug, PartialEq, Eq, Structural)]
pub struct TileCoordinate {
    pub x: u32,
    pub y: u32,
}

impl CoordinateOrder {
    /// The column of the tile with the given index in a grid of `d` by `d` tiles.
    pub open spec fn column_of(self, index: int, d: int) -> int {
        match self {
            CoordinateOrder::RowMajor => index % d,
            CoordinateOrder::ColumnMajor => index / d,
        }
    }

    /// The row of the tile with the given index in a grid of `d` by `d` tiles.
    pub open spec fn row_of(self, index: int, d: int) -> int {
        match self {
            CoordinateOrder::RowMajor => index / d,
            CoordinateOrder::ColumnMajor => index % d,
        }
    }

    /// The index of the tile at column `x`, row `y` in a grid of `d` by `d` tiles.
    pub open spec fn index_of(self, x: int, y: int, d: int) -> int {
        match self {
            CoordinateOrder::RowMajor => x + y * d,
            CoordinateOrder::ColumnMajor => y + x * d,
        }
    }

    /// The place of the tile with the given index; `None` where the grid has
    /// no tile of that index.
    pub fn position(self, index: u64, d: u32) -> (r: Option<TileCoordinate>)
        ensures
            r is Some <==> index < d * d,
            r matches Some(at) ==> {
                &&& at.x == self.column_of(index as int, d as int)
                &&& at.y == self.row_of(index as int, d as int)
                &&& at.x < d
                &&& at.y < d
            },
    {
        if d == 0 {
            return None;
        }
        let major: u64 = index / (d as u64);
        let minor: u64 = index % (d as u64);
        proof {
            lemma_fundamental_div_mod(index as int, d as int);
            assert(major < d <==> index < d * d) by (nonlinear_arith)
                requires
                    index == d * major + minor,
                    0 <= minor < d,
                    0 <= major,
            ;
        }
        if major >= d as u64 {
            return None;
        }
        match self {
            CoordinateOrder::RowMajor => Some(TileCoordinate { x: minor as u32, y: major as u32 }),
            CoordinateOrder::ColumnMajor => Some(
                TileCoordinate { x: major as u32, y: minor as u32 },
            ),
        }
    }

    /// The index of the tile at the given place; `None` where the place is
    /// outside the grid.
    pub fn index(self, at: TileCoordinate, d: u32) -> (r: Option<u64>)
        ensures
            r is Some <==> at.x < d && at.y < d,
            r matches Some(i) ==> {
                &&& i == self.index_of(at.x as int, at.y as int, d as int)
                &&& i < d * d
                &&& self.column_of(i as int, d as int) == at.x
                &&& self.row_of(i as int, d as int) == at.y
            },
    {
        if at.x < d && at.y < d {
            let (minor, major) = match self {
                CoordinateOrder::RowMajor => (at.x, at.y),
                CoordinateOrder::ColumnMajor => (at.y, at.x),
            };
            proof {
                lemma_index_splits(minor as int, major as int, d as int);
                assert(d * d <= 0xffff_ffff * 0xffff_ffff) by (nonlinear_arith)
                    requires
                        0 <= d <= 0xffff_ffff,
                ;
                assert(0 <= major * d) by (nonlinear_arith)
                    requires
                        0 <= major,
                        0 <= d,
                ;
            }
            Some((minor as u64) + (major as u64) * (d as u64))
        } else {
            None
        }
    }
}

/// An index made of a place in a line and the number of the line gives both back.
pub proof fn lemma_index_splits(minor: int, major: int, d: int)
    requires
        0 <= minor < d,
        0 <= major < d,
    ensures
        0 <= minor + major * d < d * d,
        (minor + major * d) / d == major,
        (minor + major * d) % d == minor,
{
    assert(0 <= major * d && major * d + d <= d * d) by (nonlinear_arith)
        requires
            0 <= major < d,
    ;
    assert(major * d == d * major) by (nonlinear_arith);
    lemma_fundamental_div_mod_converse(minor + major * d, d, major, minor);
}

/// What a mosaic of a grid of `d` by `d` tiles holds: it is `d` tiles wide
/// and high, and each pixel of each tile stands at the tile's place in the
/// grid, at the pixel's place in the tile.
pub open spec fn is_mosaic_of(
    mosaic: &Mosaic,
    tiles: Seq<TileImage>,
    d: int,
    order: CoordinateOrder,
) -> bool {
    &&& d >= 1
    &&& tiles.len() == d * d
    &&& mosaic.wf()
    &&& mosaic.spec_width() == tiles[0].spec_width() * d
    &&& mosaic.spec_height() == tiles[0].spec_height() * d
    &&& forall|k: int, x: int, y: int, c: int|
        0 <= k < tiles.len() && #[trigger] tiles[k].holds(x, y, c) ==> mosaic.sample(
            order.column_of(k, d) * tiles[0].spec_width() + x,
            order.row_of(k, d) * tiles[0].spec_height() + y,
            c,
        ) == tiles[k].sample(x, y, c)
}

/// Whether the tiles can be assembled: there are `d * d` of them, `d` is at
/// least one, all have the size of the first, and the mosaic's width, height
/// and buffer fit the machine's integers.
pub open spec fn can_assemble(tiles: Seq<TileImage>, d: int) -> bool {
    &&& d >= 1
    &&& tiles.len() == d * d
    &&& forall|k: int|
        0 <= k < tiles.len() ==> (#[trigger] tiles[k]).spec_width() == tiles[0].spec_width()
            && tiles[k].spec_height() == tiles[0].spec_height()
    &&& tiles[0].spec_width() * d <= u32::MAX
    &&& tiles[0].spec_height() * d <= u32::MAX
    &&& (tiles[0].spec_width() * d) * (tiles[0].spec_height() * d) * 4 <= usize::MAX
}

/// The tiles of a grid cannot be assembled: their number or their sizes do
/// not match the grid, or the mosaic would not fit the machine's integers.
#[derive(Clone, Copy, Debug, PartialEq, Eq, Structural)]
pub struct AssemblyError;

/// A pixel of one tile, at its place in the mosaic, lies inside the mosaic
/// and outside the place of any other tile.
pub proof fn lemma_tiles_apart(
    order: CoordinateOrder,
    j: int,
    k: int,
    d: int,
    tw: int,
    th: int,
    x: int,
    y: int,
)
    requires
        d >= 1,
        0 <= j < d * d,
        0 <= k < d * d,
        0 <= x < tw,
        0 <= y < th,
    ensures
        ({
            let px = order.column_of(j, d) * tw + x;
            let py = order.row_of(j, d) * th + y;
            let left = order.column_of(k, d) * tw;
            let top = order.row_of(k, d) * th;
            &&& 0 <= order.column_of(j, d) < d
            &&& 0 <= order.row_of(j, d) < d
            &&& 0 <= px < tw * d
            &&& 0 <= py < th * d
            &&& 0 <= left
            &&& left + tw <= tw * d
            &&& 0 <= top
            &&& top + th <= th * d
            &&& j != k ==> !(left <= px < left + tw && top <= py < top + th)
        }),
{
    lemma_fundamental_div_mod(j, d);
    lemma_fundamental_div_mod(k, d);
    let (jq, jr, kq, kr) = (j / d, j % d, k / d, k % d);
    assert(0 <= jq < d && 0 <= kq < d) by (nonlinear_arith)
        requires
            j == d * jq + jr,
            k == d * kq + kr,
            0 <= jr < d,
            0 <= kr < d,
            0 <= j < d * d,
            0 <= k < d * d,
    ;
    let (cj, rj, ck, rk) = (
        order.column_of(j, d),
        order.row_of(j, d),
        order.column_of(k, d),
        order.row_of(k, d),
    );
    assert(j != k ==> cj != ck || rj != rk);
    lemma_cell_bounds(cj, d, tw);
    lemma_cell_bounds(ck, d, tw);
    lemma_cell_bounds(rj, d, th);
    lemma_cell_bounds(rk, d, th);
    lemma_cells_apart(cj, ck, tw);
    lemma_cells_apart(ck, cj, tw);
    lemma_cells_apart(rj, rk, th);
    lemma_cells_apart(rk, rj, th);
}

/// The cell of number `a` among `d` cells of `size` pixels lies inside them.
proof fn lemma_cell_bounds(a: int, d: int, size: int)
    by (nonlinear_arith)
    requires
        0 <= a < d,
        0 <= size,
    ensures
        0 <= a * size,
        a * size + size <= size * d,
{
}

/// A cell of a smaller number ends before one of a greater number begins.
proof fn lemma_cells_apart(a: int, b: int, size: int)
    by (nonlinear_arith)
    requires
        0 <= size,
    ensures
        a < b ==> a * size + size <= b * size,
{
}

/// Stitches the tiles of a grid of `d` by `d` tiles, given in the order of
/// their indices, into one mosaic. A tile's place follows from its index by
/// the provider's order.
pub fn assemble(tiles: &Vec<TileImage>, d: u32, order: CoordinateOrder) -> (r: Result<
    Mosaic,
    AssemblyError,
>)
    requires
        forall|k: int| 0 <= k < tiles@.len() ==> (#[trigger] tiles@[k]).wf(),
    ensures
        r is Ok <==> can_assemble(tiles@, d as int),
        r matches Ok(mosaic) ==> is_mosaic_of(&mosaic, tiles@, d as int, order),
{
    if d == 0 {
        return Err(AssemblyError);
    }
    assert(1 <= d * d <= 0xffff_ffff * 0xffff_ffff) by (nonlinear_arith)
        requires
            1 <= d <= 0xffff_ffff,
    ;
    let count: u64 = (d as u64) * (d as u64);
    if tiles.len() as u64 != count {
        return Err(AssemblyError);
    }
    let tw: u32 = tiles[0].width();
    let th: u32 = tiles[0].height();
    let mut k: usize = 0;
    while k < tiles.len()
        invariant
            k <= tiles.len(),
            tiles.len() >= 1,
            tw == tiles@[0].spec_width(),
            th == tiles@[0].spec_height(),
            forall|j: int|
                0 <= j < k ==> (#[trigger] tiles@[j]).spec_width() == tw && tiles@[j].spec_height()
                    == th,
        decreases tiles.len() - k,
    {
        if tiles[k].width() != tw || tiles[k].height() != th {
            return Err(AssemblyError);
        }
        k = k + 1;
    }
    assert(tw * d <= 0xffff_ffff * 0xffff_ffff && th * d <= 0xffff_ffff * 0xffff_ffff)
        by (nonlinear_arith)
        requires
            0 <= tw <= 0xffff_ffff,
            0 <= th <= 0xffff_ffff,
            0 <= d <= 0xffff_ffff,
    ;
    let wide: u64 = (tw as u64) * (d as u64);
    let high: u64 = (th as u64) * (d as u64);
    if wide > u32::MAX as u64 || high > u32::MAX as u64 {
        return Err(AssemblyError);
    }
    let mut mosaic = match Mosaic::new(wide as u32, high as u32) {
        Some(m) => m,
        None => {
            return Err(AssemblyError);
        },
    };
    let mut k: usize = 0;
    while k < tiles.len()
        invariant
            k <= tiles.len(),
            d >= 1,
            tiles.len() == d * d,
            tw == tiles@[0].spec_width(),
            th == tiles@[0].spec_height(),
            forall|j: int| 0 <= j < tiles@.len() ==> (#[trigger] tiles@[j]).wf(),
            forall|j: int|
                0 <= j < tiles@.len() ==> (#[trigger] tiles@[j]).spec_width() == tw
                    && tiles@[j].spec_height() == th,
            mosaic.wf(),
            mosaic.spec_width() == tw * d,
            mosaic.spec_height() == th * d,
            forall|j: int, x: int, y: int, c: int|
                0 <= j < k && #[trigger] tiles@[j].holds(x, y, c) ==> mosaic.sample(
                    order.column_of(j, d as int) * tw + x,
                    order.row_of(j, d as int) * th + y,
                    c,
                ) == tiles@[j].sample(x, y, c),
        decreases tiles.len() - k,
    {
        let at = match order.position(k as u64, d) {
            Some(at) => at,
            None => {
                return Err(AssemblyError);
            },
        };
        let ghost before = mosaic;
        proof {
            if tw > 0 && th > 0 {
                lemma_tiles_apart(order, k as int, k as int, d as int, tw as int, th as int, 0, 0);
            } else {
                lemma_cell_bounds(at.x as int, d as int, tw as int);
                lemma_cell_bounds(at.y as int, d as int, th as int);
            }
            assert(tw * d == mosaic.spec_width() && th * d == mosaic.spec_height());
            assert(at.x * tw + tw <= tw * d);
            assert(at.y * th + th <= th * d);
        }
        let left: u32 = at.x * tw;
        let top: u32 = at.y * th;
        let done = mosaic.paste(&tiles[k], left, top, th);
        assert(done);
        assert forall|j: int, x: int, y: int, c: int|
            0 <= j < k + 1 && #[trigger] tiles@[j].holds(x, y, c) implies mosaic.sample(
            order.column_of(j, d as int) * tw + x,
            order.row_of(j, d as int) * th + y,
            c,
        ) == tiles@[j].sample(x, y, c) by {
            lemma_tiles_apart(order, j, k as int, d as int, tw as int, th as int, x, y);
            let px = order.column_of(j, d as int) * tw + x;
            let py = order.row_of(j, d as int) * th + y;
            assert(mosaic.holds(px, py, c));
        }
        k = k + 1;
    }
    Ok(mosaic)
}

/// The top-left pixel of every tile is the pixel of the mosaic at the
/// tile's place in the grid, and the mosaic is `d` tiles wide and high.
pub proof fn lemma_mosaic_keeps_corners(
    mosaic: &Mosaic,
    tiles: Seq<TileImage>,
    d: int,
    order: CoordinateOrder,
    k: int,
    c: int,
)
    requires
        is_mosaic_of(mosaic, tiles, d, order),
        0 <= k < tiles.len(),
        0 <= c < 4,
        tiles[k].spec_width() > 0,
        tiles[k].spec_height() > 0,
    ensures
        mosaic.spec_width() == tiles[0].spec_width() * d,
        mosaic.spec_height() == tiles[0].spec_height() * d,
        mosaic.sample(
            order.column_of(k, d) * tiles[0].spec_width(),
            order.row_of(k, d) * tiles[0].spec_height(),
            c,
        ) == tiles[k].sample(0, 0, c),
{
    assert(tiles[k].holds(0, 0, c));
}

} // verus!
