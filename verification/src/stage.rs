//! The tile grid: which tiles are solid, and how a tile is replaced.

use vstd::prelude::*;
use vstd::arithmetic::div_mod::lemma_fundamental_div_mod;
use crate::units::Vec2;
use crate::units::TILE;

verus! {

/// The mathematical content of a [`Stage`]: tile ids in row-major order and
/// the number of tiles in a row. Id `0` is empty; every other id is solid.
pub struct Grid {
    pub tiles: Seq<u8>,
    pub width: nat,
}

impl Grid {
    /// Number of complete rows.
    pub open spec fn rows(self) -> int {
        self.tiles.len() as int / self.width as int
    }

    /// The index of the tile under a point, if the point is inside the band
    /// that the grid answers for: not left of or above the origin, not at or
    /// beyond the right edge, and at most one tile below the last complete
    /// row. The index may lie past the end of the tiles.
    pub open spec fn index_of(self, p: Vec2) -> Option<int> {
        if p.x < 0 || p.x as int / 16_000_000 >= self.width || p.y < 0 || p.y > (self.rows() + 1)
            * 16_000_000 {
            None
        } else {
            Some((p.y as int / 16_000_000) * self.width + p.x as int / 16_000_000)
        }
    }

    /// Whether the point lies in a solid tile.
    pub open spec fn solid_at(self, p: Vec2) -> bool {
        match self.index_of(p) {
            Some(i) => 0 <= i < self.tiles.len() && self.tiles[i] != 0,
            None => false,
        }
    }

    /// The grid with the tile under the point replaced by `id`; the same grid
    /// if no tile lies under the point.
    pub open spec fn with_tile(self, id: u8, p: Vec2) -> Grid {
        match self.index_of(p) {
            Some(i) => if 0 <= i < self.tiles.len() {
                Grid { tiles: self.tiles.update(i, id), width: self.width }
            } else {
                self
            },
            None => self,
        }
    }

    /// Whether every index that [`Grid::index_of`] can give fits a machine
    /// word.
    pub open spec fn addressable(self) -> bool {
        self.tiles.len() + 2 * self.width <= usize::MAX
    }
}

/// Every index that the grid gives is non-negative and below the number of
/// tiles plus two rows.
pub proof fn lemma_index_bounds(g: Grid, p: Vec2)
    requires
        g.index_of(p) is Some,
    ensures
        g.width > 0,
        0 <= p.x as int / 16_000_000 < g.width,
        0 <= p.y as int / 16_000_000 <= g.rows() + 1,
        0 <= g.rows() * g.width <= g.tiles.len(),
        0 <= g.index_of(p)->0 < g.tiles.len() + 2 * g.width,
{
    let w = g.width as int;
    let len = g.tiles.len() as int;
    let tx = p.x as int / 16_000_000;
    let ty = p.y as int / 16_000_000;
    let rows = g.rows();
    lemma_fundamental_div_mod(len, w);
    assert(0 <= rows && rows * w <= len) by (nonlinear_arith)
        requires
            len == w * rows + len % w,
            0 <= len % w < w,
            0 <= len,
    ;
    assert(ty * w <= (rows + 1) * w && (rows + 1) * w == rows * w + w && 0 <= ty * w)
        by (nonlinear_arith)
        requires
            0 <= ty <= rows + 1,
            0 < w,
    ;
}

/// A point left of or above the origin is never solid.
pub proof fn lemma_negative_point_not_solid(g: Grid, p: Vec2)
    requires
        p.x < 0 || p.y < 0,
    ensures
        g.index_of(p) is None,
        !g.solid_at(p),
        g.with_tile(0, p) == g,
{
}

/// Replacing a tile keeps the shape of the grid and changes at most the tile
/// under the point.
pub proof fn lemma_with_tile_shape(g: Grid, id: u8, p: Vec2)
    ensures
        g.with_tile(id, p).width == g.width,
        g.with_tile(id, p).tiles.len() == g.tiles.len(),
        forall|q: Vec2| g.with_tile(id, p).index_of(q) == g.index_of(q),
        forall|i: int|
            0 <= i < g.tiles.len() && g.index_of(p) != Some(i) ==> g.with_tile(id, p).tiles[i]
                == g.tiles[i],
        g.addressable() ==> g.with_tile(id, p).addressable(),
{
}

/// After a tile is emptied, the point that named it is not solid.
pub proof fn lemma_cleared_tile_not_solid(g: Grid, p: Vec2)
    ensures
        !g.with_tile(0, p).solid_at(p),
{
    lemma_with_tile_shape(g, 0, p);
}

/// A level: a flat sequence of tile ids and the number of tiles in a row.
pub struct Stage {
    tiles: Vec<u8>,
    width: usize,
}

impl View for Stage {
    type V = Grid;

    closed spec fn view(&self) -> Grid {
        Grid { tiles: self.tiles@, width: self.width as nat }
    }
}

impl Stage {
    /// Whether tile indices can be computed without overflow.
    pub open spec fn wf(&self) -> bool {
        self@.addressable()
    }

    pub fn new(tiles: Vec<u8>, width: usize) -> (stage: Stage)
        requires
            tiles.len() + 2 * width <= usize::MAX,
        ensures
            stage@.tiles == tiles@,
            stage@.width == width,
            stage.wf(),
    {
        Stage { tiles, width }
    }

    pub fn tiles(&self) -> (tiles: &Vec<u8>)
        ensures
            tiles@ == self@.tiles,
    {
        &self.tiles
    }

    pub fn width(&self) -> (width: usize)
        ensures
            width == self@.width,
    {
        self.width
    }

    /// Whether the tile under a point is solid. Points outside the grid are
    /// not solid.
    pub fn tile_solid_pos(&self, pos: Vec2) -> (solid: bool)
        requires
            self.wf(),
        ensures
            solid == self@.solid_at(pos),
    {
        match self.pos_to_index(pos) {
            Some(i) => i < self.tiles.len() && self.tiles[i] != 0,
            None => false,
        }
    }

    /// Replaces the tile under a point. Does nothing if no tile lies under it.
    pub fn set_tile_pos(&mut self, tile: u8, pos: Vec2)
        requires
            old(self).wf(),
        ensures
            final(self)@ == old(self)@.with_tile(tile, pos),
            final(self).wf(),
    {
        match self.pos_to_index(pos) {
            Some(i) => {
                if i < self.tiles.len() {
                    self.tiles.set(i, tile);
                }
            },
            None => {},
        }
    }

    /// The index of the tile under a point, or `None` outside the band that
    /// the grid answers for.
    pub fn pos_to_index(&self, pos: Vec2) -> (index: Option<usize>)
        requires
            self.wf(),
        ensures
            match index {
                Some(i) => self@.index_of(pos) == Some(i as int),
                None => self@.index_of(pos) is None,
            },
    {
        if pos.x < 0 || pos.y < 0 {
            return None;
        }
        let tx: i64 = pos.x / TILE;
        if tx as u128 >= self.width as u128 {
            return None;
        }
        let rows: usize = self.tiles.len() / self.width;
        proof {
            let w = self.width as int;
            let len = self.tiles.len() as int;
            lemma_fundamental_div_mod(len, w);
            assert(rows <= len) by (nonlinear_arith)
                requires
                    len == w * rows + len % w,
                    0 <= len % w < w,
                    0 <= rows,
            ;
        }
        if pos.y as u128 > (rows as u128 + 1) * 16_000_000 {
            return None;
        }
        let ty: i64 = pos.y / TILE;
        proof {
            lemma_index_bounds(self@, pos);
            assert(ty as int * self.width as int >= 0) by (nonlinear_arith)
                requires
                    ty >= 0,
                    self.width >= 0,
            ;
        }
        Some(ty as usize * self.width + tx as usize)
    }
}

} // verus!
