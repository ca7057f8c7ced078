//! The part of a frame that consults the grid: the feet, the two sides and
//! the head are probed in turn, and a hit with the head breaks a tile.

use vstd::prelude::*;
use crate::particles::is_burst;
use crate::particles::Particles;
use crate::player::Player;
use crate::stage::lemma_cleared_tile_not_solid;
use crate::stage::Grid;
use crate::stage::Stage;
use crate::units::ceil_to_tile;
use crate::units::confined;
use crate::units::floor_to_tile;
use crate::units::lemma_tile_rounding;
use crate::units::shift;
use crate::units::tile_ceil;
use crate::units::tile_floor;
use crate::units::Vec2;
use crate::units::TILE;

verus! {

/// Offset of the left foot probe from the left edge, 5.5 pixels.
pub const FOOT_L_X: i64 = 5_500_000;

/// Offset of the right foot probe from the left edge, 10.5 pixels.
pub const FOOT_R_X: i64 = 10_500_000;

/// Offset of both foot probes from the top edge, 32 pixels.
pub const FOOT_Y: i64 = 32_000_000;

/// Offset of the left side probe from the left edge, 3.5 pixels.
pub const SIDE_L_X: i64 = 3_500_000;

/// Offset of the right side probe from the left edge, 12.5 pixels.
pub const SIDE_R_X: i64 = 12_500_000;

/// Offset of both side probes from the top edge, 26 pixels.
pub const SIDE_Y: i64 = 26_000_000;

/// Offset of the head probe from the left edge, 8 pixels.
pub const HEAD_X: i64 = 8_000_000;

/// Offset of the head probe from the top edge, 16.5 pixels.
pub const HEAD_Y: i64 = 16_500_000;

impl Player {
    /// The point at an offset from the character's position.
    pub open spec fn probe_spec(self, dx: i64, dy: i64) -> Vec2 {
        Vec2 { x: (self.pos.x + dx) as i64, y: (self.pos.y + dy) as i64 }
    }

    /// Whether either foot is in a solid tile.
    pub open spec fn feet_touch(self, grid: Grid) -> bool {
        grid.solid_at(self.probe_spec(FOOT_L_X, FOOT_Y)) || grid.solid_at(
            self.probe_spec(FOOT_R_X, FOOT_Y),
        )
    }

    /// Whether the character comes to rest on the ground: a foot is in a
    /// solid tile and the character has not moved up.
    pub open spec fn lands(self, grid: Grid) -> bool {
        self.feet_touch(grid) && self.pos.y >= self.prev_pos.y
    }

    /// The character is on the ground exactly if a foot is in a solid tile.
    /// If it lands, it is set on the tile boundary at or above its position
    /// and stops moving vertically.
    pub open spec fn after_feet(self, grid: Grid) -> Player {
        if self.lands(grid) {
            Player {
                grounded: true,
                pos: Vec2 { x: self.pos.x, y: tile_floor(self.pos.y as int) as i64 },
                vel: Vec2 { x: self.vel.x, y: 0 },
                ..self
            }
        } else {
            Player { grounded: self.feet_touch(grid), ..self }
        }
    }

    /// Whether the side probe at `dx` is in a solid tile.
    pub open spec fn side_touches(self, grid: Grid, dx: i64) -> bool {
        grid.solid_at(self.probe_spec(dx, SIDE_Y))
    }

    /// The character stopped at a wall: set so that the side probe at `dx`
    /// is on the tile boundary at or right of its position, at rest
    /// horizontally, with its running time lost.
    pub open spec fn stopped_at_wall(self, dx: i64) -> Player {
        Player {
            pos: Vec2 { x: confined(tile_ceil(self.pos.x as int) - dx) as i64, y: self.pos.y },
            vel: Vec2 { x: 0, y: self.vel.y },
            running_time: 0,
            ..self
        }
    }

    /// Whether the character runs into a wall on its left: the left probe is
    /// in a solid tile and the character has moved left.
    pub open spec fn hits_left(self, grid: Grid) -> bool {
        self.side_touches(grid, SIDE_L_X) && self.pos.x < self.prev_pos.x
    }

    /// Whether the character runs into a wall on its right.
    pub open spec fn hits_right(self, grid: Grid) -> bool {
        self.side_touches(grid, SIDE_R_X) && self.pos.x > self.prev_pos.x
    }

    /// The left side is resolved first, then the right side from where the
    /// left one has put the character.
    pub open spec fn after_sides(self, grid: Grid) -> Player {
        let left = if self.hits_left(grid) {
            self.stopped_at_wall(SIDE_L_X)
        } else {
            self
        };
        if left.hits_right(grid) {
            left.stopped_at_wall(SIDE_R_X)
        } else {
            left
        }
    }

    /// Whether the character hits a tile with its head: the head probe is in
    /// a solid tile and the character has moved up.
    pub open spec fn hits_head(self, grid: Grid) -> bool {
        grid.solid_at(self.probe_spec(HEAD_X, HEAD_Y)) && self.pos.y < self.prev_pos.y
    }

    /// If the head hits, the character is set on the tile boundary at or
    /// below its position and stops moving vertically.
    pub open spec fn after_head(self, grid: Grid) -> Player {
        if self.hits_head(grid) {
            Player {
                pos: Vec2 { x: self.pos.x, y: tile_ceil(self.pos.y as int) as i64 },
                vel: Vec2 { x: self.vel.x, y: 0 },
                ..self
            }
        } else {
            self
        }
    }

    /// The point that names the tile a head hit breaks: one tile above the
    /// head probe.
    pub open spec fn break_point(self) -> Vec2 {
        self.probe_spec(HEAD_X, (HEAD_Y - TILE) as i64)
    }

    /// The top-left pixel of the tile one row above the head probe, where the
    /// fragments of a broken tile start.
    pub open spec fn burst_origin(self) -> Vec2 {
        Vec2 {
            x: tile_floor(self.pos.x + HEAD_X) as i64,
            y: (tile_floor(self.pos.y + HEAD_Y) - TILE) as i64,
        }
    }

    /// Feet, sides and head in order.
    pub open spec fn after_collision(self, grid: Grid) -> Player {
        self.after_feet(grid).after_sides(grid).after_head(grid)
    }

    /// Whether the collision pass breaks a tile.
    pub open spec fn breaks_tile(self, grid: Grid) -> bool {
        self.after_feet(grid).after_sides(grid).hits_head(grid)
    }

    /// The grid after the collision pass: with the tile at the break point
    /// emptied if the head hit, and unchanged otherwise.
    pub open spec fn grid_after_collision(self, grid: Grid) -> Grid {
        if self.breaks_tile(grid) {
            grid.with_tile(0, self.after_collision(grid).break_point())
        } else {
            grid
        }
    }

    /// The point at an offset from the character's position.
    pub fn probe(&self, dx: i64, dy: i64) -> (p: Vec2)
        requires
            i64::MIN <= self.pos.x + dx <= i64::MAX,
            i64::MIN <= self.pos.y + dy <= i64::MAX,
        ensures
            p == self.probe_spec(dx, dy),
            p.x == self.pos.x + dx,
            p.y == self.pos.y + dy,
    {
        Vec2 { x: self.pos.x + dx, y: self.pos.y + dy }
    }

    /// Resolves the feet against the grid.
    pub fn collide_feet(&mut self, stage: &Stage)
        requires
            old(self).wf(),
            stage.wf(),
        ensures
            *final(self) == old(self).after_feet(stage@),
            final(self).wf(),
            final(self).grounded == old(self).feet_touch(stage@),
            old(self).lands(stage@) ==> final(self).pos.y % TILE == 0 && final(self).vel.y == 0,
    {
        let feet_colliding: bool = stage.tile_solid_pos(self.probe(FOOT_L_X, FOOT_Y))
            || stage.tile_solid_pos(self.probe(FOOT_R_X, FOOT_Y));
        if feet_colliding && self.pos.y >= self.prev_pos.y {
            self.pos.y = floor_to_tile(self.pos.y);
            self.vel.y = 0;
        }
        self.grounded = feet_colliding;
    }

    /// Resolves the two sides against the grid, the left one first.
    pub fn collide_sides(&mut self, stage: &Stage)
        requires
            old(self).wf(),
            stage.wf(),
        ensures
            *final(self) == old(self).after_sides(stage@),
            final(self).wf(),
            final(self).pos.y == old(self).pos.y,
            final(self).vel.y == old(self).vel.y,
    {
        if stage.tile_solid_pos(self.probe(SIDE_L_X, SIDE_Y)) && self.pos.x < self.prev_pos.x {
            self.pos.x = shift(ceil_to_tile(self.pos.x), -SIDE_L_X);
            self.vel.x = 0;
            self.running_time = 0;
        }
        if stage.tile_solid_pos(self.probe(SIDE_R_X, SIDE_Y)) && self.pos.x > self.prev_pos.x {
            self.pos.x = shift(ceil_to_tile(self.pos.x), -SIDE_R_X);
            self.vel.x = 0;
            self.running_time = 0;
        }
    }

    /// Resolves the head against the grid. A hit empties the tile one row
    /// above the head and throws its four fragments. Returns whether the head
    /// hit.
    pub fn collide_head(&mut self, stage: &mut Stage, particles: &mut Particles) -> (hit: bool)
        requires
            old(self).wf(),
            old(stage).wf(),
            old(particles).wf(),
        ensures
            *final(self) == old(self).after_head(old(stage)@),
            final(self).wf(),
            final(stage).wf(),
            final(particles).wf(),
            hit == old(self).hits_head(old(stage)@),
            hit ==> final(self).pos.y % TILE == 0 && final(self).vel.y == 0,
            hit ==> final(stage)@ == old(stage)@.with_tile(0, final(self).break_point()),
            hit ==> !final(stage)@.solid_at(final(self).break_point()),
            hit ==> is_burst(final(particles)@, old(particles)@, final(self).burst_origin()),
            hit ==> final(particles)@.len() == old(particles)@.len() + 4,
            !hit ==> final(stage)@ == old(stage)@ && final(particles)@ == old(particles)@,
    {
        if stage.tile_solid_pos(self.probe(HEAD_X, HEAD_Y)) && self.pos.y < self.prev_pos.y {
            self.pos.y = ceil_to_tile(self.pos.y);
            self.vel.y = 0;
            let head: Vec2 = self.probe(HEAD_X, HEAD_Y);
            let origin: Vec2 = Vec2 { x: floor_to_tile(head.x), y: floor_to_tile(head.y) - TILE };
            particles.break_tile(origin);
            proof {
                lemma_cleared_tile_not_solid(stage@, self.break_point());
            }
            stage.set_tile_pos(0, self.probe(HEAD_X, HEAD_Y - TILE));
            true
        } else {
            false
        }
    }

    /// Resolves feet, sides and head in order. Returns whether a tile was
    /// broken.
    pub fn collide(&mut self, stage: &mut Stage, particles: &mut Particles) -> (broke: bool)
        requires
            old(self).wf(),
            old(stage).wf(),
            old(particles).wf(),
        ensures
            *final(self) == old(self).after_collision(old(stage)@),
            final(self).wf(),
            final(stage).wf(),
            final(particles).wf(),
            broke == old(self).breaks_tile(old(stage)@),
            final(stage)@ == old(self).grid_after_collision(old(stage)@),
            broke ==> is_burst(final(particles)@, old(particles)@, final(self).burst_origin()),
            !broke ==> final(particles)@ == old(particles)@,
    {
        self.collide_feet(stage);
        self.collide_sides(stage);
        self.collide_head(stage, particles)
    }
}

/// A character that lands is on the ground, on a tile boundary and at rest
/// vertically when the whole collision pass is over.
pub proof fn lemma_landing_survives_collision(p: Player, grid: Grid)
    requires
        p.wf(),
        p.lands(grid),
    ensures
        p.after_collision(grid).grounded,
        p.after_collision(grid).pos.y % TILE == 0,
        p.after_collision(grid).vel.y == 0,
{
    lemma_tile_rounding(p.pos.y as int);
    let q = p.after_feet(grid).after_sides(grid);
    assert(q.pos.y == tile_floor(p.pos.y as int));
    lemma_tile_rounding(q.pos.y as int);
}

/// The collision pass keeps a well-formed character well formed and leaves
/// its constants alone.
pub proof fn lemma_collision_keeps_wf(p: Player, grid: Grid)
    requires
        p.wf(),
    ensures
        p.after_collision(grid).wf(),
        p.after_collision(grid).tuning == p.tuning,
        p.after_collision(grid).running_time == p.running_time || p.after_collision(
            grid,
        ).running_time == 0,
{
    lemma_tile_rounding(p.pos.y as int);
    lemma_tile_rounding(p.pos.x as int);
    let a = p.after_feet(grid);
    let left = if a.hits_left(grid) {
        a.stopped_at_wall(SIDE_L_X)
    } else {
        a
    };
    lemma_tile_rounding(left.pos.x as int);
    let b = a.after_sides(grid);
    lemma_tile_rounding(b.pos.y as int);
}

/// Rounding a coordinate up reaches the far edge of the tile that a point
/// `reach` further on lies in, if the coordinate is past the near edge of
/// that tile; and reaches the near edge if the coordinate is not past it.
proof fn lemma_ceil_meets_edge(x: int, reach: int)
    requires
        0 <= reach < 16_000_000,
    ensures
        x > tile_floor(x + reach) ==> tile_ceil(x) == tile_floor(x + reach) + 16_000_000,
        x <= tile_floor(x + reach) ==> tile_ceil(x) == tile_floor(x + reach),
{
    let up = -((-x) / 16_000_000);
    let down = (x + reach) / 16_000_000;
    assert(tile_ceil(x) == up * 16_000_000);
    assert(tile_floor(x + reach) == down * 16_000_000);
    assert(up * 16_000_000 - 16_000_000 < x <= up * 16_000_000);
    assert(down * 16_000_000 <= x + reach < down * 16_000_000 + 16_000_000);
    if x > down * 16_000_000 {
        assert(up == down + 1);
    } else {
        assert(up == down);
    }
}

/// Where a wall stops the character: with the probe on the tile boundary at
/// or right of the character's position. On the left that is the right edge
/// of the probe's tile, just outside it, unless the probe is within its own
/// offset of the tile's left edge. On the right it is the left edge of the
/// probe's tile, unless the character's position itself is inside that tile.
pub proof fn lemma_wall_stop_puts_probe_on_edge(p: Player)
    requires
        p.pos.in_world(),
        -crate::units::WORLD_LIMIT + TILE <= p.pos.x,
    ensures
        p.stopped_at_wall(SIDE_L_X).pos.x + SIDE_L_X == tile_ceil(p.pos.x as int),
        p.stopped_at_wall(SIDE_R_X).pos.x + SIDE_R_X == tile_ceil(p.pos.x as int),
        p.pos.x > tile_floor(p.pos.x + SIDE_L_X) ==> p.stopped_at_wall(SIDE_L_X).pos.x + SIDE_L_X
            == tile_floor(p.pos.x + SIDE_L_X) + TILE,
        p.pos.x <= tile_floor(p.pos.x + SIDE_R_X) ==> p.stopped_at_wall(SIDE_R_X).pos.x + SIDE_R_X
            == tile_floor(p.pos.x + SIDE_R_X),
{
    let x = p.pos.x as int;
    lemma_tile_rounding(x);
    assert(p.stopped_at_wall(SIDE_L_X).pos.x == tile_ceil(x) - SIDE_L_X);
    assert(p.stopped_at_wall(SIDE_R_X).pos.x == tile_ceil(x) - SIDE_R_X);
    lemma_ceil_meets_edge(x, SIDE_L_X as int);
    lemma_ceil_meets_edge(x, SIDE_R_X as int);
}

/// A head hit leaves the break point empty, whatever the grid held.
pub proof fn lemma_head_hit_clears_tile(p: Player, grid: Grid)
    requires
        p.wf(),
        p.breaks_tile(grid),
    ensures
        !p.grid_after_collision(grid).solid_at(p.after_collision(grid).break_point()),
        p.after_collision(grid).pos.y % TILE == 0,
        p.after_collision(grid).vel.y == 0,
{
    lemma_cleared_tile_not_solid(grid, p.after_collision(grid).break_point());
    let q = p.after_feet(grid).after_sides(grid);
    lemma_tile_rounding(q.pos.y as int);
}

} // verus!
