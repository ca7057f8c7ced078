//! Debris particles: four fragments fly off a broken tile and fall.

use vstd::prelude::*;
use crate::units::confined;
use crate::units::scale;
use crate::units::scaled;
use crate::units::shift;
use crate::units::Rect;
use crate::units::Vec2;
use crate::units::PIXEL;

verus! {

/// Downward acceleration of every particle, 1100 pixels per second squared.
pub const GRAVITY: i64 = 1_100_000_000;

/// Fastest downward speed of a particle, 500 pixels per second.
pub const MAX_FALL_SPEED: i64 = 500_000_000;

/// Edge length of one fragment on the particle sheet, 11 pixels.
pub const FRAGMENT_SIZE: i64 = 11_000_000;

/// Slowest and fastest sideways launch speed of the two upper fragments.
pub const TOP_SPEED_X: (i64, i64) = (90_000_000, 130_000_000);

/// Slowest and fastest upward launch speed of the two upper fragments.
pub const TOP_SPEED_Y: (i64, i64) = (150_000_000, 180_000_000);

/// Slowest and fastest sideways launch speed of the two lower fragments.
pub const BOTTOM_SPEED_X: (i64, i64) = (60_000_000, 80_000_000);

/// Slowest and fastest upward launch speed of the two lower fragments.
pub const BOTTOM_SPEED_Y: (i64, i64) = (100_000_000, 150_000_000);

/// What a particle is. A fragment of a broken tile carries the corner of the
/// tile it came from: 0 top-left, 1 top-right, 2 bottom-left, 3 bottom-right.
#[derive(Clone, Copy, PartialEq, Eq, Structural, Debug)]
pub enum ParticleKind {
    BrokenTile { corner: usize },
}

#[derive(Clone, Copy, PartialEq, Eq, Structural, Debug)]
pub struct Particle {
    pub pos: Vec2,
    pub vel: Vec2,
    pub kind: ParticleKind,
}

/// Where the fragment of a corner starts, relative to the top-left pixel of
/// the tile.
pub open spec fn corner_offset(corner: int) -> Vec2 {
    Vec2 {
        x: if corner % 2 == 0 {
            (-PIXEL) as i64
        } else {
            (6 * PIXEL) as i64
        },
        y: if corner / 2 == 0 {
            (-PIXEL) as i64
        } else {
            (6 * PIXEL) as i64
        },
    }
}

/// The sideways launch speeds allowed for a corner.
pub open spec fn speed_x_range(corner: int) -> (i64, i64) {
    if corner / 2 == 0 {
        TOP_SPEED_X
    } else {
        BOTTOM_SPEED_X
    }
}

/// The upward launch speeds allowed for a corner.
pub open spec fn speed_y_range(corner: int) -> (i64, i64) {
    if corner / 2 == 0 {
        TOP_SPEED_Y
    } else {
        BOTTOM_SPEED_Y
    }
}

/// The fragment that leaves `corner` of the tile at `origin` with the given
/// speeds: sideways away from the tile's centre, and upward.
pub open spec fn launched(corner: int, origin: Vec2, speed_x: i64, speed_y: i64) -> Particle {
    Particle {
        pos: Vec2 {
            x: confined(origin.x + corner_offset(corner).x) as i64,
            y: confined(origin.y + corner_offset(corner).y) as i64,
        },
        vel: Vec2 {
            x: if corner % 2 == 0 {
                (-speed_x) as i64
            } else {
                speed_x
            },
            y: (-speed_y) as i64,
        },
        kind: ParticleKind::BrokenTile { corner: corner as usize },
    }
}

/// Whether `p` is a fragment freshly launched from `corner` of the tile at
/// `origin`, with speeds inside the ranges for that corner.
pub open spec fn is_fragment(p: Particle, corner: int, origin: Vec2) -> bool {
    exists|speed_x: i64, speed_y: i64|
        {
            &&& speed_x_range(corner).0 <= speed_x <= speed_x_range(corner).1
            &&& speed_y_range(corner).0 <= speed_y <= speed_y_range(corner).1
            &&& p == #[trigger] launched(corner, origin, speed_x, speed_y)
        }
}

/// Whether `after` is `before` followed by the four fragments of the tile at
/// `origin`, in corner order.
pub open spec fn is_burst(after: Seq<Particle>, before: Seq<Particle>, origin: Vec2) -> bool {
    &&& after.len() == before.len() + 4
    &&& after.subrange(0, before.len() as int) == before
    &&& forall|corner: int|
        0 <= corner < 4 ==> is_fragment(#[trigger] after[before.len() + corner], corner, origin)
}

impl Particle {
    /// Whether position, velocity and corner are within their limits.
    pub open spec fn wf(self) -> bool {
        &&& self.pos.in_world()
        &&& self.vel.is_velocity()
        &&& self.kind matches ParticleKind::BrokenTile { corner } && corner < 4
    }

    /// The particle after `delta` microseconds: moved by its velocity, then
    /// accelerated downward up to the fastest fall.
    pub open spec fn advanced(self, delta: u32) -> Particle {
        let fall = self.vel.y + scaled(GRAVITY as int, delta as int);
        Particle {
            pos: Vec2 {
                x: confined(self.pos.x + scaled(self.vel.x as int, delta as int)) as i64,
                y: confined(self.pos.y + scaled(self.vel.y as int, delta as int)) as i64,
            },
            vel: Vec2 {
                x: self.vel.x,
                y: if fall < MAX_FALL_SPEED {
                    fall as i64
                } else {
                    MAX_FALL_SPEED
                },
            },
            kind: self.kind,
        }
    }

    /// The fragment that leaves `corner` of the tile whose top-left pixel is
    /// `origin`.
    pub fn fragment(corner: usize, origin: Vec2, speed_x: i64, speed_y: i64) -> (p: Particle)
        requires
            corner < 4,
            0 <= speed_x <= i64::MAX,
            0 <= speed_y <= i64::MAX,
        ensures
            p == launched(corner as int, origin, speed_x, speed_y),
    {
        let dx: i64 = if corner % 2 == 0 {
            -PIXEL
        } else {
            6 * PIXEL
        };
        let dy: i64 = if corner / 2 == 0 {
            -PIXEL
        } else {
            6 * PIXEL
        };
        Particle {
            pos: Vec2 { x: shift(origin.x, dx), y: shift(origin.y, dy) },
            vel: Vec2 {
                x: if corner % 2 == 0 {
                    -speed_x
                } else {
                    speed_x
                },
                y: -speed_y,
            },
            kind: ParticleKind::BrokenTile { corner },
        }
    }

    /// Advances the particle by `delta` microseconds.
    pub fn update(&mut self, delta: u32)
        requires
            old(self).wf(),
        ensures
            *final(self) == old(self).advanced(delta),
            final(self).wf(),
    {
        match self.kind {
            ParticleKind::BrokenTile { corner: _ } => {
                proof {
                    crate::units::lemma_scaled_bound(
                        self.vel.x as int,
                        delta as int,
                        crate::units::SPEED_LIMIT as int,
                    );
                    crate::units::lemma_scaled_bound(
                        self.vel.y as int,
                        delta as int,
                        crate::units::SPEED_LIMIT as int,
                    );
                    crate::units::lemma_scaled_bound(
                        GRAVITY as int,
                        delta as int,
                        GRAVITY as int,
                    );
                }
                self.pos.x = shift(self.pos.x, scale(self.vel.x, delta));
                self.pos.y = shift(self.pos.y, scale(self.vel.y, delta));
                let fall: i64 = self.vel.y + scale(GRAVITY, delta);
                self.vel.y = if fall < MAX_FALL_SPEED {
                    fall
                } else {
                    MAX_FALL_SPEED
                };
            },
        }
    }

    /// The fragment's picture on the particle sheet: the sheet holds the four
    /// corners in two rows of two.
    pub fn source_rect(&self) -> (r: Rect)
        requires
            self.wf(),
        ensures
            self.kind matches ParticleKind::BrokenTile { corner } && r == (Rect {
                x: ((corner % 2) * FRAGMENT_SIZE) as i64,
                y: ((corner / 2) * FRAGMENT_SIZE) as i64,
                w: FRAGMENT_SIZE,
                h: FRAGMENT_SIZE,
            }),
    {
        match self.kind {
            ParticleKind::BrokenTile { corner } => Rect {
                x: (corner % 2) as i64 * FRAGMENT_SIZE,
                y: (corner / 2) as i64 * FRAGMENT_SIZE,
                w: FRAGMENT_SIZE,
                h: FRAGMENT_SIZE,
            },
        }
    }
}

/// A fragment launched with speeds inside its ranges is well formed.
pub proof fn lemma_fragment_wf(p: Particle, corner: int, origin: Vec2)
    requires
        0 <= corner < 4,
        is_fragment(p, corner, origin),
    ensures
        p.wf(),
        p.kind == (ParticleKind::BrokenTile { corner: corner as usize }),
        p.vel.y < 0,
        corner % 2 == 0 ==> p.vel.x < 0,
        corner % 2 == 1 ==> p.vel.x > 0,
{
}

/// Draws a number from `low ..= high` with `macroquad::rand::gen_range`, which
/// takes the next value of its global generator, a fraction in `0 .. 1`, and
/// returns `low + (high - low) * fraction` cut to an integer. Assumed: for
/// bounds that a double holds exactly, the result lies between them.
#[verifier::external_body]
fn random_between(low: i64, high: i64) -> (r: i64)
    requires
        -0x20_0000_0000_0000 <= low <= high <= 0x20_0000_0000_0000,
    ensures
        low <= r <= high,
{
    macroquad::rand::gen_range(low, high)
}

/// All live particles, oldest first.
pub struct Particles {
    particles: Vec<Particle>,
}

impl View for Particles {
    type V = Seq<Particle>;

    closed spec fn view(&self) -> Seq<Particle> {
        self.particles@
    }
}

impl Default for Particles {
    fn default() -> (particles: Particles)
        ensures
            particles@.len() == 0,
            particles.wf(),
    {
        Particles { particles: Vec::new() }
    }
}

impl Particles {
    /// Whether every particle is well formed.
    pub open spec fn wf(&self) -> bool {
        forall|i: int| 0 <= i < self@.len() ==> (#[trigger] self@[i]).wf()
    }

    pub fn particles(&self) -> (particles: &Vec<Particle>)
        ensures
            particles@ == self@,
    {
        &self.particles
    }

    /// Advances every particle by `delta` microseconds.
    pub fn update(&mut self, delta: u32)
        requires
            old(self).wf(),
        ensures
            final(self)@.len() == old(self)@.len(),
            forall|i: int|
                0 <= i < old(self)@.len() ==> final(self)@[i] == (#[trigger] old(self)@[i]).advanced(
                    delta,
                ),
            final(self).wf(),
    {
        let n: usize = self.particles.len();
        let mut i: usize = 0;
        while i < n
            invariant
                i <= n,
                n == self.particles@.len(),
                n == old(self)@.len(),
                forall|j: int| 0 <= j < i ==> self.particles@[j] == (#[trigger] old(self)@[j]).advanced(delta),
                forall|j: int| 0 <= j < i ==> (#[trigger] self.particles@[j]).wf(),
                forall|j: int| i <= j < n ==> self.particles@[j] == old(self)@[j],
                old(self).wf(),
            decreases n - i,
        {
            let mut p: Particle = self.particles[i];
            assert(old(self)@[i as int].wf());
            p.update(delta);
            self.particles.set(i, p);
            i = i + 1;
        }
    }

    /// Throws the four fragments of the tile whose top-left pixel is `pos`,
    /// each with a random speed from the ranges of its corner.
    pub fn break_tile(&mut self, pos: Vec2)
        requires
            old(self).wf(),
        ensures
            is_burst(final(self)@, old(self)@, pos),
            final(self).wf(),
    {
        let mut corner: usize = 0;
        while corner < 4
            invariant
                corner <= 4,
                self.particles@.len() == old(self)@.len() + corner,
                self.particles@.subrange(0, old(self)@.len() as int) == old(self)@,
                forall|c: int|
                    0 <= c < corner ==> is_fragment(
                        #[trigger] self.particles@[old(self)@.len() + c],
                        c,
                        pos,
                    ),
                self.wf(),
            decreases 4 - corner,
        {
            let top: bool = corner / 2 == 0;
            let range_x: (i64, i64) = if top {
                TOP_SPEED_X
            } else {
                BOTTOM_SPEED_X
            };
            let range_y: (i64, i64) = if top {
                TOP_SPEED_Y
            } else {
                BOTTOM_SPEED_Y
            };
            let speed_x: i64 = random_between(range_x.0, range_x.1);
            let speed_y: i64 = random_between(range_y.0, range_y.1);
            let p: Particle = Particle::fragment(corner, pos, speed_x, speed_y);
            let ghost before = self.particles@;
            assert(self@ == before);
            self.particles.push(p);
            proof {
                assert(is_fragment(p, corner as int, pos));
                lemma_fragment_wf(p, corner as int, pos);
                assert(self.particles@.subrange(0, old(self)@.len() as int) == before.subrange(
                    0,
                    old(self)@.len() as int,
                ));
                assert forall|c: int| 0 <= c < corner + 1 implies is_fragment(
                    #[trigger] self.particles@[old(self)@.len() + c],
                    c,
                    pos,
                ) by {
                    if c < corner {
                        assert(self.particles@[old(self)@.len() + c] == before[old(self)@.len()
                            + c]);
                    }
                }
                assert forall|i: int| 0 <= i < self@.len() implies (#[trigger] self@[i]).wf() by {
                    if i < before.len() {
                        assert(self@[i] == before[i]);
                        assert(before[i].wf());
                    } else {
                        assert(self@[i] == p);
                    }
                }
            }
            corner = corner + 1;
        }
    }
}

} // verus!
