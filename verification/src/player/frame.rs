//! One whole frame, and what holds over any number of frames.

use vstd::prelude::*;
use crate::particles::is_burst;
use crate::particles::Particles;
use crate::player::collision::lemma_collision_keeps_wf;
use crate::player::collision::lemma_head_hit_clears_tile;
use crate::player::collision::lemma_landing_survives_collision;
use crate::player::motion::lemma_motion_keeps_wf;
use crate::player::Input;
use crate::player::Player;
use crate::stage::lemma_with_tile_shape;
use crate::stage::Grid;
use crate::stage::Stage;
use crate::units::TILE;

verus! {

/// What one frame is given: the time since the last frame in microseconds,
/// and the sampled input.
pub struct Frame {
    pub delta: u32,
    pub input: Input,
}

impl Player {
    /// The character after one frame: moved freely, then resolved against
    /// the grid, then animated.
    pub open spec fn after_frame(self, delta: u32, input: Input, grid: Grid) -> Player {
        self.after_motion(delta, input).after_collision(grid).after_animation()
    }

    /// Whether the frame breaks a tile.
    pub open spec fn frame_breaks_tile(self, delta: u32, input: Input, grid: Grid) -> bool {
        self.after_motion(delta, input).breaks_tile(grid)
    }

    /// The grid after the frame.
    pub open spec fn grid_after_frame(self, delta: u32, input: Input, grid: Grid) -> Grid {
        self.after_motion(delta, input).grid_after_collision(grid)
    }

    /// Advances the character by one frame of `delta` microseconds. A hit
    /// with the head empties a tile of the stage and throws its fragments.
    pub fn update(
        &mut self,
        delta: u32,
        input: &Input,
        stage: &mut Stage,
        particles: &mut Particles,
    )
        requires
            old(self).wf(),
            old(stage).wf(),
            old(particles).wf(),
        ensures
            *final(self) == old(self).after_frame(delta, *input, old(stage)@),
            final(stage)@ == old(self).grid_after_frame(delta, *input, old(stage)@),
            old(self).frame_breaks_tile(delta, *input, old(stage)@) ==> is_burst(
                final(particles)@,
                old(particles)@,
                final(self).burst_origin(),
            ),
            !old(self).frame_breaks_tile(delta, *input, old(stage)@) ==> final(particles)@ == old(
                particles,
            )@,
            final(self).wf(),
            final(self).tuning == old(self).tuning,
            final(stage).wf(),
            final(particles).wf(),
    {
        proof {
            lemma_frame_keeps_wf(*self, delta, *input, stage@);
        }
        self.move_freely(delta, input);
        let _ = self.collide(stage, particles);
        self.animate();
    }
}

/// The character and the grid after a sequence of frames, oldest first.
pub open spec fn after_frames(p: Player, grid: Grid, frames: Seq<Frame>) -> (Player, Grid)
    decreases frames.len(),
{
    if frames.len() == 0 {
        (p, grid)
    } else {
        let (q, g) = after_frames(p, grid, frames.drop_last());
        let f = frames.last();
        (q.after_frame(f.delta, f.input, g), q.grid_after_frame(f.delta, f.input, g))
    }
}

/// A frame keeps a well-formed character well formed and its constants
/// unchanged, and keeps the shape of the grid.
pub proof fn lemma_frame_keeps_wf(p: Player, delta: u32, input: Input, grid: Grid)
    requires
        p.wf(),
    ensures
        p.after_frame(delta, input, grid).wf(),
        p.after_frame(delta, input, grid).tuning == p.tuning,
        p.grid_after_frame(delta, input, grid).width == grid.width,
        p.grid_after_frame(delta, input, grid).tiles.len() == grid.tiles.len(),
{
    lemma_motion_keeps_wf(p, delta, input);
    let m = p.after_motion(delta, input);
    lemma_collision_keeps_wf(m, grid);
    lemma_with_tile_shape(grid, 0, m.after_collision(grid).break_point());
}

/// After any sequence of frames the running time lies within the run ramp:
/// it is never negative and never above the ramp's end.
pub proof fn lemma_running_time_stays_in_range(p: Player, grid: Grid, frames: Seq<Frame>)
    requires
        p.wf(),
    ensures
        after_frames(p, grid, frames).0.wf(),
        after_frames(p, grid, frames).0.tuning == p.tuning,
        0 <= after_frames(p, grid, frames).0.running_time <= p.tuning.run_lerp_end_time,
    decreases frames.len(),
{
    if frames.len() > 0 {
        lemma_running_time_stays_in_range(p, grid, frames.drop_last());
        let (q, g) = after_frames(p, grid, frames.drop_last());
        let f = frames.last();
        lemma_frame_keeps_wf(q, f.delta, f.input, g);
    }
}

/// In a frame in which a foot ends up in a solid tile and the character has
/// not moved up, the character finishes the frame on the ground, with its
/// position on a tile boundary and no vertical speed.
pub proof fn lemma_landing_rests_on_tile(p: Player, delta: u32, input: Input, grid: Grid)
    requires
        p.wf(),
        p.after_motion(delta, input).lands(grid),
    ensures
        p.after_frame(delta, input, grid).grounded,
        p.after_frame(delta, input, grid).pos.y % TILE == 0,
        p.after_frame(delta, input, grid).vel.y == 0,
{
    lemma_motion_keeps_wf(p, delta, input);
    lemma_landing_survives_collision(p.after_motion(delta, input), grid);
}

/// In a frame in which the head hits, the tile one row above the head is
/// empty afterward, and the character ends the frame on a tile boundary with
/// no vertical speed.
pub proof fn lemma_head_hit_breaks_tile(p: Player, delta: u32, input: Input, grid: Grid)
    requires
        p.wf(),
        p.frame_breaks_tile(delta, input, grid),
    ensures
        !p.grid_after_frame(delta, input, grid).solid_at(
            p.after_frame(delta, input, grid).break_point(),
        ),
        p.after_frame(delta, input, grid).pos.y % TILE == 0,
        p.after_frame(delta, input, grid).vel.y == 0,
{
    lemma_motion_keeps_wf(p, delta, input);
    lemma_head_hit_clears_tile(p.after_motion(delta, input), grid);
}

} // verus!
