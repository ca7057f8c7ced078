//! The walk cycle and the choice of the sprite to show.

use vstd::prelude::*;
use crate::player::motion::speed_of;
use crate::player::Player;
use crate::units::magnitude;
use crate::units::Rect;
use crate::units::MILLION;

verus! {

/// The walk phase of a character at rest: just under a whole cycle.
pub const IDLE_PHASE: i64 = 999_999;

/// Width of a character sprite on its sheet, 16 pixels.
pub const SPRITE_WIDTH: i64 = 16_000_000;

/// Height of a character sprite on its sheet, 32 pixels.
pub const SPRITE_HEIGHT: i64 = 32_000_000;

/// What the character is seen doing.
#[derive(Clone, Copy, PartialEq, Eq, Structural, Debug)]
pub enum SpriteState {
    Idle,
    Walk,
    Run,
    Skid,
    Jump,
    Fall,
}

impl Player {
    /// The walk phase advances each frame by a thousandth of a cycle for
    /// every pixel per second of horizontal speed and wraps at a whole cycle.
    /// At rest it is held at the idle phase.
    pub open spec fn after_animation(self) -> Player {
        Player {
            step_anim: if self.vel.x == 0 {
                IDLE_PHASE
            } else {
                ((self.step_anim + magnitude(self.vel.x as int) / 1000) % 1_000_000) as i64
            },
            ..self
        }
    }

    /// The first that applies: in the air, jumping while rising and falling
    /// otherwise; skidding; idle at rest with no walk direction; walking
    /// below the fastest run; else running.
    pub open spec fn sprite_state_spec(self) -> SpriteState {
        if !self.grounded {
            if self.vel.y < 0 {
                SpriteState::Jump
            } else {
                SpriteState::Fall
            }
        } else if self.skidding {
            SpriteState::Skid
        } else if self.vel.x == 0 && self.walk_dir is None {
            SpriteState::Idle
        } else if magnitude(self.vel.x as int) < self.tuning.run_end_speed {
            SpriteState::Walk
        } else {
            SpriteState::Run
        }
    }

    /// Whether the walk cycle is in its first half, which shows the stride.
    pub open spec fn striding(self) -> bool {
        self.step_anim < 500_000
    }

    /// The place of the sprite on the sheet, counted from the left. Walking
    /// alternates between the stride and the idle stance, running between
    /// its two own frames.
    pub open spec fn sprite_spec(self) -> usize {
        match self.sprite_state_spec() {
            SpriteState::Idle => 0,
            SpriteState::Walk => if self.striding() {
                2
            } else {
                0
            },
            SpriteState::Run => if self.striding() {
                3
            } else {
                1
            },
            SpriteState::Skid => 4,
            SpriteState::Jump => 5,
            SpriteState::Fall => 6,
        }
    }

    /// Advances the walk cycle by one frame.
    pub fn animate(&mut self)
        requires
            old(self).wf(),
        ensures
            *final(self) == old(self).after_animation(),
            final(self).wf(),
    {
        if self.vel.x == 0 {
            self.step_anim = IDLE_PHASE;
        } else {
            self.step_anim = (self.step_anim + speed_of(self.vel.x) / 1000) % MILLION;
        }
    }

    /// What the character is seen doing.
    pub fn sprite_state(&self) -> (state: SpriteState)
        requires
            self.wf(),
        ensures
            state == self.sprite_state_spec(),
    {
        if !self.grounded {
            if self.vel.y < 0 {
                SpriteState::Jump
            } else {
                SpriteState::Fall
            }
        } else if self.skidding {
            SpriteState::Skid
        } else if self.vel.x == 0 && self.walk_dir.is_none() {
            SpriteState::Idle
        } else if speed_of(self.vel.x) < self.tuning.run_end_speed {
            SpriteState::Walk
        } else {
            SpriteState::Run
        }
    }

    /// The place of the sprite on the sheet, counted from the left.
    pub fn sprite(&self) -> (index: usize)
        requires
            self.wf(),
        ensures
            index == self.sprite_spec(),
            index <= 6,
    {
        let striding: bool = self.step_anim < 500_000;
        match self.sprite_state() {
            SpriteState::Idle => 0,
            SpriteState::Walk => if striding {
                2
            } else {
                0
            },
            SpriteState::Run => if striding {
                3
            } else {
                1
            },
            SpriteState::Skid => 4,
            SpriteState::Jump => 5,
            SpriteState::Fall => 6,
        }
    }

    /// The sprite's picture on the sheet, which holds the sprites side by
    /// side.
    pub fn source_rect(&self) -> (r: Rect)
        requires
            self.wf(),
        ensures
            r == (Rect {
                x: (self.sprite_spec() * SPRITE_WIDTH) as i64,
                y: 0,
                w: SPRITE_WIDTH,
                h: SPRITE_HEIGHT,
            }),
    {
        Rect { x: self.sprite() as i64 * SPRITE_WIDTH, y: 0, w: SPRITE_WIDTH, h: SPRITE_HEIGHT }
    }
}

/// A character at rest on the ground with no walk direction is shown idle,
/// and its walk phase is held at the idle phase.
pub proof fn lemma_rest_is_idle(p: Player)
    requires
        p.grounded,
        !p.skidding,
        p.vel.x == 0,
        p.walk_dir is None,
    ensures
        p.after_animation().step_anim == IDLE_PHASE,
        p.after_animation().sprite_state_spec() == SpriteState::Idle,
        p.after_animation().sprite_spec() == 0,
{
}

} // verus!
