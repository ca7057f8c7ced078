//! The character controller: one actor's kinematic state and the frame step
//! that turns input and elapsed time into motion against the tile grid.

use vstd::prelude::*;
use crate::units::Vec2;
use crate::units::MAGNITUDE_LIMIT;
use crate::units::MILLION;
use crate::units::SPEED_LIMIT;

pub mod collision;
pub mod frame;
pub mod motion;
pub mod sprite;

pub use frame::Frame;
pub use motion::ToTarget;
pub use sprite::SpriteState;

verus! {

/// The side a walk is headed for.
#[derive(Clone, Copy, PartialEq, Eq, Structural, Debug)]
pub enum WalkDir {
    Left,
    Right,
}

/// The four logical actions as sampled for one frame: whether each is held
/// down, and for moving and jumping whether it went down this frame.
#[derive(Clone, Copy, PartialEq, Eq, Structural, Debug)]
pub struct Input {
    pub move_left_held: bool,
    pub move_left_pressed: bool,
    pub move_right_held: bool,
    pub move_right_pressed: bool,
    pub jump_held: bool,
    pub jump_pressed: bool,
    pub run_held: bool,
}

/// The motion constants of one character. Speeds are in length units per
/// second, gravities in length units per second squared, times in
/// microseconds.
#[derive(Clone, Copy, PartialEq, Eq, Structural, Debug)]
pub struct Tuning {
    pub walk_speed: i64,
    pub run_beg_speed: i64,
    pub run_end_speed: i64,
    pub run_lerp_beg_time: i64,
    pub run_lerp_end_time: i64,
    pub jump_vel: i64,
    pub jump_gravity: i64,
    pub fall_gravity: i64,
    pub max_fall_speed: i64,
}

impl Tuning {
    /// Whether the constants are ordered and within the limits of the
    /// arithmetic: walking is slower than the fastest run, the run ramp has a
    /// positive length, and nothing is negative.
    pub open spec fn wf(self) -> bool {
        &&& 0 <= self.walk_speed < self.run_end_speed <= SPEED_LIMIT
        &&& 0 <= self.run_beg_speed <= self.run_end_speed
        &&& 0 <= self.run_lerp_beg_time < self.run_lerp_end_time <= MAGNITUDE_LIMIT
        &&& 0 <= self.jump_vel <= SPEED_LIMIT
        &&& 0 <= self.jump_gravity <= MAGNITUDE_LIMIT
        &&& 0 <= self.fall_gravity <= MAGNITUDE_LIMIT
        &&& 0 <= self.max_fall_speed <= SPEED_LIMIT
    }

    /// The constants every new character starts with.
    pub open spec fn standard_spec() -> Tuning {
        Tuning {
            walk_speed: 70_000_000,
            run_beg_speed: 110_000_000,
            run_end_speed: 150_000_000,
            run_lerp_beg_time: 400_000,
            run_lerp_end_time: 1_200_000,
            jump_vel: 250_000_000,
            jump_gravity: 600_000_000,
            fall_gravity: 1_100_000_000,
            max_fall_speed: 500_000_000,
        }
    }

    /// Walk at 70 pixels per second; run from 110 up to 150, ramping between
    /// 0.4 and 1.2 seconds of running; jump off at 250 under a gravity of 600
    /// while the jump is held, fall under 1100, no faster than 500.
    #[verifier::when_used_as_spec(standard_spec)]
    pub fn standard() -> (t: Tuning)
        ensures
            t == Tuning::standard_spec(),
            t.wf(),
    {
        Tuning {
            walk_speed: 70_000_000,
            run_beg_speed: 110_000_000,
            run_end_speed: 150_000_000,
            run_lerp_beg_time: 400_000,
            run_lerp_end_time: 1_200_000,
            jump_vel: 250_000_000,
            jump_gravity: 600_000_000,
            fall_gravity: 1_100_000_000,
            max_fall_speed: 500_000_000,
        }
    }
}

/// One character. Positions are the top-left corner of its 16 by 32 pixel
/// box.
#[derive(Clone, Copy, PartialEq, Eq, Structural, Debug)]
pub struct Player {
    /// Whether the sprite is mirrored to face left.
    pub flip_x: bool,
    /// Whether a jump is under way that still softens gravity.
    pub jumping: bool,
    /// Whether a foot touched solid ground in the last frame.
    pub grounded: bool,
    /// Whether the character is on the ground and moving against the held
    /// direction.
    pub skidding: bool,
    /// Phase of the walk cycle in millionths of a cycle.
    pub step_anim: i64,
    /// The direction the character means to walk in.
    pub walk_dir: Option<WalkDir>,
    /// How long the character has been running, in microseconds.
    pub running_time: i64,
    pub running: bool,
    pub pos: Vec2,
    /// Position at the start of the last frame's collision pass.
    pub prev_pos: Vec2,
    pub vel: Vec2,
    pub tuning: Tuning,
}

impl Player {
    /// Whether the constants are well formed, position and velocity are within
    /// their limits, the running time is within the ramp and the walk phase
    /// is within one cycle.
    pub open spec fn wf(self) -> bool {
        &&& self.tuning.wf()
        &&& self.pos.in_world()
        &&& self.vel.is_velocity()
        &&& 0 <= self.running_time <= self.tuning.run_lerp_end_time
        &&& 0 <= self.step_anim < MILLION
    }

    /// A character at rest at `pos`, in the air, facing right, with the
    /// standard constants.
    pub fn new(pos: Vec2) -> (player: Player)
        requires
            pos.in_world(),
        ensures
            player == (Player {
                flip_x: false,
                jumping: false,
                grounded: false,
                skidding: false,
                step_anim: 0,
                walk_dir: None,
                running_time: 0,
                running: false,
                pos,
                prev_pos: Vec2 { x: 0, y: 0 },
                vel: Vec2 { x: 0, y: 0 },
                tuning: Tuning::standard(),
            }),
            player.wf(),
    {
        Player {
            flip_x: false,
            jumping: false,
            grounded: false,
            skidding: false,
            step_anim: 0,
            walk_dir: None,
            running_time: 0,
            running: false,
            pos,
            prev_pos: Vec2 { x: 0, y: 0 },
            vel: Vec2 { x: 0, y: 0 },
            tuning: Tuning::standard(),
        }
    }

    pub fn pos(&self) -> (pos: Vec2)
        ensures
            pos == self.pos,
    {
        self.pos
    }

    pub fn flip_x(&self) -> (flip_x: bool)
        ensures
            flip_x == self.flip_x,
    {
        self.flip_x
    }
}

} // verus!
