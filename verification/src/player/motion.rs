//! The part of a frame that needs no grid: gravity, jumping, the walk
//! direction, the run ramp, skidding, easing toward the target speed and the
//! move itself.

use vstd::prelude::*;
use crate::player::Input;
use crate::player::Player;
use crate::player::WalkDir;
use crate::units::clamp;
use crate::units::clamped;
use crate::units::confined;
use crate::units::lemma_scaled_bound;
use crate::units::lemma_scaled_shrinks;
use crate::units::magnitude;
use crate::units::remap;
use crate::units::remapped;
use crate::units::scale;
use crate::units::scaled;
use crate::units::shift;
use crate::units::Vec2;
use crate::units::MAGNITUDE_LIMIT;
use crate::units::SPEED_LIMIT;

verus! {

/// Rate at which the horizontal speed closes in on its target when the
/// character stands still, 400 pixels per second each second. The rate grows
/// by the current speed.
pub const EASE_RATE: i64 = 400_000_000;

/// `value` moved toward `target` by `step`, stopping at `target`. A value at
/// or above the target moves down, a value below it moves up.
pub open spec fn eased(value: int, target: int, step: int) -> int {
    if value >= target {
        if value - step >= target {
            value - step
        } else {
            target
        }
    } else {
        if value + step <= target {
            value + step
        } else {
            target
        }
    }
}

/// Easing by a non-negative step never overshoots: the result lies between
/// the value and the target. It reaches the target exactly when the step
/// covers the distance, and otherwise moves by the whole step.
pub proof fn lemma_easing_never_overshoots(value: int, target: int, step: int)
    requires
        step >= 0,
    ensures
        value <= target ==> value <= eased(value, target, step) <= target,
        value >= target ==> target <= eased(value, target, step) <= value,
        eased(value, target, step) == target <==> magnitude(value - target) <= step,
        magnitude(value - target) > step ==> magnitude(eased(value, target, step) - value) == step,
{
}

/// Values that can be moved toward a target by a step.
pub trait ToTarget: Sized {
    /// Whether the moved value can be represented.
    spec fn can_step(self, target: Self, step: Self) -> bool;

    /// The value moved toward `target` by `step`.
    spec fn toward(self, target: Self, step: Self) -> Self;

    /// Moves the value toward `target` by `step` without passing it.
    fn to_target(self, target: Self, step: Self) -> (r: Self)
        requires
            self.can_step(target, step),
        ensures
            r == self.toward(target, step),
    ;
}

impl ToTarget for i64 {
    /// Every non-negative step can be taken; a negative step moves away from
    /// the target and must not leave the range of the type.
    open spec fn can_step(self, target: i64, step: i64) -> bool {
        i64::MIN <= eased(self as int, target as int, step as int) <= i64::MAX
    }

    open spec fn toward(self, target: i64, step: i64) -> i64 {
        eased(self as int, target as int, step as int) as i64
    }

    fn to_target(self, target: i64, step: i64) -> (r: i64) {
        if self >= target {
            let moved: i128 = self as i128 - step as i128;
            if moved >= target as i128 {
                moved as i64
            } else {
                target
            }
        } else {
            let moved: i128 = self as i128 + step as i128;
            if moved <= target as i128 {
                moved as i64
            } else {
                target
            }
        }
    }
}

/// Absolute value of a speed.
pub fn speed_of(v: i64) -> (r: i64)
    requires
        -SPEED_LIMIT <= v <= SPEED_LIMIT,
    ensures
        r == magnitude(v as int),
{
    if v >= 0 {
        v
    } else {
        -v
    }
}

impl Player {
    /// The gravity that acts on the character: the softer one while a jump is
    /// under way, the harder one otherwise.
    pub open spec fn gravity_spec(self) -> i64 {
        if self.jumping {
            self.tuning.jump_gravity
        } else {
            self.tuning.fall_gravity
        }
    }

    /// In the air the vertical speed grows by gravity over `delta`, up to the
    /// fastest fall. On the ground nothing changes.
    pub open spec fn after_gravity(self, delta: u32) -> Player {
        if self.grounded {
            self
        } else {
            Player {
                vel: Vec2 {
                    x: self.vel.x,
                    y: vstd::math::min(
                        self.vel.y + scaled(self.gravity_spec() as int, delta as int),
                        self.tuning.max_fall_speed as int,
                    ) as i64,
                },
                ..self
            }
        }
    }

    /// A jump ends when the jump action is let go, or when the character is on
    /// the ground or moving down. Then a jump starts if the action went down
    /// this frame on the ground: the character leaves upward at its jump
    /// speed.
    pub open spec fn after_jump(self, input: Input) -> Player {
        if input.jump_pressed && self.grounded {
            Player {
                jumping: true,
                vel: Vec2 { x: self.vel.x, y: (-self.tuning.jump_vel) as i64 },
                ..self
            }
        } else {
            Player {
                jumping: self.jumping && input.jump_held && !self.grounded && self.vel.y <= 0,
                ..self
            }
        }
    }

    /// The direction after this frame's presses: left if left went down, then
    /// right if right went down, else what it was.
    pub open spec fn pressed_dir(self, input: Input) -> Option<WalkDir> {
        if input.move_right_pressed {
            Some(WalkDir::Right)
        } else if input.move_left_pressed {
            Some(WalkDir::Left)
        } else {
            self.walk_dir
        }
    }

    /// A press sets the direction. The direction is dropped only on the
    /// ground, once its own action is no longer held.
    pub open spec fn after_walk_dir(self, input: Input) -> Player {
        let dir = self.pressed_dir(input);
        let let_go = match dir {
            Some(WalkDir::Left) => !input.move_left_held,
            Some(WalkDir::Right) => !input.move_right_held,
            None => false,
        };
        Player {
            walk_dir: if let_go && self.grounded {
                None
            } else {
                dir
            },
            ..self
        }
    }

    /// Running starts at the run's lowest speed while a direction is held,
    /// stops below that speed with no direction held, and never lasts without
    /// the run action.
    pub open spec fn after_running(self, input: Input) -> Player {
        let fast = magnitude(self.vel.x as int) >= self.tuning.run_beg_speed;
        Player {
            running: if !input.run_held {
                false
            } else if fast {
                self.walk_dir is Some || self.running
            } else {
                self.walk_dir is Some && self.running
            },
            ..self
        }
    }

    /// The running time stands still in the air and while skidding. Otherwise
    /// it grows by `delta` while running and shrinks by it while not, within
    /// the ramp.
    pub open spec fn after_running_time(self, delta: u32) -> Player {
        let change: int = if !self.grounded || self.skidding {
            0
        } else if self.running {
            delta as int
        } else {
            -(delta as int)
        };
        Player {
            running_time: clamped(
                self.running_time + change,
                0,
                self.tuning.run_lerp_end_time as int,
            ) as i64,
            ..self
        }
    }

    /// Whether the character walks one way while moving the other.
    pub open spec fn opposes_motion(self) -> bool {
        ||| self.walk_dir == Some(WalkDir::Left) && self.vel.x > 0
        ||| self.walk_dir == Some(WalkDir::Right) && self.vel.x < 0
    }

    /// The share of its speed, in millionths, that a character keeps when it
    /// starts to skid: all of it at walking speed, half at the fastest run,
    /// in a straight line between and beyond, but never under a quarter.
    pub open spec fn skid_factor(self) -> int {
        clamped(
            remapped(
                magnitude(self.vel.x as int),
                self.tuning.walk_speed as int,
                self.tuning.run_end_speed as int,
                1_000_000,
                500_000,
            ),
            250_000,
            1_000_000,
        )
    }

    /// Whether a skid starts in this frame.
    pub open spec fn skid_starts(self) -> bool {
        !self.skidding && self.grounded && self.opposes_motion()
    }

    /// The character skids while it is on the ground and walks against its
    /// motion. When a skid starts, the horizontal speed is cut by the skid
    /// factor and the running time falls back to the start of the ramp.
    pub open spec fn after_skid(self) -> Player {
        if self.skid_starts() {
            Player {
                skidding: true,
                vel: Vec2 { x: scaled(self.vel.x as int, self.skid_factor()) as i64, y: self.vel.y },
                running_time: vstd::math::min(
                    self.running_time as int,
                    self.tuning.run_lerp_beg_time as int,
                ) as i64,
                ..self
            }
        } else {
            Player { skidding: self.grounded && self.opposes_motion(), ..self }
        }
    }

    /// The speed the character heads for: the walking speed without the run
    /// action; with it, the speed on the ramp for the running time.
    pub open spec fn target_speed(self, input: Input) -> int {
        if !input.run_held {
            self.tuning.walk_speed as int
        } else {
            clamped(
                remapped(
                    self.running_time as int,
                    self.tuning.run_lerp_beg_time as int,
                    self.tuning.run_lerp_end_time as int,
                    self.tuning.run_beg_speed as int,
                    self.tuning.run_end_speed as int,
                ),
                self.tuning.run_beg_speed as int,
                self.tuning.run_end_speed as int,
            )
        }
    }

    /// The horizontal velocity the character heads for: the target speed
    /// toward the walk direction, or rest without one.
    pub open spec fn target_x_vel_spec(self, input: Input) -> int {
        match self.walk_dir {
            Some(WalkDir::Left) => -self.target_speed(input),
            Some(WalkDir::Right) => self.target_speed(input),
            None => 0,
        }
    }

    /// The character faces the way it walks, and keeps facing as it did when
    /// it has no direction.
    pub open spec fn after_facing(self) -> Player {
        Player {
            flip_x: match self.walk_dir {
                Some(WalkDir::Left) => true,
                Some(WalkDir::Right) => false,
                None => self.flip_x,
            },
            ..self
        }
    }

    /// The step by which the horizontal speed may change over `delta`.
    pub open spec fn ease_step(self, delta: u32) -> int {
        scaled(EASE_RATE + magnitude(self.vel.x as int), delta as int)
    }

    /// The horizontal speed moves toward the target by the ease step.
    pub open spec fn after_easing(self, input: Input, delta: u32) -> Player {
        Player {
            vel: Vec2 {
                x: eased(self.vel.x as int, self.target_x_vel_spec(input), self.ease_step(delta)) as i64,
                y: self.vel.y,
            },
            ..self
        }
    }

    /// The position is remembered and then moved by the velocity over
    /// `delta`, within the world.
    pub open spec fn after_integration(self, delta: u32) -> Player {
        Player {
            prev_pos: self.pos,
            pos: Vec2 {
                x: confined(self.pos.x + scaled(self.vel.x as int, delta as int)) as i64,
                y: confined(self.pos.y + scaled(self.vel.y as int, delta as int)) as i64,
            },
            ..self
        }
    }

    /// Everything a frame does before the grid is consulted, in order.
    pub open spec fn after_motion(self, delta: u32, input: Input) -> Player {
        self.after_gravity(delta).after_jump(input).after_walk_dir(input).after_running(
            input,
        ).after_running_time(delta).after_skid().after_facing().after_easing(
            input,
            delta,
        ).after_integration(delta)
    }

    /// The gravity that acts on the character.
    pub fn gravity(&self) -> (g: i64)
        ensures
            g == self.gravity_spec(),
    {
        if self.jumping {
            self.tuning.jump_gravity
        } else {
            self.tuning.fall_gravity
        }
    }

    /// Lets gravity act for `delta` microseconds.
    pub fn apply_gravity(&mut self, delta: u32)
        requires
            old(self).wf(),
        ensures
            *final(self) == old(self).after_gravity(delta),
            final(self).wf(),
    {
        if !self.grounded {
            let g: i64 = self.gravity();
            proof {
                lemma_scaled_bound(g as int, delta as int, MAGNITUDE_LIMIT as int);
                assert(MAGNITUDE_LIMIT * delta <= 2_000_000_000_000_000 * 4_294_967_295)
                    by (nonlinear_arith)
                    requires
                        delta <= 4_294_967_295,
                ;
            }
            let fall: i64 = self.vel.y + scale(g, delta);
            self.vel.y = if fall < self.tuning.max_fall_speed {
                fall
            } else {
                self.tuning.max_fall_speed
            };
        }
    }

    /// Ends and starts jumps.
    pub fn update_jump(&mut self, input: &Input)
        requires
            old(self).wf(),
        ensures
            *final(self) == old(self).after_jump(*input),
            final(self).wf(),
    {
        if !input.jump_held || self.jumping && (self.grounded || self.vel.y > 0) {
            self.jumping = false;
        }
        if input.jump_pressed && self.grounded {
            self.jumping = true;
            self.vel.y = -self.tuning.jump_vel;
        }
    }

    /// Takes up and drops the walk direction.
    pub fn update_walk_dir(&mut self, input: &Input)
        requires
            old(self).wf(),
        ensures
            *final(self) == old(self).after_walk_dir(*input),
            final(self).wf(),
    {
        if input.move_left_pressed {
            self.walk_dir = Some(WalkDir::Left);
        }
        if input.move_right_pressed {
            self.walk_dir = Some(WalkDir::Right);
        }
        let let_go: bool = match self.walk_dir {
            Some(WalkDir::Left) => !input.move_left_held,
            Some(WalkDir::Right) => !input.move_right_held,
            None => false,
        };
        if let_go && self.grounded {
            self.walk_dir = None;
        }
    }

    /// Decides whether the character is running.
    pub fn update_running(&mut self, input: &Input)
        requires
            old(self).wf(),
        ensures
            *final(self) == old(self).after_running(*input),
            final(self).wf(),
    {
        let speed: i64 = speed_of(self.vel.x);
        if speed >= self.tuning.run_beg_speed && self.walk_dir.is_some() {
            self.running = true;
        }
        if speed < self.tuning.run_beg_speed && self.walk_dir.is_none() {
            self.running = false;
        }
        if !input.run_held {
            self.running = false;
        }
    }

    /// Advances or rewinds the running time by `delta` microseconds.
    pub fn update_running_time(&mut self, delta: u32)
        requires
            old(self).wf(),
        ensures
            *final(self) == old(self).after_running_time(delta),
            final(self).wf(),
    {
        let change: i64 = if !self.grounded || self.skidding {
            0
        } else if self.running {
            delta as i64
        } else {
            -(delta as i64)
        };
        self.running_time = clamp(
            self.running_time as i128 + change as i128,
            0,
            self.tuning.run_lerp_end_time,
        );
    }

    /// Detects skidding and brakes when a skid starts.
    pub fn update_skid(&mut self)
        requires
            old(self).wf(),
        ensures
            *final(self) == old(self).after_skid(),
            final(self).wf(),
            magnitude(final(self).vel.x as int) <= magnitude(old(self).vel.x as int),
            final(self).running_time <= old(self).running_time,
            old(self).skid_starts() ==> final(self).running_time
                <= old(self).tuning.run_lerp_beg_time,
    {
        let prev_skidding: bool = self.skidding;
        let opposing: bool = (match self.walk_dir {
            Some(WalkDir::Left) => self.vel.x > 0,
            Some(WalkDir::Right) => self.vel.x < 0,
            None => false,
        });
        self.skidding = self.grounded && opposing;
        if !prev_skidding && self.skidding {
            let speed: i64 = speed_of(self.vel.x);
            let factor: i64 = clamp(
                remap(speed, self.tuning.walk_speed, self.tuning.run_end_speed, 1_000_000, 500_000),
                250_000,
                1_000_000,
            );
            proof {
                lemma_scaled_shrinks(self.vel.x as int, factor as int);
            }
            self.vel.x = scale(self.vel.x, factor as u32);
            if self.running_time > self.tuning.run_lerp_beg_time {
                self.running_time = self.tuning.run_lerp_beg_time;
            }
        }
    }

    /// The horizontal velocity the character heads for.
    pub fn target_x_vel(&self, input: &Input) -> (target: i64)
        requires
            self.wf(),
        ensures
            target == self.target_x_vel_spec(*input),
            -self.tuning.run_end_speed <= target <= self.tuning.run_end_speed,
    {
        let speed: i64 = if !input.run_held {
            self.tuning.walk_speed
        } else {
            clamp(
                remap(
                    self.running_time,
                    self.tuning.run_lerp_beg_time,
                    self.tuning.run_lerp_end_time,
                    self.tuning.run_beg_speed,
                    self.tuning.run_end_speed,
                ),
                self.tuning.run_beg_speed,
                self.tuning.run_end_speed,
            )
        };
        match self.walk_dir {
            Some(WalkDir::Left) => -speed,
            Some(WalkDir::Right) => speed,
            None => 0,
        }
    }

    /// Turns the character to face the way it walks.
    pub fn face(&mut self)
        requires
            old(self).wf(),
        ensures
            *final(self) == old(self).after_facing(),
            final(self).wf(),
    {
        match self.walk_dir {
            Some(WalkDir::Left) => {
                self.flip_x = true;
            },
            Some(WalkDir::Right) => {
                self.flip_x = false;
            },
            None => {},
        }
    }

    /// Moves the horizontal speed toward its target.
    pub fn ease_velocity(&mut self, input: &Input, delta: u32)
        requires
            old(self).wf(),
        ensures
            *final(self) == old(self).after_easing(*input, delta),
            final(self).wf(),
            old(self).vel.x <= old(self).target_x_vel_spec(*input) ==> old(self).vel.x
                <= final(self).vel.x <= old(self).target_x_vel_spec(*input),
            old(self).vel.x >= old(self).target_x_vel_spec(*input) ==> old(self).vel.x
                >= final(self).vel.x >= old(self).target_x_vel_spec(*input),
    {
        let target: i64 = self.target_x_vel(input);
        let rate: i64 = EASE_RATE + speed_of(self.vel.x);
        proof {
            lemma_scaled_bound(rate as int, delta as int, MAGNITUDE_LIMIT as int);
            assert(MAGNITUDE_LIMIT * delta <= 2_000_000_000_000_000 * 4_294_967_295)
                by (nonlinear_arith)
                requires
                    delta <= 4_294_967_295,
            ;
        }
        let step: i64 = scale(rate, delta);
        proof {
            lemma_easing_never_overshoots(self.vel.x as int, target as int, step as int);
        }
        self.vel.x = self.vel.x.to_target(target, step);
    }

    /// Moves the character by its velocity over `delta` microseconds.
    pub fn integrate(&mut self, delta: u32)
        requires
            old(self).wf(),
        ensures
            *final(self) == old(self).after_integration(delta),
            final(self).wf(),
    {
        proof {
            lemma_scaled_bound(self.vel.x as int, delta as int, SPEED_LIMIT as int);
            lemma_scaled_bound(self.vel.y as int, delta as int, SPEED_LIMIT as int);
            assert(SPEED_LIMIT * delta <= 1_000_000_000_000_000 * 4_294_967_295)
                by (nonlinear_arith)
                requires
                    delta <= 4_294_967_295,
            ;
        }
        self.prev_pos = self.pos;
        self.pos.x = shift(self.pos.x, scale(self.vel.x, delta));
        self.pos.y = shift(self.pos.y, scale(self.vel.y, delta));
    }

    /// Runs every step of a frame that needs no grid.
    pub fn move_freely(&mut self, delta: u32, input: &Input)
        requires
            old(self).wf(),
        ensures
            *final(self) == old(self).after_motion(delta, *input),
            final(self).wf(),
    {
        self.apply_gravity(delta);
        self.update_jump(input);
        self.update_walk_dir(input);
        self.update_running(input);
        self.update_running_time(delta);
        self.update_skid();
        self.face();
        self.ease_velocity(input, delta);
        self.integrate(delta);
    }
}

/// The steps before the collision pass keep a well-formed character well
/// formed and leave its constants alone.
pub proof fn lemma_motion_keeps_wf(p: Player, delta: u32, input: Input)
    requires
        p.wf(),
    ensures
        p.after_motion(delta, input).wf(),
        p.after_motion(delta, input).tuning == p.tuning,
{
    let a = p.after_gravity(delta);
    assert(a.wf() && a.tuning == p.tuning) by {
        lemma_scaled_bound(p.gravity_spec() as int, delta as int, MAGNITUDE_LIMIT as int);
        assert(MAGNITUDE_LIMIT * delta <= 2_000_000_000_000_000 * 4_294_967_295)
            by (nonlinear_arith)
            requires
                delta <= 4_294_967_295,
        ;
    }
    let b = a.after_jump(input).after_walk_dir(input).after_running(input).after_running_time(
        delta,
    );
    assert(b.wf() && b.tuning == p.tuning);
    let c = b.after_skid();
    assert(c.wf() && c.tuning == p.tuning) by {
        if b.skid_starts() {
            lemma_skid_onset_brakes(b);
        }
    }
    let d = c.after_facing();
    let e = d.after_easing(input, delta);
    assert(e.wf() && e.tuning == p.tuning) by {
        lemma_target_speed_range(d, input);
        lemma_scaled_bound(
            EASE_RATE + magnitude(d.vel.x as int),
            delta as int,
            MAGNITUDE_LIMIT as int,
        );
        lemma_easing_never_overshoots(
            d.vel.x as int,
            d.target_x_vel_spec(input),
            d.ease_step(delta),
        );
    }
    let f = e.after_integration(delta);
    assert(f.wf() && f.tuning == p.tuning);
    assert(f == p.after_motion(delta, input));
}

/// The start of a skid never raises the horizontal speed and lowers it
/// whenever the character moves faster than it walks; it never leaves the
/// running time above the start of the ramp.
pub proof fn lemma_skid_onset_brakes(p: Player)
    requires
        p.wf(),
        p.skid_starts(),
    ensures
        250_000 <= p.skid_factor() <= 1_000_000,
        p.after_skid().skidding,
        magnitude(p.after_skid().vel.x as int) <= magnitude(p.vel.x as int),
        magnitude(p.vel.x as int) > p.tuning.walk_speed ==> magnitude(p.after_skid().vel.x as int)
            < magnitude(p.vel.x as int),
        magnitude(p.vel.x as int) <= p.tuning.walk_speed ==> p.after_skid().vel.x == p.vel.x,
        p.after_skid().running_time <= p.tuning.run_lerp_beg_time,
        p.after_skid().running_time <= p.running_time,
{
    let speed = magnitude(p.vel.x as int);
    let w = p.tuning.walk_speed as int;
    let r = p.tuning.run_end_speed as int;
    let num = (speed - w) * (500_000 - 1_000_000);
    lemma_scaled_shrinks(p.vel.x as int, p.skid_factor());
    if speed > w {
        assert(num < 0) by (nonlinear_arith)
            requires
                speed > w,
                num == (speed - w) * (500_000 - 1_000_000),
        ;
        vstd::arithmetic::div_mod::lemma_fundamental_div_mod(num, r - w);
        assert(num / (r - w) < 0) by (nonlinear_arith)
            requires
                num < 0,
                r - w > 0,
                num == (r - w) * (num / (r - w)) + num % (r - w),
                0 <= num % (r - w),
        ;
    } else {
        assert(num >= 0) by (nonlinear_arith)
            requires
                speed <= w,
                num == (speed - w) * (500_000 - 1_000_000),
        ;
        vstd::arithmetic::div_mod::lemma_fundamental_div_mod(num, r - w);
        assert(num / (r - w) >= 0) by (nonlinear_arith)
            requires
                num >= 0,
                r - w > 0,
                num == (r - w) * (num / (r - w)) + num % (r - w),
                num % (r - w) < r - w,
        ;
    }
}

/// The target speed is the walking speed without the run action. With it, it
/// lies within the run's speeds, is the lowest of them until the ramp starts
/// and the highest once the ramp has ended.
pub proof fn lemma_target_speed_range(p: Player, input: Input)
    requires
        p.wf(),
    ensures
        !input.run_held ==> p.target_speed(input) == p.tuning.walk_speed,
        input.run_held ==> p.tuning.run_beg_speed <= p.target_speed(input)
            <= p.tuning.run_end_speed,
        input.run_held && p.running_time <= p.tuning.run_lerp_beg_time ==> p.target_speed(input)
            == p.tuning.run_beg_speed,
        input.run_held && p.running_time == p.tuning.run_lerp_end_time ==> p.target_speed(input)
            == p.tuning.run_end_speed,
        magnitude(p.target_x_vel_spec(input)) <= p.tuning.run_end_speed,
{
    let t = p.running_time as int;
    let t0 = p.tuning.run_lerp_beg_time as int;
    let t1 = p.tuning.run_lerp_end_time as int;
    let s0 = p.tuning.run_beg_speed as int;
    let s1 = p.tuning.run_end_speed as int;
    let num = (t - t0) * (s1 - s0);
    vstd::arithmetic::div_mod::lemma_fundamental_div_mod(num, t1 - t0);
    if t <= t0 {
        assert(num <= 0) by (nonlinear_arith)
            requires
                t <= t0,
                s0 <= s1,
                num == (t - t0) * (s1 - s0),
        ;
        assert(num / (t1 - t0) <= 0) by (nonlinear_arith)
            requires
                num <= 0,
                t1 - t0 > 0,
                num == (t1 - t0) * (num / (t1 - t0)) + num % (t1 - t0),
                0 <= num % (t1 - t0),
        ;
    }
    if t == t1 {
        assert(num == (s1 - s0) * (t1 - t0) + 0) by (nonlinear_arith)
            requires
                t == t1,
                num == (t - t0) * (s1 - s0),
        ;
        vstd::arithmetic::div_mod::lemma_fundamental_div_mod_converse(num, t1 - t0, s1 - s0, 0);
    }
}

} // verus!
