//! Turret dispatcher.
//!
//! Three attached actuators — yaw, pitch and roll — and one ranging driver
//! make a turret. A decoded remote command dispatches to a bounded motion
//! sequence: pitch moves step the tracked pitch position within its bounds,
//! yaw spins are open-loop and time-boxed, and a fire command pulses the
//! roll actuator off centre for a fixed duration. Each sequence is returned
//! as a list of [`MotionStep`]s; the caller applies one step at a time with
//! [`Turret::apply_step`] and busy-waits the step's delay, since the delays
//! themselves cannot run here.

pub mod builder;

use vstd::prelude::*;

use crate::hc_sr04::HcSr04;
use crate::ir;
use crate::ir::DecodedCommand;
use crate::servo::{
    servo_min_spec, set_ticks, written_value_ticks, Servo, ServoAttached, ServoBank,
};

verus! {

/// Degrees a single pitch step moves.
pub const PITCH_MOVE_SPEED: i16 = 8;

/// Offset from the stop value that spins the yaw actuator.
pub const YAW_MOVE_SPEED: i16 = 90;

/// Logical value at which the yaw actuator stands still.
pub const YAW_STOP_SPEED: i16 = 90;

/// Offset from the stop value that drives the roll actuator when firing.
pub const ROLL_MOVE_SPEED: i16 = 90;

/// Logical value at which the roll actuator stands still.
pub const ROLL_STOP_SPEED: i16 = 90;

/// Milliseconds a yaw spin is held.
pub const YAW_PRECISION: u16 = 75;

/// Milliseconds a fire pulse is held.
pub const ROLL_PRECISION: u16 = 115;

/// Upper bound of the tracked pitch position.
pub const PITCH_MAX: i16 = 175;

/// Lower bound of the tracked pitch position.
pub const PITCH_MIN: i16 = 10;

/// Which of the turret's actuators a motion step drives.
#[derive(Clone, Copy, Debug, PartialEq, Eq, Structural)]
pub enum Actuator {
    Yaw,
    Pitch,
    Roll,
}

/// One step of a motion sequence: the logical 0–180 value to write, and
/// the busy-wait that follows before the next step.
#[derive(Clone, Copy, Debug, PartialEq, Eq, Structural)]
pub struct MotionStep {
    pub target: Actuator,
    pub value: u8,
    pub delay_ms: u16,
}

/// The turret: its three attached actuator handles, the tracked pitch
/// position — the only persistent motion state — and the ranging driver.
pub struct Turret {
    pub yaw: Servo<ServoAttached>,
    pub pitch: Servo<ServoAttached>,
    pub roll: Servo<ServoAttached>,
    pub pitch_value: i16,
    pub range_finder: HcSr04,
}

/// One upward pitch step: down the scale by the fixed amount, clamped at
/// the lower bound; a position already at or below the bound stands still.
pub open spec fn pitch_step_up(pv: int) -> int {
    if pv > PITCH_MIN {
        if pv - PITCH_MOVE_SPEED < PITCH_MIN {
            PITCH_MIN as int
        } else {
            pv - PITCH_MOVE_SPEED
        }
    } else {
        pv
    }
}

/// One downward pitch step, clamped at the upper bound in the same way.
pub open spec fn pitch_step_down(pv: int) -> int {
    if pv < PITCH_MAX {
        if pv + PITCH_MOVE_SPEED > PITCH_MAX {
            PITCH_MAX as int
        } else {
            pv + PITCH_MOVE_SPEED
        }
    } else {
        pv
    }
}

/// The pitch position after a number of upward steps.
pub open spec fn pitch_after_up(pv: int, n: nat) -> int
    decreases n,
{
    if n == 0 {
        pv
    } else {
        pitch_step_up(pitch_after_up(pv, (n - 1) as nat))
    }
}

/// The pitch position after a number of downward steps.
pub open spec fn pitch_after_down(pv: int, n: nat) -> int
    decreases n,
{
    if n == 0 {
        pv
    } else {
        pitch_step_down(pitch_after_down(pv, (n - 1) as nat))
    }
}

/// The steps a run of upward moves emits: one pitch write per step that
/// actually moved, each followed by the settle delay.
pub open spec fn up_plan(pv: int, n: nat) -> Seq<MotionStep>
    decreases n,
{
    if n == 0 {
        Seq::empty()
    } else {
        let prev = pitch_after_up(pv, (n - 1) as nat);
        let plan = up_plan(pv, (n - 1) as nat);
        if prev > PITCH_MIN {
            plan.push(
                MotionStep { target: Actuator::Pitch, value: pitch_step_up(prev) as u8, delay_ms: 50 },
            )
        } else {
            plan
        }
    }
}

/// The steps a run of downward moves emits.
pub open spec fn down_plan(pv: int, n: nat) -> Seq<MotionStep>
    decreases n,
{
    if n == 0 {
        Seq::empty()
    } else {
        let prev = pitch_after_down(pv, (n - 1) as nat);
        let plan = down_plan(pv, (n - 1) as nat);
        if prev < PITCH_MAX {
            plan.push(
                MotionStep {
                    target: Actuator::Pitch,
                    value: pitch_step_down(prev) as u8,
                    delay_ms: 50,
                },
            )
        } else {
            plan
        }
    }
}

/// A repeated open-loop pulse: drive the target off its stop value for the
/// hold time, then back to the stop value with a short settle, n times.
pub open spec fn pulse_plan(target: Actuator, move_value: u8, stop_value: u8, hold_ms: u16, n: nat)
    -> Seq<MotionStep>
    decreases n,
{
    if n == 0 {
        Seq::empty()
    } else {
        pulse_plan(target, move_value, stop_value, hold_ms, (n - 1) as nat).push(
            MotionStep { target, value: move_value, delay_ms: hold_ms },
        ).push(MotionStep { target, value: stop_value, delay_ms: 5 })
    }
}

impl Turret {
    /// The tracked pitch position stays clamped inside its bounds.
    pub open spec fn pitch_wf(self) -> bool {
        PITCH_MIN <= self.pitch_value <= PITCH_MAX
    }

    /// The actuator handles name slots of the bank and carry workable
    /// limits.
    pub open spec fn handles_wf(self, bank: ServoBank) -> bool {
        &&& self.yaw.index < bank.slots@.len()
        &&& self.pitch.index < bank.slots@.len()
        &&& self.roll.index < bank.slots@.len()
        &&& self.yaw.limits_wf() && 0 <= servo_min_spec(self.yaw.min as int)
        &&& self.pitch.limits_wf() && 0 <= servo_min_spec(self.pitch.min as int)
        &&& self.roll.limits_wf() && 0 <= servo_min_spec(self.roll.min as int)
    }

    /// Everything but the tracked pitch position is unchanged.
    pub open spec fn same_but_pitch_value(self, other: Turret) -> bool {
        &&& self.yaw == other.yaw
        &&& self.pitch == other.pitch
        &&& self.roll == other.roll
        &&& self.range_finder == other.range_finder
    }

    /// Step the pitch position up (toward the scale's low end) the given
    /// number of times, clamping at the lower bound. A step already at the
    /// bound moves nothing and emits no write.
    pub fn move_up(&mut self, moves: u32) -> (plan: Vec<MotionStep>)
        requires
            old(self).pitch_wf(),
        ensures
            final(self).pitch_wf(),
            final(self).same_but_pitch_value(*old(self)),
            final(self).pitch_value == pitch_after_up(old(self).pitch_value as int, moves as nat),
            plan@ == up_plan(old(self).pitch_value as int, moves as nat),
            old(self).pitch_value <= PITCH_MIN ==> final(self).pitch_value == old(
                self,
            ).pitch_value && plan@.len() == 0,
    {
        let mut plan: Vec<MotionStep> = Vec::new();
        let mut i: u32 = 0;
        while i < moves
            invariant
                0 <= i <= moves,
                self.pitch_wf(),
                self.same_but_pitch_value(*old(self)),
                self.pitch_value == pitch_after_up(old(self).pitch_value as int, i as nat),
                plan@ == up_plan(old(self).pitch_value as int, i as nat),
            decreases moves - i,
        {
            if self.pitch_value > PITCH_MIN {
                let stepped: i16 = self.pitch_value - PITCH_MOVE_SPEED;
                self.pitch_value = if stepped < PITCH_MIN {
                    PITCH_MIN
                } else {
                    stepped
                };
                plan.push(
                    MotionStep {
                        target: Actuator::Pitch,
                        value: self.pitch_value as u8,
                        delay_ms: 50,
                    },
                );
            }
            i = i + 1;
        }
        proof {
            if old(self).pitch_value <= PITCH_MIN {
                lemma_up_noop(old(self).pitch_value as int, moves as nat);
            }
        }
        plan
    }

    /// Step the pitch position down (toward the scale's high end) the
    /// given number of times, clamping at the upper bound.
    pub fn move_down(&mut self, moves: u32) -> (plan: Vec<MotionStep>)
        requires
            old(self).pitch_wf(),
        ensures
            final(self).pitch_wf(),
            final(self).same_but_pitch_value(*old(self)),
            final(self).pitch_value == pitch_after_down(
                old(self).pitch_value as int,
                moves as nat,
            ),
            plan@ == down_plan(old(self).pitch_value as int, moves as nat),
            old(self).pitch_value >= PITCH_MAX ==> final(self).pitch_value == old(
                self,
            ).pitch_value && plan@.len() == 0,
    {
        let mut plan: Vec<MotionStep> = Vec::new();
        let mut i: u32 = 0;
        while i < moves
            invariant
                0 <= i <= moves,
                self.pitch_wf(),
                self.same_but_pitch_value(*old(self)),
                self.pitch_value == pitch_after_down(old(self).pitch_value as int, i as nat),
                plan@ == down_plan(old(self).pitch_value as int, i as nat),
            decreases moves - i,
        {
            if self.pitch_value < PITCH_MAX {
                let stepped: i16 = self.pitch_value + PITCH_MOVE_SPEED;
                self.pitch_value = if stepped > PITCH_MAX {
                    PITCH_MAX
                } else {
                    stepped
                };
                plan.push(
                    MotionStep {
                        target: Actuator::Pitch,
                        value: self.pitch_value as u8,
                        delay_ms: 50,
                    },
                );
            }
            i = i + 1;
        }
        proof {
            if old(self).pitch_value >= PITCH_MAX {
                lemma_down_noop(old(self).pitch_value as int, moves as nat);
            }
        }
        plan
    }

    /// Spin the yaw actuator leftward: hold it past the stop value for the
    /// fixed spin time, then stop — open-loop and time-boxed, once per
    /// move.
    pub fn move_left(&mut self, moves: u32) -> (plan: Vec<MotionStep>)
        ensures
            *final(self) == *old(self),
            plan@ == pulse_plan(
                Actuator::Yaw,
                (YAW_STOP_SPEED + YAW_MOVE_SPEED) as u8,
                YAW_STOP_SPEED as u8,
                YAW_PRECISION,
                moves as nat,
            ),
    {
        let mut plan: Vec<MotionStep> = Vec::new();
        let mut i: u32 = 0;
        while i < moves
            invariant
                0 <= i <= moves,
                *self == *old(self),
                plan@ == pulse_plan(
                    Actuator::Yaw,
                    (YAW_STOP_SPEED + YAW_MOVE_SPEED) as u8,
                    YAW_STOP_SPEED as u8,
                    YAW_PRECISION,
                    i as nat,
                ),
            decreases moves - i,
        {
            plan.push(
                MotionStep {
                    target: Actuator::Yaw,
                    value: (YAW_STOP_SPEED + YAW_MOVE_SPEED) as u8,
                    delay_ms: YAW_PRECISION,
                },
            );
            plan.push(
                MotionStep { target: Actuator::Yaw, value: YAW_STOP_SPEED as u8, delay_ms: 5 },
            );
            i = i + 1;
        }
        plan
    }

    /// Spin the yaw actuator rightward, symmetric to a left move.
    pub fn move_right(&mut self, moves: u32) -> (plan: Vec<MotionStep>)
        ensures
            *final(self) == *old(self),
            plan@ == pulse_plan(
                Actuator::Yaw,
                (YAW_STOP_SPEED - YAW_MOVE_SPEED) as u8,
                YAW_STOP_SPEED as u8,
                YAW_PRECISION,
                moves as nat,
            ),
    {
        let mut plan: Vec<MotionStep> = Vec::new();
        let mut i: u32 = 0;
        while i < moves
            invariant
                0 <= i <= moves,
                *self == *old(self),
                plan@ == pulse_plan(
                    Actuator::Yaw,
                    (YAW_STOP_SPEED - YAW_MOVE_SPEED) as u8,
                    YAW_STOP_SPEED as u8,
                    YAW_PRECISION,
                    i as nat,
                ),
            decreases moves - i,
        {
            plan.push(
                MotionStep {
                    target: Actuator::Yaw,
                    value: (YAW_STOP_SPEED - YAW_MOVE_SPEED) as u8,
                    delay_ms: YAW_PRECISION,
                },
            );
            plan.push(
                MotionStep { target: Actuator::Yaw, value: YAW_STOP_SPEED as u8, delay_ms: 5 },
            );
            i = i + 1;
        }
        plan
    }

    /// Fire once: pulse the roll actuator off centre for the fixed fire
    /// time, then return it to the stop value.
    pub fn fire(&mut self) -> (plan: Vec<MotionStep>)
        ensures
            *final(self) == *old(self),
            plan@ == pulse_plan(
                Actuator::Roll,
                (ROLL_STOP_SPEED - ROLL_MOVE_SPEED) as u8,
                ROLL_STOP_SPEED as u8,
                ROLL_PRECISION,
                1,
            ),
    {
        proof {
            reveal_with_fuel(pulse_plan, 2);
        }
        let mut plan: Vec<MotionStep> = Vec::new();
        plan.push(
            MotionStep {
                target: Actuator::Roll,
                value: (ROLL_STOP_SPEED - ROLL_MOVE_SPEED) as u8,
                delay_ms: ROLL_PRECISION,
            },
        );
        plan.push(MotionStep { target: Actuator::Roll, value: ROLL_STOP_SPEED as u8, delay_ms: 5 });
        plan
    }

    /// Fire a burst: as one fire, but held six times as long.
    pub fn fire_all(&mut self) -> (plan: Vec<MotionStep>)
        ensures
            *final(self) == *old(self),
            plan@ == pulse_plan(
                Actuator::Roll,
                (ROLL_STOP_SPEED - ROLL_MOVE_SPEED) as u8,
                ROLL_STOP_SPEED as u8,
                (6 * ROLL_PRECISION) as u16,
                1,
            ),
    {
        proof {
            reveal_with_fuel(pulse_plan, 2);
        }
        let mut plan: Vec<MotionStep> = Vec::new();
        plan.push(
            MotionStep {
                target: Actuator::Roll,
                value: (ROLL_STOP_SPEED - ROLL_MOVE_SPEED) as u8,
                delay_ms: ROLL_PRECISION * 6,
            },
        );
        plan.push(MotionStep { target: Actuator::Roll, value: ROLL_STOP_SPEED as u8, delay_ms: 5 });
        plan
    }

    /// Dispatch one fetched command, if any, to its motion sequence. An
    /// empty mailbox, an unknown code, or a repeat of a fire command moves
    /// nothing; a repeat guards the fire commands against a held key.
    pub fn handle_command(&mut self, cmd: Option<DecodedCommand>) -> (plan: Vec<MotionStep>)
        requires
            old(self).pitch_wf(),
        ensures
            final(self).pitch_wf(),
            final(self).same_but_pitch_value(*old(self)),
            cmd is None ==> final(self).pitch_value == old(self).pitch_value && plan@.len() == 0,
            cmd matches Some(c) ==> {
                &&& c.cmd == ir::UP ==> final(self).pitch_value == pitch_after_up(
                    old(self).pitch_value as int,
                    1,
                ) && plan@ == up_plan(old(self).pitch_value as int, 1)
                &&& c.cmd == ir::DOWN ==> final(self).pitch_value == pitch_after_down(
                    old(self).pitch_value as int,
                    1,
                ) && plan@ == down_plan(old(self).pitch_value as int, 1)
                &&& c.cmd == ir::LEFT ==> final(self).pitch_value == old(self).pitch_value
                    && plan@ == pulse_plan(
                    Actuator::Yaw,
                    (YAW_STOP_SPEED + YAW_MOVE_SPEED) as u8,
                    YAW_STOP_SPEED as u8,
                    YAW_PRECISION,
                    1,
                )
                &&& c.cmd == ir::RIGHT ==> final(self).pitch_value == old(self).pitch_value
                    && plan@ == pulse_plan(
                    Actuator::Yaw,
                    (YAW_STOP_SPEED - YAW_MOVE_SPEED) as u8,
                    YAW_STOP_SPEED as u8,
                    YAW_PRECISION,
                    1,
                )
                &&& c.cmd == ir::OK && !c.repeat ==> final(self).pitch_value == old(
                    self,
                ).pitch_value && plan@ == pulse_plan(
                    Actuator::Roll,
                    (ROLL_STOP_SPEED - ROLL_MOVE_SPEED) as u8,
                    ROLL_STOP_SPEED as u8,
                    ROLL_PRECISION,
                    1,
                )
                &&& c.cmd == ir::OK && c.repeat ==> final(self).pitch_value == old(
                    self,
                ).pitch_value && plan@.len() == 0
                &&& c.cmd == ir::STAR && !c.repeat ==> final(self).pitch_value == old(
                    self,
                ).pitch_value && plan@ == pulse_plan(
                    Actuator::Roll,
                    (ROLL_STOP_SPEED - ROLL_MOVE_SPEED) as u8,
                    ROLL_STOP_SPEED as u8,
                    (6 * ROLL_PRECISION) as u16,
                    1,
                )
                &&& c.cmd == ir::STAR && c.repeat ==> final(self).pitch_value == old(
                    self,
                ).pitch_value && plan@.len() == 0
                &&& c.cmd != ir::UP && c.cmd != ir::DOWN && c.cmd != ir::LEFT && c.cmd != ir::RIGHT
                    && c.cmd != ir::OK && c.cmd != ir::STAR ==> final(self).pitch_value == old(
                    self,
                ).pitch_value && plan@.len() == 0
            },
    {
        if let Some(c) = cmd {
            if c.cmd == ir::UP {
                self.move_up(1)
            } else if c.cmd == ir::DOWN {
                self.move_down(1)
            } else if c.cmd == ir::LEFT {
                self.move_left(1)
            } else if c.cmd == ir::RIGHT {
                self.move_right(1)
            } else if c.cmd == ir::OK {
                if !c.repeat {
                    self.fire()
                } else {
                    Vec::new()
                }
            } else if c.cmd == ir::STAR {
                if !c.repeat {
                    self.fire_all()
                } else {
                    Vec::new()
                }
            } else {
                Vec::new()
            }
        } else {
            Vec::new()
        }
    }

    /// Apply one step of a motion sequence: write the step's value to its
    /// actuator's slot. The caller busy-waits the step's delay afterwards.
    pub fn apply_step(&self, bank: &mut ServoBank, step: &MotionStep)
        requires
            old(bank).wf(),
            self.handles_wf(*old(bank)),
        ensures
            final(bank).wf(),
            final(bank).channel == old(bank).channel,
            final(bank).timer_donated == old(bank).timer_donated,
            final(bank).timer_enabled == old(bank).timer_enabled,
            step.target is Yaw ==> final(bank).slots@ == old(bank).slots@.update(
                self.yaw.index as int,
                set_ticks(
                    old(bank).slots@[self.yaw.index as int],
                    written_value_ticks(
                        self.yaw.min as int,
                        self.yaw.max as int,
                        step.value as int,
                    ) as u16,
                ),
            ),
            step.target is Pitch ==> final(bank).slots@ == old(bank).slots@.update(
                self.pitch.index as int,
                set_ticks(
                    old(bank).slots@[self.pitch.index as int],
                    written_value_ticks(
                        self.pitch.min as int,
                        self.pitch.max as int,
                        step.value as int,
                    ) as u16,
                ),
            ),
            step.target is Roll ==> final(bank).slots@ == old(bank).slots@.update(
                self.roll.index as int,
                set_ticks(
                    old(bank).slots@[self.roll.index as int],
                    written_value_ticks(
                        self.roll.min as int,
                        self.roll.max as int,
                        step.value as int,
                    ) as u16,
                ),
            ),
    {
        match step.target {
            Actuator::Yaw => self.yaw.write(bank, step.value),
            Actuator::Pitch => self.pitch.write(bank, step.value),
            Actuator::Roll => self.roll.write(bank, step.value),
        }
    }

    /// The ranging driver.
    pub fn range_finder(&self) -> (r: &HcSr04)
        ensures
            r == self.range_finder,
    {
        &self.range_finder
    }

    /// The ranging driver, mutably.
    pub fn range_finder_mut(&mut self) -> (r: &mut HcSr04)
        ensures
            *r == old(self).range_finder,
            *final(self) == (Turret { range_finder: *final(r), ..*old(self) }),
    {
        &mut self.range_finder
    }

    /// A fresh builder with no component wired yet.
    pub fn builder() -> (b: builder::Builder<
        builder::NoYaw,
        builder::NoPitch,
        builder::NoRoll,
        builder::NoRangeFinder,
    >) {
        builder::Builder {
            yaw: builder::NoYaw,
            pitch: builder::NoPitch,
            roll: builder::NoRoll,
            range_finder: builder::NoRangeFinder,
        }
    }
}

/// At or below the lower bound, upward steps move nothing and emit no
/// write, however many are asked for.
proof fn lemma_up_noop(pv: int, n: nat)
    requires
        pv <= PITCH_MIN,
    ensures
        pitch_after_up(pv, n) == pv,
        up_plan(pv, n) == Seq::<MotionStep>::empty(),
    decreases n,
{
    if n > 0 {
        lemma_up_noop(pv, (n - 1) as nat);
    }
}

/// At or above the upper bound, downward steps move nothing and emit no
/// write.
proof fn lemma_down_noop(pv: int, n: nat)
    requires
        pv >= PITCH_MAX,
    ensures
        pitch_after_down(pv, n) == pv,
        down_plan(pv, n) == Seq::<MotionStep>::empty(),
    decreases n,
{
    if n > 0 {
        lemma_down_noop(pv, (n - 1) as nat);
    }
}

} // verus!
