//! Type-gated turret construction.
//!
//! A turret needs a yaw, a pitch and a roll actuator and a ranging-sensor
//! wired, in any order but all before first use. Each slot of the builder
//! is a distinct marker type while missing and a wrapper around the wired
//! component once filled, so `build` only exists on a fully wired builder
//! and the turret can never exist partially constructed. Each actuator
//! step can fail as registration does, which aborts construction.

use vstd::prelude::*;

use super::Turret;
use crate::hc_sr04::HcSr04;
use crate::servo::{fresh_slot, set_attached, Servo, ServoAttached, ServoBank, ServoError};
use crate::servo::{ServoDetached, ServoSlot, MAX_SERVOS};

verus! {

/// Ambient temperature, in degrees Celsius, the ranging driver is built
/// for.
pub const AMBIENT_TEMPERATURE_C: i16 = 23;

/// Marker: no yaw actuator wired yet.
pub struct NoYaw;

/// The wired yaw actuator.
pub struct Yaw(pub Servo<ServoAttached>);

/// Marker: no pitch actuator wired yet.
pub struct NoPitch;

/// The wired pitch actuator.
pub struct Pitch(pub Servo<ServoAttached>);

/// Marker: no roll actuator wired yet.
pub struct NoRoll;

/// The wired roll actuator.
pub struct Roll(pub Servo<ServoAttached>);

/// Marker: no ranging sensor wired yet.
pub struct NoRangeFinder;

/// The wired ranging driver.
pub struct RangeFinder(pub HcSr04);

/// The slot of each turret component: a marker type while missing, the
/// component once wired.
pub struct Builder<Yaw, Pitch, Roll, RangeFinder> {
    pub yaw: Yaw,
    pub pitch: Pitch,
    pub roll: Roll,
    pub range_finder: RangeFinder,
}

/// The slot a builder step registers and attaches: a fresh slot, already
/// part of the pulse train.
pub open spec fn attached_slot(pin: u8) -> ServoSlot {
    set_attached(fresh_slot(pin), true)
}

/// A freshly attached handle for the slot at `index`, carrying the global
/// pulse-width limits.
pub open spec fn fresh_handle(s: Servo<ServoAttached>, index: int) -> bool {
    s.index == index && s.min == 0 && s.max == 0
}

impl<P, R, RF> Builder<NoYaw, P, R, RF> {
    /// Wire the yaw actuator: register it on the given pin and attach it
    /// with the global limits. Registration failures abort construction.
    pub fn yaw(self, bank: &mut ServoBank, pin: u8) -> (r: Result<Builder<Yaw, P, R, RF>, ServoError>)
        requires
            old(bank).wf(),
        ensures
            final(bank).wf(),
            final(bank).channel == old(bank).channel,
            final(bank).timer_donated == old(bank).timer_donated,
            !old(bank).timer_donated ==> (r matches Err(e) && e == ServoError::NotInitialized
                && final(bank).slots@ == old(bank).slots@),
            old(bank).timer_donated && old(bank).slots@.len() >= MAX_SERVOS ==> (r matches Err(e)
                && e == ServoError::TooManyServos && final(bank).slots@ == old(bank).slots@),
            old(bank).timer_donated && old(bank).slots@.len() < MAX_SERVOS ==> (r matches Ok(b)
                && fresh_handle(b.yaw.0, old(bank).slots@.len() as int) && b.pitch == self.pitch
                && b.roll == self.roll && b.range_finder == self.range_finder
                && final(bank).slots@ == old(bank).slots@.push(attached_slot(pin))
                && final(bank).timer_enabled),
    {
        let Builder { pitch, roll, range_finder, .. } = self;
        let ghost slots0 = bank.slots@;
        let servo: Servo<ServoDetached> = match Servo::<ServoDetached>::new(bank, pin) {
            Ok(s) => s,
            Err(e) => {
                return Err(e);
            },
        };
        let attached: Servo<ServoAttached> = servo.attach(bank);
        proof {
            assert(bank.slots@ =~= slots0.push(attached_slot(pin)));
        }
        Ok(Builder { yaw: Yaw(attached), pitch, roll, range_finder })
    }
}

impl<Y, R, RF> Builder<Y, NoPitch, R, RF> {
    /// Wire the pitch actuator, as the yaw step does.
    pub fn pitch(self, bank: &mut ServoBank, pin: u8) -> (r: Result<
        Builder<Y, Pitch, R, RF>,
        ServoError,
    >)
        requires
            old(bank).wf(),
        ensures
            final(bank).wf(),
            final(bank).channel == old(bank).channel,
            final(bank).timer_donated == old(bank).timer_donated,
            !old(bank).timer_donated ==> (r matches Err(e) && e == ServoError::NotInitialized
                && final(bank).slots@ == old(bank).slots@),
            old(bank).timer_donated && old(bank).slots@.len() >= MAX_SERVOS ==> (r matches Err(e)
                && e == ServoError::TooManyServos && final(bank).slots@ == old(bank).slots@),
            old(bank).timer_donated && old(bank).slots@.len() < MAX_SERVOS ==> (r matches Ok(b)
                && fresh_handle(b.pitch.0, old(bank).slots@.len() as int) && b.yaw == self.yaw
                && b.roll == self.roll && b.range_finder == self.range_finder
                && final(bank).slots@ == old(bank).slots@.push(attached_slot(pin))
                && final(bank).timer_enabled),
    {
        let Builder { yaw, roll, range_finder, .. } = self;
        let ghost slots0 = bank.slots@;
        let servo: Servo<ServoDetached> = match Servo::<ServoDetached>::new(bank, pin) {
            Ok(s) => s,
            Err(e) => {
                return Err(e);
            },
        };
        let attached: Servo<ServoAttached> = servo.attach(bank);
        proof {
            assert(bank.slots@ =~= slots0.push(attached_slot(pin)));
        }
        Ok(Builder { yaw, pitch: Pitch(attached), roll, range_finder })
    }
}

impl<Y, P, RF> Builder<Y, P, NoRoll, RF> {
    /// Wire the roll actuator, as the yaw step does.
    pub fn roll(self, bank: &mut ServoBank, pin: u8) -> (r: Result<
        Builder<Y, P, Roll, RF>,
        ServoError,
    >)
        requires
            old(bank).wf(),
        ensures
            final(bank).wf(),
            final(bank).channel == old(bank).channel,
            final(bank).timer_donated == old(bank).timer_donated,
            !old(bank).timer_donated ==> (r matches Err(e) && e == ServoError::NotInitialized
                && final(bank).slots@ == old(bank).slots@),
            old(bank).timer_donated && old(bank).slots@.len() >= MAX_SERVOS ==> (r matches Err(e)
                && e == ServoError::TooManyServos && final(bank).slots@ == old(bank).slots@),
            old(bank).timer_donated && old(bank).slots@.len() < MAX_SERVOS ==> (r matches Ok(b)
                && fresh_handle(b.roll.0, old(bank).slots@.len() as int) && b.yaw == self.yaw
                && b.pitch == self.pitch && b.range_finder == self.range_finder
                && final(bank).slots@ == old(bank).slots@.push(attached_slot(pin))
                && final(bank).timer_enabled),
    {
        let Builder { yaw, pitch, range_finder, .. } = self;
        let ghost slots0 = bank.slots@;
        let servo: Servo<ServoDetached> = match Servo::<ServoDetached>::new(bank, pin) {
            Ok(s) => s,
            Err(e) => {
                return Err(e);
            },
        };
        let attached: Servo<ServoAttached> = servo.attach(bank);
        proof {
            assert(bank.slots@ =~= slots0.push(attached_slot(pin)));
        }
        Ok(Builder { yaw, pitch, roll: Roll(attached), range_finder })
    }
}

impl<Y, P, R> Builder<Y, P, R, NoRangeFinder> {
    /// Wire the ranging driver, compensated for the fixed ambient
    /// temperature. This step cannot fail.
    pub fn range_finder(self) -> (r: Builder<Y, P, R, RangeFinder>)
        ensures
            r.yaw == self.yaw,
            r.pitch == self.pitch,
            r.roll == self.roll,
            r.range_finder.0.speed_of_sound_mm_s == 331_000 + 606 * AMBIENT_TEMPERATURE_C,
    {
        let Builder { yaw, pitch, roll, .. } = self;
        let rf: HcSr04 = HcSr04::new(AMBIENT_TEMPERATURE_C);
        Builder { yaw, pitch, roll, range_finder: RangeFinder(rf) }
    }
}

impl Builder<Yaw, Pitch, Roll, RangeFinder> {
    /// Assemble the turret: only callable once every component is wired.
    /// The pitch position starts at the scale's centre region.
    pub fn build(self) -> (t: Turret)
        ensures
            t.yaw == self.yaw.0,
            t.pitch == self.pitch.0,
            t.roll == self.roll.0,
            t.pitch_value == 100,
            t.range_finder == self.range_finder.0,
    {
        Turret {
            yaw: self.yaw.0,
            pitch: self.pitch.0,
            roll: self.roll.0,
            pitch_value: 100,
            range_finder: self.range_finder.0,
        }
    }
}

} // verus!
