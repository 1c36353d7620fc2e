//! Ultrasonic ranging driver.
//!
//! One measurement triggers the sensor, lets edge interrupts timestamp the
//! rising and the falling edge of the echo pulse against the monotonic
//! clock, and converts the elapsed ticks to a distance with a
//! temperature-compensated speed of sound. The phase of the measurement in
//! flight and the two captured timestamps live in a [`RangingShared`],
//! written by the edge interrupt and read by the polling loop; at most one
//! measurement may be in flight, and every attempt — success or failure —
//! returns the state to idle.
//!
//! The busy-wait loop itself performs pin writes and microsecond delays and
//! so runs outside this crate; each of its decisions is a function here.

use vstd::prelude::*;

verus! {

/// Tick rate of the clock the ranging driver timestamps with, in Hz.
pub const RANGING_TICKS_PER_SECOND: u32 = 40_000;

/// Rated maximum range of the sensor, in millimetres.
pub const MAX_RANGE_MM: u32 = 4_000;

/// Failures of a single ranging attempt. Non-fatal: the caller is expected
/// to retry on the next scheduled measurement.
#[derive(Clone, Copy, Debug, PartialEq, Eq, Structural)]
pub enum HcSr04Error {
    /// The echo timestamp was not strictly after the trigger timestamp.
    InvalidResult,
    /// No falling echo edge was captured before the timeout.
    NoEcho,
    /// No rising echo edge was captured before the timeout.
    NoTrigger,
}

/// Phase of the measurement in flight, shared with the edge interrupt.
#[derive(Clone, Copy, Debug, PartialEq, Eq, Structural)]
pub enum HcSr04State {
    Idle,
    Triggered,
    Measuring,
}

/// The phase a stored state code stands for; unknown codes read as idle.
pub open spec fn state_from_code(value: u8) -> HcSr04State {
    if value == 1 {
        HcSr04State::Triggered
    } else if value == 2 {
        HcSr04State::Measuring
    } else {
        HcSr04State::Idle
    }
}

impl From<u8> for HcSr04State {
    /// Decode a phase from the byte an interrupt-shared cell stores.
    fn from(value: u8) -> (r: HcSr04State)
        ensures
            r == state_from_code(value),
    {
        match value {
            1 => HcSr04State::Triggered,
            2 => HcSr04State::Measuring,
            _ => HcSr04State::Idle,
        }
    }
}

impl vstd::std_specs::convert::FromSpecImpl<u8> for HcSr04State {
    open spec fn obeys_from_spec() -> bool {
        true
    }

    open spec fn from_spec(v: u8) -> HcSr04State {
        state_from_code(v)
    }
}

/// The cells shared between the edge interrupt and the polling loop: the
/// phase of the measurement in flight and the two captured timestamps. A
/// timestamp of zero means the edge has not been captured.
pub struct RangingShared {
    pub state: HcSr04State,
    pub trigger_time: u32,
    pub echo_time: u32,
}

impl RangingShared {
    pub fn new() -> (s: RangingShared)
        ensures
            s.state is Idle,
            s.trigger_time == 0,
            s.echo_time == 0,
    {
        RangingShared { state: HcSr04State::Idle, trigger_time: 0, echo_time: 0 }
    }
}

/// The echo pin's edge interrupt: while a measurement waits for its rising
/// edge, the clock reading becomes the trigger timestamp; while it waits
/// for the falling edge, the reading becomes the echo timestamp. Any other
/// phase ignores the edge, which defends against spurious late edges after
/// a timeout already ended the measurement.
pub fn echo_edge(shared: &mut RangingShared, now: u32)
    ensures
        old(shared).state is Triggered ==> *final(shared) == (RangingShared {
            trigger_time: now,
            ..*old(shared)
        }),
        old(shared).state is Measuring ==> *final(shared) == (RangingShared {
            echo_time: now,
            ..*old(shared)
        }),
        old(shared).state is Idle ==> *final(shared) == *old(shared),
{
    match shared.state {
        HcSr04State::Triggered => {
            shared.trigger_time = now;
        },
        HcSr04State::Measuring => {
            shared.echo_time = now;
        },
        HcSr04State::Idle => {},
    }
}

/// What one pass of the polling loop decided: whether to re-arm the edge
/// interrupt for the falling edge, and whether the wait is over.
#[derive(Clone, Copy, Debug, PartialEq, Eq, Structural)]
pub struct PollOutcome {
    pub arm_falling: bool,
    pub finished: bool,
}

/// The ranging sensor: its trigger pulse timings, the speed of sound
/// compensated for the ambient temperature at construction, and the
/// timeout derived from it and the rated range.
pub struct HcSr04 {
    pub trigger_time_us: u32,
    pub wait_time_us: u32,
    pub speed_of_sound_mm_s: u32,
    pub timeout_ticks: u32,
}

impl HcSr04 {
    /// Construct for an ambient temperature in degrees Celsius. The speed
    /// of sound is 331 m/s plus 0.606 m/s per degree, kept in mm/s; the
    /// timeout spans the round trip at the rated range twice over.
    pub fn new(temperature_c: i16) -> (s: HcSr04)
        requires
            temperature_c >= -273,
        ensures
            s.speed_of_sound_mm_s == 331_000 + 606 * temperature_c,
            s.speed_of_sound_mm_s > 0,
            s.timeout_ticks == (2 * MAX_RANGE_MM) * (2 * RANGING_TICKS_PER_SECOND) / (331_000
                + 606 * temperature_c),
            s.trigger_time_us == 10,
            s.wait_time_us == 10,
    {
        let speed: u32 = (331_000i32 + 606i32 * temperature_c as i32) as u32;
        let round_trip_factor: u32 = (2 * MAX_RANGE_MM) * (2 * RANGING_TICKS_PER_SECOND);
        let timeout: u32 = round_trip_factor / speed;
        HcSr04 {
            trigger_time_us: 10,
            wait_time_us: 10,
            speed_of_sound_mm_s: speed,
            timeout_ticks: timeout,
        }
    }

    /// The wait for this poll has outlived the sensor's rated range.
    pub open spec fn poll_times_out(self, start: int, now: int) -> bool {
        now - start > self.timeout_ticks
    }

    /// The rising edge has been captured while the measurement still waits
    /// for it, so the interrupt must be re-armed for the falling edge.
    pub open spec fn poll_arms_falling(shared: RangingShared) -> bool {
        shared.trigger_time > 0 && shared.state is Triggered
    }

    /// Both edges have been captured, so the wait is over.
    pub open spec fn poll_completes(shared: RangingShared) -> bool {
        shared.trigger_time > 0 && shared.echo_time > 0 && (shared.state is Triggered
            || shared.state is Measuring)
    }

    /// Start a measurement: clear both timestamps and mark the shared state
    /// as waiting for the rising echo edge. Starting while a measurement is
    /// already in flight is a programming fault, not a recoverable error,
    /// so an idle state is demanded of the caller, who then performs the
    /// trigger pulse and arms the rising-edge interrupt.
    pub fn begin_measurement(&self, shared: &mut RangingShared)
        requires
            old(shared).state is Idle,
        ensures
            *final(shared) == (RangingShared {
                state: HcSr04State::Triggered,
                trigger_time: 0,
                echo_time: 0,
            }),
    {
        shared.trigger_time = 0;
        shared.echo_time = 0;
        shared.state = HcSr04State::Triggered;
    }

    /// One pass of the bounded busy-wait: first check the clock against the
    /// timeout — an expired wait changes nothing and ends the loop. Then,
    /// once the rising edge has been captured, advance to measuring and ask
    /// the caller to re-arm the interrupt for the falling edge; once both
    /// timestamps are captured, end the loop.
    pub fn measure_poll(&self, shared: &mut RangingShared, start: u32, now: u32) -> (o:
        PollOutcome)
        requires
            start <= now,
        ensures
            self.poll_times_out(start as int, now as int) ==> (*final(shared) == *old(shared)
                && o.finished && !o.arm_falling),
            !self.poll_times_out(start as int, now as int) ==> (o.arm_falling
                == Self::poll_arms_falling(*old(shared))
                && final(shared).state == (if Self::poll_arms_falling(*old(shared)) {
                    HcSr04State::Measuring
                } else {
                    old(shared).state
                })
                && final(shared).trigger_time == old(shared).trigger_time
                && final(shared).echo_time == old(shared).echo_time
                && o.finished == Self::poll_completes(*old(shared))),
    {
        let elapsed: u32 = now - start;
        if elapsed > self.timeout_ticks {
            return PollOutcome { arm_falling: false, finished: true };
        }
        let trigger: u32 = shared.trigger_time;
        let mut arm: bool = false;
        if trigger > 0 && shared.state == HcSr04State::Triggered {
            shared.state = HcSr04State::Measuring;
            arm = true;
        }
        let echo: u32 = shared.echo_time;
        let finished: bool = trigger > 0 && echo > 0 && shared.state == HcSr04State::Measuring;
        PollOutcome { arm_falling: arm, finished }
    }

    /// End a measurement attempt, normally or on timeout: the shared state
    /// returns to idle, and the captured timestamps decide the outcome. No
    /// rising edge yields `NoTrigger`; no falling edge yields `NoEcho`; an
    /// echo timestamp not strictly after the trigger timestamp yields
    /// `InvalidResult`, never a wrapped duration; otherwise the elapsed
    /// ticks between the two edges are returned.
    pub fn finish_measurement(&self, shared: &mut RangingShared) -> (r: Result<u32, HcSr04Error>)
        ensures
            final(shared).state is Idle,
            final(shared).trigger_time == old(shared).trigger_time,
            final(shared).echo_time == old(shared).echo_time,
            old(shared).trigger_time == 0 ==> (r matches Err(e) && e == HcSr04Error::NoTrigger),
            old(shared).trigger_time > 0 && old(shared).echo_time == 0 ==> (r matches Err(e) && e
                == HcSr04Error::NoEcho),
            old(shared).trigger_time > 0 && old(shared).echo_time > 0 && old(shared).echo_time
                <= old(shared).trigger_time ==> (r matches Err(e) && e
                == HcSr04Error::InvalidResult),
            old(shared).trigger_time > 0 && old(shared).echo_time > old(shared).trigger_time ==> (
            r matches Ok(d) && d == old(shared).echo_time - old(shared).trigger_time),
    {
        shared.state = HcSr04State::Idle;
        let trigger: u32 = shared.trigger_time;
        let echo: u32 = shared.echo_time;
        if trigger == 0 {
            return Err(HcSr04Error::NoTrigger);
        }
        if echo == 0 {
            return Err(HcSr04Error::NoEcho);
        }
        if echo <= trigger {
            return Err(HcSr04Error::InvalidResult);
        }
        Ok(echo - trigger)
    }

    /// Convert the elapsed ticks of a successful attempt to a distance in
    /// millimetres: the sound travelled out and back, so half the distance
    /// covered at the compensated speed in the elapsed time.
    pub fn measure_distance(&self, elapsed_ticks: u32) -> (d: u64)
        ensures
            d == self.speed_of_sound_mm_s * elapsed_ticks / (2 * RANGING_TICKS_PER_SECOND),
    {
        proof {
            assert(self.speed_of_sound_mm_s * elapsed_ticks <= 0xFFFF_FFFF * 0xFFFF_FFFF)
                by (nonlinear_arith)
                requires
                    self.speed_of_sound_mm_s <= 0xFFFF_FFFF,
                    elapsed_ticks <= 0xFFFF_FFFF,
            ;
        }
        (self.speed_of_sound_mm_s as u64 * elapsed_ticks as u64) / (2 * RANGING_TICKS_PER_SECOND
            as u64)
    }
}

} // verus!
