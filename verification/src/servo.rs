//! Software servo pulse multiplexer.
//!
//! Up to a fixed number of actuators share one compare-match hardware timer.
//! Each registered actuator owns a slot holding its pin, its pulse width in
//! timer ticks and an attached flag. The compare-match interrupt walks the
//! slots once per refresh frame, driving each attached pin high for exactly
//! its stored number of ticks, then pads the frame with idle time to a
//! constant period.
//!
//! The slot table, the shared channel index and the timer flags live in a
//! [`ServoBank`]; the hardware register writes the interrupt decides on are
//! returned as a [`CompareEvent`] for the caller to apply.

use vstd::prelude::*;

verus! {

/// Fixed capacity of the slot table.
pub const MAX_SERVOS: usize = 12;

/// Refresh frame period in microseconds: every attached actuator receives
/// exactly one pulse per frame.
pub const REFRESH_INTERVAL: u16 = 20_000;

/// Shortest accepted pulse width in microseconds.
pub const MIN_PULSE_WIDTH: i16 = 544;

/// Longest accepted pulse width in microseconds.
pub const MAX_PULSE_WIDTH: i16 = 2400;

/// Neutral pulse width a slot is created with, in microseconds; it is
/// stored converted to timer ticks.
pub const DEFAULT_PULSE_WIDTH: u16 = 1500;

/// Trim offset in microseconds compensating for pin-write delays.
pub const TRIM_DURATION: i16 = 0;

/// Timer input clock cycles per microsecond.
pub const CLOCK_CYCLES_PER_MICROSECOND: u32 = 16_000_000 / 1_000_000;

/// Errors surfaced when registering an actuator.
#[derive(Clone, Copy, Debug, PartialEq, Eq, Structural)]
pub enum ServoError {
    /// The multiplexer's hardware timer has not been handed over yet.
    NotInitialized,
    /// All slots are taken.
    TooManyServos,
}

/// Marker for a handle whose slot is attached to the pulse train.
#[derive(Debug)]
pub struct ServoAttached;

/// Marker for a handle whose slot is registered but not pulsed.
#[derive(Debug)]
pub struct ServoDetached;

/// One registered actuator: its pin, its pulse width in timer ticks, whether
/// it takes part in the pulse train, and the level its pin is being driven
/// to by the multiplexer.
#[derive(Clone, Copy, Debug, PartialEq, Eq, Structural)]
pub struct ServoSlot {
    pub pin: u8,
    pub ticks: u16,
    pub attached: bool,
    pub high: bool,
}

/// The multiplexer's shared state: the slot table, the channel index the
/// interrupt is walking, and the timer ownership and arming flags.
pub struct ServoBank {
    pub slots: Vec<ServoSlot>,
    pub channel: i8,
    pub timer_donated: bool,
    pub timer_enabled: bool,
}

/// A handle to one registered actuator. `index` names its slot; `min` and
/// `max` encode the configured pulse-width limits as quarter-microsecond
/// offsets from the global bounds, as the attach call stores them.
#[derive(Debug)]
pub struct Servo<State> {
    pub index: usize,
    pub min: i16,
    pub max: i16,
    pub state: State,
}

/// Truncating integer division, the semantics of the machine division the
/// executable code performs: the quotient is rounded toward zero.
pub open spec fn div_trunc(x: int, d: int) -> int {
    if x == 0 {
        0
    } else if x > 0 && d > 0 {
        x / d
    } else if x < 0 && d < 0 {
        (x * -1) / (d * -1)
    } else if x < 0 {
        ((x * -1) / d) * -1
    } else {
        (x / (d * -1)) * -1
    }
}

/// Microseconds to timer ticks at the multiplexer's prescale of 8.
pub open spec fn us_to_ticks_spec(us: int) -> int {
    us * CLOCK_CYCLES_PER_MICROSECOND / 8
}

/// Timer ticks back to microseconds.
pub open spec fn ticks_to_us_spec(ticks: int) -> int {
    ticks * 8 / (CLOCK_CYCLES_PER_MICROSECOND as int)
}

/// The lower pulse bound a handle's encoded `min` stands for.
pub open spec fn servo_min_spec(min: int) -> int {
    MIN_PULSE_WIDTH - min * 4
}

/// The upper pulse bound a handle's encoded `max` stands for.
pub open spec fn servo_max_spec(max: int) -> int {
    MAX_PULSE_WIDTH - max * 4
}

/// Clamping to a closed interval.
pub open spec fn clamp_spec(v: int, lo: int, hi: int) -> int {
    if v < lo {
        lo
    } else if v > hi {
        hi
    } else {
        v
    }
}

/// The slot a registration creates: detached, idle, holding the neutral
/// default pulse converted to timer ticks.
pub open spec fn fresh_slot(pin: u8) -> ServoSlot {
    ServoSlot {
        pin,
        ticks: us_to_ticks_spec(DEFAULT_PULSE_WIDTH as int) as u16,
        attached: false,
        high: false,
    }
}

impl ServoBank {
    /// Some slot is attached, so the pulse train is running.
    pub open spec fn any_attached(self) -> bool {
        exists|i: int| 0 <= i < self.slots@.len() && self.slots@[i].attached
    }

    /// The table never outgrows its fixed capacity, the channel index stays
    /// between the frame marker and one past the last slot, and an attached
    /// slot implies an armed timer.
    pub open spec fn wf(self) -> bool {
        &&& self.slots@.len() <= MAX_SERVOS
        &&& -1 <= self.channel <= self.slots@.len()
        &&& (self.any_attached() ==> self.timer_enabled)
    }

    pub fn new() -> (bank: ServoBank)
        ensures
            bank.wf(),
            bank.slots@.len() == 0,
            bank.channel == 0,
            !bank.timer_donated,
            !bank.timer_enabled,
    {
        ServoBank { slots: Vec::new(), channel: 0, timer_donated: false, timer_enabled: false }
    }

    /// Whether any attached slot keeps the pulse timer running.
    pub fn is_timer_active(&self) -> (b: bool)
        ensures
            b == self.any_attached(),
    {
        let mut i: usize = 0;
        while i < self.slots.len()
            invariant
                0 <= i <= self.slots@.len(),
                forall|j: int| 0 <= j < i ==> !self.slots@[j].attached,
            decreases self.slots@.len() - i,
        {
            if self.slots[i].attached {
                return true;
            }
            i = i + 1;
        }
        false
    }

    /// Arm the compare interrupt; the hardware counter is reset alongside.
    pub fn init_timer(&mut self)
        ensures
            *final(self) == (ServoBank { timer_enabled: true, ..*old(self) }),
    {
        self.timer_enabled = true;
    }

    /// Disarm the compare interrupt to stop the pulse train.
    pub fn disable_timer(&mut self)
        ensures
            *final(self) == (ServoBank { timer_enabled: false, ..*old(self) }),
    {
        self.timer_enabled = false;
    }
}

/// Hand the pulse timer to the multiplexer. No actuator can be registered
/// before this has happened.
pub fn donate_tc1(bank: &mut ServoBank)
    ensures
        *final(bank) == (ServoBank { timer_donated: true, ..*old(bank) }),
{
    bank.timer_donated = true;
}

impl<State> Servo<State> {
    /// The handle's encoded limits expand to in-range pulse bounds in the
    /// right order.
    pub open spec fn limits_wf(self) -> bool {
        &&& i16::MIN <= servo_min_spec(self.min as int) <= i16::MAX
        &&& i16::MIN <= servo_max_spec(self.max as int) <= i16::MAX
        &&& servo_min_spec(self.min as int) <= servo_max_spec(self.max as int)
    }

    /// Register a new actuator on the given pin. Fails if the hardware
    /// timer has not been handed over, or — on exactly the registration
    /// after the last free slot was taken, never earlier — when the table
    /// is full. The new slot starts detached, holding the neutral default
    /// pulse in timer ticks.
    pub fn new(bank: &mut ServoBank, pin: u8) -> (r: Result<Servo<ServoDetached>, ServoError>)
        requires
            old(bank).wf(),
        ensures
            final(bank).wf(),
            final(bank).channel == old(bank).channel,
            final(bank).timer_donated == old(bank).timer_donated,
            final(bank).timer_enabled == old(bank).timer_enabled,
            !old(bank).timer_donated ==> (r matches Err(e) && e == ServoError::NotInitialized
                && final(bank).slots@ == old(bank).slots@),
            old(bank).timer_donated && old(bank).slots@.len() >= MAX_SERVOS ==> (r matches Err(e)
                && e == ServoError::TooManyServos && final(bank).slots@ == old(bank).slots@),
            old(bank).timer_donated && old(bank).slots@.len() < MAX_SERVOS ==> (r matches Ok(s)
                && s.index == old(bank).slots@.len() && s.min == 0 && s.max == 0
                && final(bank).slots@ == old(bank).slots@.push(fresh_slot(pin))),
    {
        if !bank.timer_donated {
            return Err(ServoError::NotInitialized);
        }
        let index: usize = bank.slots.len();
        if index >= MAX_SERVOS {
            return Err(ServoError::TooManyServos);
        }
        let ticks: u32 = us_to_ticks(DEFAULT_PULSE_WIDTH as u32);
        bank.slots.push(ServoSlot { pin, ticks: ticks as u16, attached: false, high: false });
        Ok(Servo { index, min: 0, max: 0, state: ServoDetached })
    }

    /// The shortest pulse this handle will write, in microseconds.
    pub fn servo_min(&self) -> (r: i16)
        requires
            self.limits_wf(),
        ensures
            r == servo_min_spec(self.min as int),
    {
        (MIN_PULSE_WIDTH as i32 - self.min as i32 * 4) as i16
    }

    /// The longest pulse this handle will write, in microseconds.
    pub fn servo_max(&self) -> (r: i16)
        requires
            self.limits_wf(),
        ensures
            r == servo_max_spec(self.max as int),
    {
        (MAX_PULSE_WIDTH as i32 - self.max as i32 * 4) as i16
    }

    /// Whether this handle's slot takes part in the pulse train.
    pub fn is_attached(&self, bank: &ServoBank) -> (b: bool)
        requires
            self.index < bank.slots@.len(),
        ensures
            b == bank.slots@[self.index as int].attached,
    {
        bank.slots[self.index].attached
    }
}

/// A slot with its attached flag replaced.
pub open spec fn set_attached(s: ServoSlot, attached: bool) -> ServoSlot {
    ServoSlot { pin: s.pin, ticks: s.ticks, attached, high: s.high }
}

/// A slot with its pulse ticks replaced.
pub open spec fn set_ticks(s: ServoSlot, ticks: u16) -> ServoSlot {
    ServoSlot { pin: s.pin, ticks, attached: s.attached, high: s.high }
}

/// A slot with its driven pin level replaced.
pub open spec fn set_high(s: ServoSlot, high: bool) -> ServoSlot {
    ServoSlot { pin: s.pin, ticks: s.ticks, attached: s.attached, high }
}

/// Convert microseconds to pulse-timer ticks; the timer counts at the
/// oscillator frequency divided by its prescale of 8, so two ticks per
/// microsecond.
pub fn us_to_ticks(us: u32) -> (t: u32)
    requires
        us * CLOCK_CYCLES_PER_MICROSECOND <= u32::MAX,
    ensures
        t == us_to_ticks_spec(us as int),
        t == us * 2,
{
    proof {
        assert(us * CLOCK_CYCLES_PER_MICROSECOND / 8 == us * 2) by (nonlinear_arith)
            requires
                CLOCK_CYCLES_PER_MICROSECOND == 16,
        ;
    }
    (us * CLOCK_CYCLES_PER_MICROSECOND) / 8
}

/// Convert pulse-timer ticks back to microseconds.
pub fn ticks_to_us(ticks: u32) -> (us: u32)
    requires
        ticks * 8 <= u32::MAX,
    ensures
        us == ticks_to_us_spec(ticks as int),
        us == ticks as int / 2,
{
    proof {
        assert(ticks * 8 / (CLOCK_CYCLES_PER_MICROSECOND as int) == ticks as int / 2)
            by (nonlinear_arith)
            requires
                CLOCK_CYCLES_PER_MICROSECOND == 16,
        ;
    }
    (ticks * 8) / CLOCK_CYCLES_PER_MICROSECOND
}

/// Linear interpolation of `value` from one range onto another, with the
/// machine's truncating division.
pub open spec fn map_spec(value: int, from_low: int, from_high: int, to_low: int, to_high: int)
    -> int {
    div_trunc((value - from_low) * (to_high - to_low), from_high - from_low) + to_low
}

/// Re-map a number from one range to another: `from_low` maps to `to_low`,
/// `from_high` to `to_high`, values in between proportionally.
pub fn map(value: i16, from_low: i16, from_high: i16, to_low: i16, to_high: i16) -> (r: i16)
    requires
        from_high != from_low,
        i16::MIN <= map_spec(
            value as int,
            from_low as int,
            from_high as int,
            to_low as int,
            to_high as int,
        ) <= i16::MAX,
    ensures
        r == map_spec(value as int, from_low as int, from_high as int, to_low as int, to_high as int),
{
    proof {
        assert(-(65535 * 65535) <= (value - from_low) * (to_high - to_low) <= 65535 * 65535)
            by (nonlinear_arith)
            requires
                -65535 <= value - from_low <= 65535,
                -65535 <= to_high - to_low <= 65535,
        ;
    }
    let num: i64 = (value as i64 - from_low as i64) * (to_high as i64 - to_low as i64);
    let den: i64 = from_high as i64 - from_low as i64;
    let q_opt: Option<i64> = num.checked_div(den);
    proof {
        assert(q_opt matches Some(q) && q == div_trunc(num as int, den as int));
    }
    let q: i64 = match q_opt {
        Some(v) => v,
        None => 0,
    };
    (q + to_low as i64) as i16
}

impl Servo<ServoDetached> {
    /// Attach with the global pulse-width limits.
    pub fn attach(self, bank: &mut ServoBank) -> (r: Servo<ServoAttached>)
        requires
            old(bank).wf(),
            self.index < old(bank).slots@.len(),
        ensures
            final(bank).wf(),
            r.index == self.index,
            r.min == 0,
            r.max == 0,
            r.limits_wf(),
            final(bank).slots@ == old(bank).slots@.update(
                self.index as int,
                set_attached(old(bank).slots@[self.index as int], true),
            ),
            final(bank).timer_enabled,
            final(bank).channel == old(bank).channel,
            final(bank).timer_donated == old(bank).timer_donated,
    {
        self.attach_with_limits(bank, MIN_PULSE_WIDTH, MAX_PULSE_WIDTH)
    }

    /// Attach with explicit pulse-width limits in microseconds. The limits
    /// are stored encoded as quarter-microsecond offsets from the global
    /// bounds; on the first attach that starts the pulse train the compare
    /// interrupt is armed.
    pub fn attach_with_limits(self, bank: &mut ServoBank, min: i16, max: i16) -> (r: Servo<
        ServoAttached,
    >)
        requires
            old(bank).wf(),
            self.index < old(bank).slots@.len(),
            servo_min_spec(div_trunc(MIN_PULSE_WIDTH - min, 4)) <= servo_max_spec(
                div_trunc(MAX_PULSE_WIDTH - max, 4),
            ),
        ensures
            final(bank).wf(),
            r.index == self.index,
            r.min == div_trunc(MIN_PULSE_WIDTH - min, 4),
            r.max == div_trunc(MAX_PULSE_WIDTH - max, 4),
            r.limits_wf(),
            final(bank).slots@ == old(bank).slots@.update(
                self.index as int,
                set_attached(old(bank).slots@[self.index as int], true),
            ),
            final(bank).timer_enabled,
            final(bank).channel == old(bank).channel,
            final(bank).timer_donated == old(bank).timer_donated,
    {
        proof {
            lemma_quarter_encoding_bounds(min as int, MIN_PULSE_WIDTH as int);
            lemma_quarter_encoding_bounds(max as int, MAX_PULSE_WIDTH as int);
        }
        let enc_min_opt: Option<i32> = (MIN_PULSE_WIDTH as i32 - min as i32).checked_div(4);
        let enc_max_opt: Option<i32> = (MAX_PULSE_WIDTH as i32 - max as i32).checked_div(4);
        proof {
            assert(enc_min_opt matches Some(v) && v == div_trunc(MIN_PULSE_WIDTH - min, 4));
            assert(enc_max_opt matches Some(v) && v == div_trunc(MAX_PULSE_WIDTH - max, 4));
        }
        let enc_min: i32 = match enc_min_opt {
            Some(v) => v,
            None => 0,
        };
        let enc_max: i32 = match enc_max_opt {
            Some(v) => v,
            None => 0,
        };
        if !bank.is_timer_active() {
            bank.init_timer();
        }
        let mut slot: ServoSlot = bank.slots[self.index];
        slot.attached = true;
        bank.slots.set(self.index, slot);
        Servo { index: self.index, min: enc_min as i16, max: enc_max as i16, state: ServoAttached }
    }
}

/// The quarter-microsecond encoding `(bound - limit) / 4`, expanded back to
/// a pulse bound `bound - 4 * enc`, lands within three microseconds of the
/// requested limit, and in particular within the 16-bit range.
proof fn lemma_quarter_encoding_bounds(limit: int, bound: int)
    requires
        i16::MIN <= limit <= i16::MAX,
        0 <= bound <= i16::MAX,
    ensures
        -8192 <= div_trunc(bound - limit, 4) <= 16384,
        limit - 3 <= bound - 4 * div_trunc(bound - limit, 4) <= limit + 3,
        i16::MIN <= bound - 4 * div_trunc(bound - limit, 4) <= i16::MAX,
{
    let x = bound - limit;
    if x == 0 {
    } else if x > 0 {
        let q = x / 4;
        assert(x == 4 * q + x % 4 && 0 <= x % 4 < 4) by (nonlinear_arith)
            requires
                q == x / 4 && x > 0,
        ;
        assert(0 <= q <= 16384) by (nonlinear_arith)
            requires
                0 < x <= 65535 && x == 4 * q + x % 4 && 0 <= x % 4 < 4,
        ;
    } else {
        let y = -x;
        let q = y / 4;
        assert(y == 4 * q + y % 4 && 0 <= y % 4 < 4) by (nonlinear_arith)
            requires
                q == y / 4 && y > 0,
        ;
        assert(0 <= q <= 8192) by (nonlinear_arith)
            requires
                0 < y <= 32768 && y == 4 * q + y % 4 && 0 <= y % 4 < 4,
        ;
    }
}

/// The ticks a write of `value` microseconds stores in the slot: the value
/// clamped to the handle's configured bounds, trimmed, and converted.
pub open spec fn written_ticks_spec(min: int, max: int, value: int) -> int {
    us_to_ticks_spec(
        clamp_spec(value, servo_min_spec(min), servo_max_spec(max)) - TRIM_DURATION,
    )
}

/// The ticks a write on the logical 0–180 scale stores in the slot: the
/// value clamped to that scale, mapped onto the handle's configured
/// microsecond range, and converted as by a microsecond write.
pub open spec fn written_value_ticks(min: int, max: int, value: int) -> int {
    written_ticks_spec(
        min,
        max,
        map_spec(
            clamp_spec(value, 0, 180),
            0,
            180,
            servo_min_spec(min),
            servo_max_spec(max),
        ),
    )
}

impl Servo<ServoAttached> {
    /// Leave the pulse train: the slot stays registered but its pin is no
    /// longer pulsed, and when no attached slot remains the compare
    /// interrupt is disarmed.
    pub fn detach(self, bank: &mut ServoBank) -> (r: Servo<ServoDetached>)
        requires
            old(bank).wf(),
            self.index < old(bank).slots@.len(),
        ensures
            final(bank).wf(),
            r.index == self.index,
            r.min == self.min,
            r.max == self.max,
            final(bank).slots@ == old(bank).slots@.update(
                self.index as int,
                set_attached(old(bank).slots@[self.index as int], false),
            ),
            final(bank).timer_enabled == (final(bank).any_attached() && old(bank).timer_enabled),
            final(bank).channel == old(bank).channel,
            final(bank).timer_donated == old(bank).timer_donated,
    {
        let mut slot: ServoSlot = bank.slots[self.index];
        slot.attached = false;
        bank.slots.set(self.index, slot);
        if !bank.is_timer_active() {
            bank.disable_timer();
        }
        Servo { index: self.index, min: self.min, max: self.max, state: ServoDetached }
    }

    /// Store a pulse width given in microseconds: the value is clamped to
    /// the handle's configured range, trimmed, converted to timer ticks and
    /// written into the slot, where the interrupt picks it up on its next
    /// pass. No other slot changes.
    pub fn write_us(&self, bank: &mut ServoBank, value: i16)
        requires
            old(bank).wf(),
            self.index < old(bank).slots@.len(),
            self.limits_wf(),
            0 <= servo_min_spec(self.min as int),
        ensures
            final(bank).wf(),
            final(bank).slots@ == old(bank).slots@.update(
                self.index as int,
                set_ticks(
                    old(bank).slots@[self.index as int],
                    written_ticks_spec(self.min as int, self.max as int, value as int) as u16,
                ),
            ),
            final(bank).channel == old(bank).channel,
            final(bank).timer_donated == old(bank).timer_donated,
            final(bank).timer_enabled == old(bank).timer_enabled,
    {
        let smin: i16 = self.servo_min();
        let smax: i16 = self.servo_max();
        let clamped: i16 = if value < smin {
            smin
        } else if value > smax {
            smax
        } else {
            value
        };
        let trimmed: i16 = clamped - TRIM_DURATION;
        let ticks: u32 = us_to_ticks(trimmed as u32);
        let mut slot: ServoSlot = bank.slots[self.index];
        slot.ticks = ticks as u16;
        bank.slots.set(self.index, slot);
    }

    /// Store a pulse width given on the logical 0–180 scale: the value is
    /// clamped to that scale, mapped linearly onto the handle's configured
    /// microsecond range, and written as by `write_us`.
    pub fn write(&self, bank: &mut ServoBank, value: u8)
        requires
            old(bank).wf(),
            self.index < old(bank).slots@.len(),
            self.limits_wf(),
            0 <= servo_min_spec(self.min as int),
        ensures
            final(bank).wf(),
            final(bank).slots@ == old(bank).slots@.update(
                self.index as int,
                set_ticks(
                    old(bank).slots@[self.index as int],
                    written_value_ticks(self.min as int, self.max as int, value as int) as u16,
                ),
            ),
            final(bank).channel == old(bank).channel,
            final(bank).timer_donated == old(bank).timer_donated,
            final(bank).timer_enabled == old(bank).timer_enabled,
    {
        let v: u8 = if value > 180 {
            180
        } else {
            value
        };
        let smin: i16 = self.servo_min();
        let smax: i16 = self.servo_max();
        proof {
            lemma_map_within_target(v as int, smin as int, smax as int);
        }
        let us: i16 = map(v as i16, 0, 180, smin, smax);
        self.write_us(bank, us);
    }

    /// The pulse width this slot currently holds, in microseconds.
    pub fn read_us(&self, bank: &ServoBank) -> (r: u16)
        requires
            self.index < bank.slots@.len(),
        ensures
            r == ticks_to_us_spec(bank.slots@[self.index as int].ticks as int) + TRIM_DURATION,
    {
        let ticks: u16 = bank.slots[self.index].ticks;
        let us: u32 = ticks_to_us(ticks as u32);
        us as u16 + TRIM_DURATION as u16
    }

    /// The pulse width this slot currently holds, mapped back onto the
    /// logical 0–180 scale.
    pub fn read(&self, bank: &ServoBank) -> (r: u8)
        requires
            self.index < bank.slots@.len(),
            self.limits_wf(),
            servo_min_spec(self.min as int) < servo_max_spec(self.max as int),
            0 <= map_spec(
                ticks_to_us_spec(bank.slots@[self.index as int].ticks as int) + TRIM_DURATION,
                servo_min_spec(self.min as int),
                servo_max_spec(self.max as int),
                0,
                180,
            ) <= u8::MAX,
        ensures
            r == map_spec(
                ticks_to_us_spec(bank.slots@[self.index as int].ticks as int) + TRIM_DURATION,
                servo_min_spec(self.min as int),
                servo_max_spec(self.max as int),
                0,
                180,
            ),
    {
        let us: u16 = self.read_us(bank);
        let r: i16 = map(us as i16, self.servo_min(), self.servo_max(), 0, 180);
        r as u8
    }
}

/// What the compare-match interrupt asks of the hardware: whether to reset
/// the counter (a new refresh frame begins), and the value to load into the
/// compare register for the next event.
#[derive(Clone, Copy, Debug, PartialEq, Eq, Structural)]
pub struct CompareEvent {
    pub reset_counter: bool,
    pub next_compare: u16,
}

/// Addition modulo the width of the 16-bit compare register.
pub open spec fn wrap_add16(a: int, b: int) -> int {
    (a + b) % 0x1_0000
}

/// The hardware counter value the interrupt works with: zero when the
/// event marks the start of a new refresh frame (the counter is reset),
/// otherwise the value read at entry.
pub open spec fn effective_counter(channel: int, tcnt: int) -> int {
    if channel < 0 {
        0
    } else {
        tcnt
    }
}

/// The slot table after the interrupt's first half: the actuator whose
/// high phase just ended, if any, is pulled low.
pub open spec fn slots_after_pulse_low(slots: Seq<ServoSlot>, channel: int) -> Seq<ServoSlot> {
    if 0 <= channel < slots.len() && slots[channel].attached {
        slots.update(channel, set_high(slots[channel], false))
    } else {
        slots
    }
}

/// The slot table after the interrupt's second half: the next attached
/// actuator, if one exists, begins its high phase.
pub open spec fn slots_after_pulse_high(slots: Seq<ServoSlot>, channel: int) -> Seq<ServoSlot> {
    if 0 <= channel < slots.len() && slots[channel].attached {
        slots.update(channel, set_high(slots[channel], true))
    } else {
        slots
    }
}

/// One compare-match event of the pulse timer.
///
/// A negative channel index marks the start of a new refresh frame: the
/// hardware counter is reset and no pin is pulled low. Otherwise the
/// actuator at the channel index, if attached, ends its high phase. The
/// index then advances; if a slot exists there, the next compare event is
/// scheduled its stored ticks ahead and, if attached, the slot begins its
/// high phase. Once all slots are done, the next event is scheduled at the
/// fixed refresh-frame boundary — or a small guard margin ahead when the
/// counter already ran close to or past it — and the index returns to the
/// frame marker.
pub fn timer1_compa(bank: &mut ServoBank, tcnt: u16) -> (ev: CompareEvent)
    requires
        old(bank).wf(),
    ensures
        final(bank).wf(),
        final(bank).timer_donated == old(bank).timer_donated,
        final(bank).timer_enabled == old(bank).timer_enabled,
        ev.reset_counter == (old(bank).channel < 0),
        final(bank).channel == if old(bank).channel + 1 < old(bank).slots@.len() {
            old(bank).channel + 1
        } else {
            -1
        },
        old(bank).channel + 1 < old(bank).slots@.len() ==> final(bank).slots@
            == slots_after_pulse_high(
            slots_after_pulse_low(old(bank).slots@, old(bank).channel as int),
            old(bank).channel + 1,
        ) && ev.next_compare == wrap_add16(
            effective_counter(old(bank).channel as int, tcnt as int),
            old(bank).slots@[old(bank).channel + 1].ticks as int,
        ),
        old(bank).channel + 1 >= old(bank).slots@.len() ==> final(bank).slots@
            == slots_after_pulse_low(old(bank).slots@, old(bank).channel as int)
            && ev.next_compare == if effective_counter(old(bank).channel as int, tcnt as int) + 4
            < us_to_ticks_spec(REFRESH_INTERVAL as int) {
            us_to_ticks_spec(REFRESH_INTERVAL as int)
        } else {
            wrap_add16(effective_counter(old(bank).channel as int, tcnt as int), 4)
        },
{
    let ghost slots0 = bank.slots@;
    let n: usize = bank.slots.len();
    let ch: i8 = bank.channel;
    let mut counter: u16 = tcnt;
    let mut reset: bool = false;
    if ch < 0 {
        counter = 0;
        reset = true;
    } else {
        let idx: usize = ch as usize;
        if idx < n {
            if bank.slots[idx].attached {
                let mut slot: ServoSlot = bank.slots[idx];
                slot.high = false;
                bank.slots.set(idx, slot);
            }
        }
    }
    proof {
        assert(bank.slots@ == slots_after_pulse_low(slots0, ch as int));
    }
    let ch2: i8 = ch + 1;
    let next: u16;
    if (ch2 as usize) < n {
        let idx2: usize = ch2 as usize;
        let t: u16 = bank.slots[idx2].ticks;
        next = counter.wrapping_add(t);
        if bank.slots[idx2].attached {
            let mut slot: ServoSlot = bank.slots[idx2];
            slot.high = true;
            bank.slots.set(idx2, slot);
        }
        bank.channel = ch2;
        proof {
            assert(forall|i: int|
                0 <= i < final(bank).slots@.len() ==> final(bank).slots@[i].attached
                    == slots0[i].attached);
        }
    } else {
        let refresh: u32 = us_to_ticks(REFRESH_INTERVAL as u32);
        if (counter as u32) + 4 < refresh {
            next = refresh as u16;
        } else {
            next = counter.wrapping_add(4);
        }
        bank.channel = -1;
        proof {
            assert(forall|i: int|
                0 <= i < final(bank).slots@.len() ==> final(bank).slots@[i].attached
                    == slots0[i].attached);
        }
    }
    CompareEvent { reset_counter: reset, next_compare: next }
}

/// Law: for a pulse width within the handle's configured range, a write
/// stores exactly twice the width in timer ticks — the compare delta the
/// interrupt schedules for the slot's high phase — and those ticks convert
/// back to exactly the requested width in microseconds, so the produced
/// high phase is within one tick of the request.
pub proof fn lemma_pulse_width_roundtrip(min: int, max: int, w: int)
    requires
        0 <= servo_min_spec(min),
        servo_max_spec(max) <= i16::MAX,
        servo_min_spec(min) <= w <= servo_max_spec(max),
    ensures
        written_ticks_spec(min, max, w) == 2 * (w - TRIM_DURATION),
        ticks_to_us_spec(written_ticks_spec(min, max, w)) + TRIM_DURATION == w,
{
    let c = clamp_spec(w, servo_min_spec(min), servo_max_spec(max));
    assert(c == w);
    assert(us_to_ticks_spec(w - TRIM_DURATION) == 2 * (w - TRIM_DURATION)) by (nonlinear_arith)
        requires
            CLOCK_CYCLES_PER_MICROSECOND == 16,
    ;
    assert(ticks_to_us_spec(2 * (w - TRIM_DURATION)) == w - TRIM_DURATION) by (nonlinear_arith)
        requires
            CLOCK_CYCLES_PER_MICROSECOND == 16,
            0 <= w - TRIM_DURATION,
    ;
}

/// Mapping a value from the logical 0–180 scale onto an ordered target
/// range lands inside that range.
proof fn lemma_map_within_target(v: int, lo: int, hi: int)
    requires
        0 <= v <= 180,
        lo <= hi,
    ensures
        lo <= map_spec(v, 0, 180, lo, hi) <= hi,
{
    let d = hi - lo;
    let q = (v * d) / 180;
    assert(0 <= v * d <= 180 * d) by (nonlinear_arith)
        requires
            0 <= v <= 180 && 0 <= d,
    ;
    assert(0 <= q <= d) by (nonlinear_arith)
        requires
            q == (v * d) / 180 && 0 <= v * d <= 180 * d && 0 <= d,
    ;
    if v * d == 0 {
        assert(map_spec(v, 0, 180, lo, hi) == lo);
    } else {
        assert(map_spec(v, 0, 180, lo, hi) == q + lo);
    }
}

} // verus!
