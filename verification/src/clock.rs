//! Monotonic tick clock.
//!
//! A free-running counter advanced once per compare-match interrupt of a
//! hardware timer. To keep the interrupt handler short, most calls only
//! touch a small sub-counter (`part`); once the sub-counter passes a fixed
//! threshold, the buffered increments and the folding call's own are
//! folded into the main counter in a single critical-section write and the
//! sub-counter is reset. A reading adds the live sub-counter to the last
//! folded counter value, so it advances by one on every interrupt.

use vstd::prelude::*;

verus! {

/// Frequency of the hardware oscillator, in Hz.
pub const OSCILLATOR_HZ: u32 = 16_000_000;

/// How many sub-counter increments are buffered before one
/// critical-section write folds them into the main counter.
pub const FOLD_THRESHOLD: u8 = 250;

/// Clock divider settings of the tick timer.
#[derive(Clone, Copy, Debug, PartialEq, Eq, Structural)]
pub enum Prescale {
    NoClock,
    Direct,
    Prescale8,
    Prescale64,
    Prescale256,
    Prescale1024,
}

/// Compare-match configuration of the tick timer: the 8-bit value the
/// hardware counter is compared against, and the clock divider.
pub struct TimerConfig {
    pub top: u8,
    pub prescale: Prescale,
}

/// The divider setting for a numeric prescale factor.
pub open spec fn prescale_setting(prescale: u32) -> Prescale {
    if prescale == 0 {
        Prescale::NoClock
    } else if prescale == 1 {
        Prescale::Direct
    } else if prescale == 8 {
        Prescale::Prescale8
    } else if prescale == 64 {
        Prescale::Prescale64
    } else if prescale == 256 {
        Prescale::Prescale256
    } else {
        Prescale::Prescale1024
    }
}

/// The numeric factor a divider setting stands for; zero for a stopped
/// or externally driven timer.
pub open spec fn prescale_factor(p: Prescale) -> u32 {
    match p {
        Prescale::NoClock => 0,
        Prescale::Direct => 1,
        Prescale::Prescale8 => 8,
        Prescale::Prescale64 => 64,
        Prescale::Prescale256 => 256,
        Prescale::Prescale1024 => 1024,
    }
}

/// Map a numeric prescale factor to its divider setting. Only the factors
/// the hardware offers are accepted.
pub fn prescale_from_value(prescale: u32) -> (p: Prescale)
    requires
        prescale == 0 || prescale == 1 || prescale == 8 || prescale == 64 || prescale == 256
            || prescale == 1024,
    ensures
        p == prescale_setting(prescale),
{
    if prescale == 0 {
        Prescale::NoClock
    } else if prescale == 1 {
        Prescale::Direct
    } else if prescale == 8 {
        Prescale::Prescale8
    } else if prescale == 64 {
        Prescale::Prescale64
    } else if prescale == 256 {
        Prescale::Prescale256
    } else {
        Prescale::Prescale1024
    }
}

/// The numeric factor of a divider setting.
pub fn prescale_value(p: Prescale) -> (v: u32)
    ensures
        v == prescale_factor(p),
{
    match p {
        Prescale::NoClock => 0,
        Prescale::Direct => 1,
        Prescale::Prescale8 => 8,
        Prescale::Prescale64 => 64,
        Prescale::Prescale256 => 256,
        Prescale::Prescale1024 => 1024,
    }
}

/// Free-running tick counter. `counter` holds the folded value, `part` the
/// live sub-counter; both are written only inside the timer interrupt, and
/// a reading combines them.
pub struct Clock {
    pub counter: u32,
    pub part: u8,
}

impl Clock {
    /// The sub-counter never runs past the fold threshold by more than one:
    /// the call that finds it beyond the threshold folds it.
    pub open spec fn wf(self) -> bool {
        self.part <= FOLD_THRESHOLD + 1
    }

    /// What a reading yields: the folded counter plus the live sub-counter,
    /// modulo the counter's width.
    pub open spec fn now_spec(self) -> int {
        (self.counter + self.part) % 0x1_0000_0000
    }

    /// One interrupt, as a map on clock states: fold the sub-counter and
    /// this call's own increment into the main counter once the sub-counter
    /// has passed the threshold, otherwise advance the sub-counter alone.
    pub open spec fn tick_spec(self) -> Clock {
        if self.part > FOLD_THRESHOLD {
            Clock { counter: self.counter.wrapping_add((self.part + 1) as u32), part: 0 }
        } else {
            Clock { counter: self.counter, part: (self.part + 1) as u8 }
        }
    }

    pub fn new() -> (c: Clock)
        ensures
            c.counter == 0,
            c.part == 0,
            c.wf(),
    {
        Clock { counter: 0, part: 0 }
    }

    /// Compare-match configuration for a desired tick frequency, given in
    /// kHz, and a prescale factor. The compare register is 8 bits wide; the
    /// preconditions are exactly the fit of the computed compare value into
    /// it, so a configuration that would silently truncate is rejected at
    /// verification time rather than at run time.
    pub fn start(&self, khz: u32, prescale: u32) -> (cfg: TimerConfig)
        requires
            prescale == 1 || prescale == 8 || prescale == 64 || prescale == 256 || prescale
                == 1024,
            khz >= 1,
            prescale * khz * 1000 <= OSCILLATOR_HZ,
            OSCILLATOR_HZ as int / (prescale * khz * 1000) <= 256,
        ensures
            cfg.top == OSCILLATOR_HZ as int / (prescale * khz * 1000) - 1,
            cfg.prescale == prescale_setting(prescale),
    {
        let divisor: u32 = prescale * khz * 1000;
        proof {
            assert(OSCILLATOR_HZ as int / divisor as int >= 1) by (nonlinear_arith)
                requires
                    1 <= divisor <= OSCILLATOR_HZ,
            ;
        }
        let top: u32 = OSCILLATOR_HZ / divisor - 1;
        TimerConfig { top: top as u8, prescale: prescale_from_value(prescale) }
    }

    /// A reading: safe from any context, never blocks, and equal to the
    /// folded counter plus the live sub-counter modulo the counter's width.
    pub fn now(&self) -> (t: u32)
        ensures
            t == self.now_spec(),
    {
        proof {
            lemma_mod_once(self.counter + self.part, 0x1_0000_0000);
        }
        self.counter.wrapping_add(self.part as u32)
    }

    /// One compare-match interrupt. Most calls only advance the
    /// sub-counter; the call that finds the sub-counter past the threshold
    /// folds it, together with its own increment, into the main counter.
    /// Either way the reading advances by exactly one, modulo the
    /// counter's width.
    pub fn tick(&mut self)
        requires
            old(self).wf(),
        ensures
            *final(self) == old(self).tick_spec(),
            final(self).wf(),
            final(self).now_spec() == (old(self).now_spec() + 1) % 0x1_0000_0000,
    {
        proof {
            lemma_mod_once(self.counter + self.part, 0x1_0000_0000);
            lemma_mod_once(self.counter + self.part + 1, 0x1_0000_0000);
        }
        if self.part > FOLD_THRESHOLD {
            self.counter = self.counter.wrapping_add(self.part as u32 + 1);
            self.part = 0;
        } else {
            self.part = self.part + 1;
        }
    }
}

/// For a value below twice the modulus, taking the remainder subtracts the
/// modulus at most once.
proof fn lemma_mod_once(x: int, m: int)
    requires
        m > 0,
        0 <= x < 2 * m,
    ensures
        x % m == if x < m {
            x
        } else {
            x - m
        },
{
    if x < m {
        assert(x % m == x) by (nonlinear_arith)
            requires
                m > 0 && 0 <= x < m,
        ;
    } else {
        assert(x % m == x - m) by (nonlinear_arith)
            requires
                m > 0 && m <= x < 2 * m,
        ;
    }
}

/// Law: one interrupt never moves a reading backwards — folding call or
/// not, it advances the reading by exactly one, modulo the counter's
/// width.
pub proof fn lemma_now_nondecreasing(c: Clock)
    requires
        c.wf(),
    ensures
        c.tick_spec().now_spec() == (c.now_spec() + 1) % 0x1_0000_0000,
        c.tick_spec().wf(),
{
    lemma_mod_once(c.counter + c.part, 0x1_0000_0000);
    lemma_mod_once(c.counter + c.part + 1, 0x1_0000_0000);
}

/// A run of interrupts, as a map on clock states.
pub open spec fn ticks_spec(c: Clock, n: nat) -> Clock
    decreases n,
{
    if n == 0 {
        c
    } else {
        ticks_spec(c, (n - 1) as nat).tick_spec()
    }
}

/// Law: a run of n interrupts — whether or not a fold falls inside the
/// window — advances the reading by exactly n, modulo the counter's
/// width.
pub proof fn lemma_window_exact(c: Clock, n: nat)
    requires
        c.wf(),
    ensures
        ticks_spec(c, n).wf(),
        ticks_spec(c, n).now_spec() == (c.now_spec() + n) % 0x1_0000_0000,
    decreases n,
{
    if n == 0 {
        lemma_mod_once(c.now_spec(), 0x1_0000_0000);
    } else {
        lemma_window_exact(c, (n - 1) as nat);
        let prev = ticks_spec(c, (n - 1) as nat);
        lemma_now_nondecreasing(prev);
        vstd::arithmetic::div_mod::lemma_add_mod_noop(
            c.now_spec() + n - 1,
            1,
            0x1_0000_0000,
        );
        lemma_mod_once(1, 0x1_0000_0000);
        lemma_mod_once(c.now_spec(), 0x1_0000_0000);
        lemma_mod_once(c.now_spec() % 0x1_0000_0000, 0x1_0000_0000);
    }
}

} // verus!
