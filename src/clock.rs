use vstd::arithmetic::div_mod::{
    lemma_add_mod_noop, lemma_mod_add_multiples_vanish, lemma_mod_twice, lemma_small_mod,
    lemma_sub_mod_noop,
};
use vstd::prelude::*;

verus! {

/// Timer clock frequency of the board, in kHz.
pub const TIMER_CLOCK_KHZ: u32 = 16000;

/// Prescaler the firmware runs the millisecond timer with.
pub const PRESCALER: u32 = 1024;

/// Timer counts between two compare-match interrupts.
pub const TIMER_COUNTS: u32 = 125;

/// Milliseconds added to the counter per interrupt with the default setup.
pub const MILLIS_INCREMENT: u32 = PRESCALER * TIMER_COUNTS / TIMER_CLOCK_KHZ;

/// Number of distinct values of the 32-bit millisecond counter.
pub open spec fn counter_modulus() -> int {
    0x1_0000_0000
}

/// Prescaler divisors that the 8-bit timer can select.
pub open spec fn supported_prescaler(p: u32) -> bool {
    p == 8 || p == 64 || p == 256 || p == 1024
}

/// Whole milliseconds that one timer period lasts for a given prescaler.
pub open spec fn millis_per_tick(prescaler: u32) -> u32 {
    (prescaler as int * TIMER_COUNTS as int / TIMER_CLOCK_KHZ as int) as u32
}

/// Counter value after adding `inc` with wraparound.
pub open spec fn wrapped_add(millis: u32, inc: u32) -> u32 {
    ((millis as int + inc as int) % counter_modulus()) as u32
}

/// Time from `earlier` to `later` on a wrapping counter.
pub open spec fn wrapped_elapsed(earlier: u32, later: u32) -> u32 {
    ((later as int - earlier as int) % counter_modulus()) as u32
}

/// Counter value after `n` interrupts, each adding `inc`.
pub open spec fn after_ticks(millis: u32, inc: u32, n: nat) -> u32
    decreases n,
{
    if n == 0 {
        millis
    } else {
        wrapped_add(after_ticks(millis, inc, (n - 1) as nat), inc)
    }
}

/// Clock-source selection of the 8-bit timer.
#[derive(Clone, Copy, Debug, PartialEq, Eq, Structural)]
pub enum ClockSelect {
    Div8,
    Div64,
    Div256,
    Div1024,
}

impl ClockSelect {
    pub open spec fn divisor(self) -> u32 {
        match self {
            ClockSelect::Div8 => 8,
            ClockSelect::Div64 => 64,
            ClockSelect::Div256 => 256,
            ClockSelect::Div1024 => 1024,
        }
    }

    /// The selection that divides the clock by `value`, if the timer has one.
    pub fn from_divisor(value: u32) -> (r: Option<ClockSelect>)
        ensures
            r is Some <==> supported_prescaler(value),
            r matches Some(s) ==> s.divisor() == value,
    {
        if value == 8 {
            Some(ClockSelect::Div8)
        } else if value == 64 {
            Some(ClockSelect::Div64)
        } else if value == 256 {
            Some(ClockSelect::Div256)
        } else if value == 1024 {
            Some(ClockSelect::Div1024)
        } else {
            None
        }
    }
}

/// Register values that put the timer in periodic compare-match mode.
#[derive(Clone, Copy, Debug, PartialEq, Eq, Structural)]
pub struct TimerSetup {
    pub clock_select: ClockSelect,
    pub compare: u8,
}

/// Reasons the timer cannot be configured.
#[derive(Clone, Copy, Debug, PartialEq, Eq, Structural)]
pub enum ClockError {
    UnsupportedPrescaler,
}

/// Whole milliseconds per timer period for `prescaler`.
pub fn millis_per_tick_of(prescaler: u32) -> (r: u32)
    ensures
        r == millis_per_tick(prescaler),
{
    let wide = prescaler as u64 * TIMER_COUNTS as u64;
    assert(wide / 16000 <= u32::MAX) by (nonlinear_arith)
        requires
            wide == prescaler as u64 * 125,
            prescaler <= u32::MAX,
    ;
    (wide / TIMER_CLOCK_KHZ as u64) as u32
}

/// Time from `earlier` to `later`, correct across a wrap of the counter.
pub fn elapsed(earlier: u32, later: u32) -> (r: u32)
    ensures
        r == wrapped_elapsed(earlier, later),
{
    later.wrapping_sub(earlier)
}

/// Millisecond counter advanced by the timer interrupt.
#[derive(Clone, Copy, Debug, PartialEq, Eq, Structural)]
pub struct Clock {
    pub millis: u32,
    pub increment: u32,
}

impl Clock {
    /// Timer register values and a zeroed clock for `prescaler`.
    pub fn initialize(prescaler: u32) -> (r: Result<(Clock, TimerSetup), ClockError>)
        ensures
            r is Ok <==> supported_prescaler(prescaler),
            r matches Err(e) ==> e == ClockError::UnsupportedPrescaler,
            r matches Ok((c, s)) ==> {
                &&& c.millis == 0
                &&& c.increment == millis_per_tick(prescaler)
                &&& s.clock_select.divisor() == prescaler
                &&& s.compare as u32 == TIMER_COUNTS
            },
    {
        match ClockSelect::from_divisor(prescaler) {
            None => Err(ClockError::UnsupportedPrescaler),
            Some(clock_select) => {
                let clock = Clock { millis: 0, increment: millis_per_tick_of(prescaler) };
                let setup = TimerSetup { clock_select, compare: TIMER_COUNTS as u8 };
                Ok((clock, setup))
            },
        }
    }

    /// Configures the clock again: the counter restarts at zero whatever it held.
    pub fn reinitialize(&mut self, prescaler: u32) -> (r: Result<TimerSetup, ClockError>)
        ensures
            r is Ok <==> supported_prescaler(prescaler),
            r matches Err(e) ==> e == ClockError::UnsupportedPrescaler && *final(self) == *old(self),
            r matches Ok(s) ==> {
                &&& final(self).millis == 0
                &&& final(self).increment == millis_per_tick(prescaler)
                &&& s.clock_select.divisor() == prescaler
                &&& s.compare as u32 == TIMER_COUNTS
            },
    {
        match Clock::initialize(prescaler) {
            Err(e) => Err(e),
            Ok((clock, setup)) => {
                *self = clock;
                Ok(setup)
            },
        }
    }

    /// Work of one compare-match interrupt: the counter advances by the increment.
    pub fn on_tick(&mut self)
        ensures
            final(self).increment == old(self).increment,
            final(self).millis == wrapped_add(old(self).millis, old(self).increment),
    {
        proof {
            let s = self.millis as int + self.increment as int;
            if s >= counter_modulus() {
                lemma_mod_add_multiples_vanish(s - counter_modulus(), counter_modulus());
                lemma_small_mod((s - counter_modulus()) as nat, counter_modulus() as nat);
            } else {
                lemma_small_mod(s as nat, counter_modulus() as nat);
            }
        }
        self.millis = self.millis.wrapping_add(self.increment);
    }

    /// Current counter value.
    pub fn read(&self) -> (r: u32)
        ensures
            r == self.millis,
    {
        self.millis
    }
}

/// After `n` interrupts the counter has moved by `n` increments, modulo
/// wraparound, and the wrapping difference of two readings counts exactly
/// those increments.
pub proof fn lemma_readings_differ_by_ticks(millis: u32, inc: u32, n: nat)
    ensures
        after_ticks(millis, inc, n) as int == (millis as int + n * inc as int) % counter_modulus(),
        wrapped_elapsed(millis, after_ticks(millis, inc, n)) as int == (n * inc as int)
            % counter_modulus(),
    decreases n,
{
    let m = counter_modulus();
    if n == 0 {
        lemma_small_mod(millis as nat, m as nat);
        assert(0 * inc as int == 0);
    } else {
        lemma_readings_differ_by_ticks(millis, inc, (n - 1) as nat);
        let prev = after_ticks(millis, inc, (n - 1) as nat);
        let base = millis as int + (n - 1) * inc as int;
        assert(prev as int == base % m);
        lemma_add_mod_noop(base, inc as int, m);
        lemma_mod_twice(inc as int, m);
        lemma_small_mod(inc as nat, m as nat);
        assert((n - 1) * inc as int + inc as int == n * inc as int) by (nonlinear_arith);
        assert(after_ticks(millis, inc, n) as int == (base + inc as int) % m);
    }
    lemma_sub_mod_noop(millis as int + n * inc as int, millis as int, m);
    lemma_small_mod(millis as nat, m as nat);
}

} // verus!
