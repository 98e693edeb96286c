use vstd::prelude::*;
use super::interrupt::{with_request, InterruptState, INT_TIMER};

verus! {

pub const DIV: u16 = 0xFF04;

pub const TIMA: u16 = 0xFF05;

pub const TMA: u16 = 0xFF06;

pub const TAC: u16 = 0xFF07;

/// The divider and the programmable counter that it drives.
///
/// `div` is the sixteen-bit internal divider, of which the guest sees the
/// high byte; `last_tick` is the tapped signal as it was last observed.
#[derive(Debug, Clone, Copy)]
pub struct Timer {
    pub last_tick: bool,
    pub div: u16,
    pub tima: u8,
    pub tma: u8,
    pub tac: u8,
}

/// Two to the power of the divider bit that `tac` taps: bit 9, 3, 5 or 7
/// for the values 0, 1, 2, 3 of its two low bits.
pub open spec fn tap_weight(tac: u8) -> int {
    if tac % 4 == 0 {
        512
    } else if tac % 4 == 1 {
        8
    } else if tac % 4 == 2 {
        32
    } else {
        128
    }
}

/// The tapped divider bit, gated by the enable bit (bit 2) of `tac`.
pub open spec fn timer_signal(t: Timer) -> bool {
    (t.tac / 4) % 2 == 1 && (t.div as int / tap_weight(t.tac)) % 2 == 1
}

/// The timer and the interrupt flags after the tapped signal has been
/// observed once: a fall since the last observation counts `tima` up, and a
/// count past 255 reloads it from `tma` and requests the timer interrupt.
pub open spec fn timer_observe(t: Timer, i: InterruptState) -> (Timer, InterruptState) {
    let tick = timer_signal(t);
    if t.last_tick && !tick {
        if t.tima == 255 {
            (Timer { tima: t.tma, last_tick: tick, ..t }, with_request(i, INT_TIMER))
        } else {
            (Timer { tima: (t.tima + 1) as u8, last_tick: tick, ..t }, i)
        }
    } else {
        (Timer { last_tick: tick, ..t }, i)
    }
}

/// One T-cycle: the divider counts up by one, wrapping, and the signal is
/// observed.
pub open spec fn timer_cycle(t: Timer, i: InterruptState) -> (Timer, InterruptState) {
    timer_observe(Timer { div: if t.div == 0xFFFF { 0u16 } else { (t.div + 1) as u16 }, ..t }, i)
}

/// `cycles` T-cycles, one after the other.
pub open spec fn timer_run(t: Timer, i: InterruptState, cycles: int) -> (Timer, InterruptState)
    decreases cycles,
{
    if cycles <= 0 {
        (t, i)
    } else {
        let next = timer_cycle(t, i);
        timer_run(next.0, next.1, cycles - 1)
    }
}

impl Timer {
    pub fn new() -> (t: Timer)
        ensures
            t == (Timer { last_tick: false, div: 0, tima: 0, tma: 0, tac: 0 }),
    {
        Timer { last_tick: false, div: 0, tima: 0, tma: 0, tac: 0 }
    }

    /// Advances the timer by `cycle` T-cycles; a count that is not positive
    /// changes nothing.
    pub fn update(&mut self, cycle: i32, interrupt: &mut InterruptState)
        ensures
            (*final(self), *final(interrupt)) == timer_run(*old(self), *old(interrupt), cycle as int),
    {
        let mut done: i32 = 0;
        while done < cycle
            invariant
                0 <= done,
                done <= cycle || cycle < 0,
                timer_run(*self, *interrupt, cycle - done) == timer_run(
                    *old(self),
                    *old(interrupt),
                    cycle as int,
                ),
            decreases cycle - done,
        {
            self.div = self.div.wrapping_add(1);
            self.increment_tima(interrupt);
            done = done + 1;
        }
    }

    /// Observes the tapped signal once.
    pub fn increment_tima(&mut self, interrupt: &mut InterruptState)
        ensures
            (*final(self), *final(interrupt)) == timer_observe(*old(self), *old(interrupt)),
    {
        let tac_enable = (self.tac / 4) % 2 == 1;
        let weight: u16 = match self.tac % 4 {
            0 => 512,
            1 => 8,
            2 => 32,
            _ => 128,
        };
        let div_bit = (self.div / weight) % 2 == 1;
        let tick = tac_enable && div_bit;

        if self.last_tick && !tick {
            if self.tima == 255 {
                self.tima = self.tma;
                interrupt.request(INT_TIMER);
            } else {
                self.tima = self.tima + 1;
            }
        }
        self.last_tick = tick;
    }

    pub fn div_reset(&mut self)
        ensures
            *final(self) == (Timer { div: 0, ..*old(self) }),
    {
        self.div = 0;
    }

    /// The divider as the guest reads it: the high byte of the internal one.
    pub fn div(&self) -> (r: u8)
        ensures
            r == self.div / 256,
    {
        (self.div / 256) as u8
    }
}

impl Default for Timer {
    fn default() -> (t: Timer)
        ensures
            t == (Timer { last_tick: false, div: 0, tima: 0, tma: 0, tac: 0 }),
    {
        Timer::new()
    }
}

/// Running the timer in two stretches is running it once for their sum.
pub proof fn lemma_timer_run_split(t: Timer, i: InterruptState, first: int, second: int)
    requires
        0 <= first,
        0 <= second,
    ensures
        timer_run(t, i, first + second) == ({
            let mid = timer_run(t, i, first);
            timer_run(mid.0, mid.1, second)
        }),
    decreases first,
{
    if first > 0 {
        let next = timer_cycle(t, i);
        lemma_timer_run_split(next.0, next.1, first - 1, second);
    }
}

/// After the divider is written, it reads as zero.
pub proof fn lemma_div_reads_zero_after_reset(t: Timer)
    ensures
        (Timer { div: 0, ..t }).div / 256 == 0,
{
}

/// How often a counter that counts once every `period` steps counts while
/// the divider goes `cycles` steps on from `div`.
pub open spec fn periods_passed(div: int, cycles: int, period: int) -> int {
    (div + cycles) / period - div / period
}

/// What one step of the divider does to a signal tapped at `weight`: the
/// signal falls exactly when the divider reaches a multiple of twice the
/// weight, which one step passes at most once; and the multiples passed
/// after the step are counted alike from the divider as it wraps.
proof fn lemma_one_step(div: int, weight: int, rest: int)
    requires
        0 <= div < 0x10000,
        0 <= rest,
        weight == 8 || weight == 32 || weight == 128 || weight == 512,
    ensures
        ({
            let stepped = if div == 0xFFFF { 0int } else { div + 1 };
            &&& ((div / weight) % 2 == 1 && (stepped / weight) % 2 == 0) <==> (div + 1) % (2 * weight) == 0
            &&& periods_passed(div, 1, 2 * weight) == (if (div + 1) % (2 * weight) == 0 { 1int } else { 0 })
            &&& periods_passed(div + 1, rest, 2 * weight) == periods_passed(stepped, rest, 2 * weight)
            &&& periods_passed(stepped, rest, 2 * weight) >= 0
            &&& periods_passed(div, rest + 1, 2 * weight) == periods_passed(div, 1, 2 * weight) + periods_passed(
                div + 1,
                rest,
                2 * weight,
            )
        }),
{
    let stepped = if div == 0xFFFF { 0int } else { div + 1 };
    if weight == 8 {
        assert(((div / 8) % 2 == 1 && (stepped / 8) % 2 == 0) <==> (div + 1) % 16 == 0);
        assert((div + 1) / 16 - div / 16 == (if (div + 1) % 16 == 0 { 1int } else { 0 }));
        assert((div + 1 + rest) / 16 - (div + 1) / 16 == (stepped + rest) / 16 - stepped / 16);
        assert((stepped + rest) / 16 >= stepped / 16);
    }
    if weight == 32 {
        assert(((div / 32) % 2 == 1 && (stepped / 32) % 2 == 0) <==> (div + 1) % 64 == 0);
        assert((div + 1) / 64 - div / 64 == (if (div + 1) % 64 == 0 { 1int } else { 0 }));
        assert((div + 1 + rest) / 64 - (div + 1) / 64 == (stepped + rest) / 64 - stepped / 64);
        assert((stepped + rest) / 64 >= stepped / 64);
    }
    if weight == 128 {
        assert(((div / 128) % 2 == 1 && (stepped / 128) % 2 == 0) <==> (div + 1) % 256 == 0);
        assert((div + 1) / 256 - div / 256 == (if (div + 1) % 256 == 0 { 1int } else { 0 }));
        assert((div + 1 + rest) / 256 - (div + 1) / 256 == (stepped + rest) / 256 - stepped / 256);
        assert((stepped + rest) / 256 >= stepped / 256);
    }
    if weight == 512 {
        assert(((div / 512) % 2 == 1 && (stepped / 512) % 2 == 0) <==> (div + 1) % 1024 == 0);
        assert((div + 1) / 1024 - div / 1024 == (if (div + 1) % 1024 == 0 { 1int } else { 0 }));
        assert((div + 1 + rest) / 1024 - (div + 1) / 1024 == (stepped + rest) / 1024 - stepped / 1024);
        assert((stepped + rest) / 1024 >= stepped / 1024);
    }
}

/// While the timer is switched on, TIMA counts once for every multiple of
/// twice the tap's weight that the divider passes: every 16, 64, 256 or
/// 1024 T-cycles.
///
/// This holds from a state in which the signal was last observed as it
/// now is, as it is after any advance, and as long as TIMA does not run
/// over, in which case nothing is requested and TMA and TAC stay. The
/// divider counts every T-cycle, modulo 2^16.
pub proof fn lemma_tima_counts_periods(t: Timer, i: InterruptState, cycles: int)
    requires
        0 <= cycles,
        (t.tac / 4) % 2 == 1,
        t.last_tick == timer_signal(t),
        t.tima + periods_passed(t.div as int, cycles, 2 * tap_weight(t.tac)) <= 255,
    ensures
        timer_run(t, i, cycles).0.tima == t.tima + periods_passed(t.div as int, cycles, 2 * tap_weight(t.tac)),
        timer_run(t, i, cycles).0.div == (t.div + cycles) % 0x10000,
        timer_run(t, i, cycles).0.tma == t.tma,
        timer_run(t, i, cycles).0.tac == t.tac,
        timer_run(t, i, cycles).0.last_tick == timer_signal(timer_run(t, i, cycles).0),
        timer_run(t, i, cycles).1 == i,
    decreases cycles,
{
    if cycles > 0 {
        let next = timer_cycle(t, i);
        let div = t.div as int;
        let stepped = if t.div == 0xFFFF { 0int } else { div + 1 };
        lemma_one_step(div, tap_weight(t.tac), cycles - 1);
        lemma_tima_counts_periods(next.0, next.1, cycles - 1);
        assert((stepped + (cycles - 1)) % 0x10000 == (div + cycles) % 0x10000);
    }
}

/// When TIMA is at 255 and counts, it is loaded from TMA and the timer
/// interrupt is requested: this is so in the T-cycle in which the tapped
/// signal, last observed high, is low.
pub proof fn lemma_tima_overflow_reloads(t: Timer, i: InterruptState)
    requires
        t.tima == 255,
        t.last_tick,
        !timer_signal(t),
    ensures
        timer_observe(t, i).0.tima == t.tma,
        timer_observe(t, i).1 == with_request(i, INT_TIMER),
        crate::emulator::bitops::bit_value(timer_observe(t, i).1.interrupt_flag, INT_TIMER) == 1,
        !timer_observe(t, i).0.last_tick,
{
    crate::emulator::bitops::lemma_bit_facts(i.interrupt_flag, INT_TIMER);
}

} // verus!
