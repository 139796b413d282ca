//! The divider/timer pair: DIV ticks at the master rate divided by 256;
//! TIMA ticks at the rate TAC selects and reloads from TMA on overflow,
//! raising the timer interrupt.

use vstd::prelude::*;

use vstd::arithmetic::div_mod::lemma_fundamental_div_mod_converse;

verus! {

/// First address of the timer register file (DIV).
pub const TIMER_START: u16 = 0xff04;

/// Last address of the timer register file (TAC).
pub const TIMER_END: u16 = 0xff07;

/// The rate selected by TAC bits 1..0, named by the division of the master
/// clock: X1 is one TIMA tick per 1024 cycles, X4 per 256, X16 per 64,
/// X64 per 16.
#[derive(Debug, Clone, Copy, PartialEq, Eq, Structural)]
pub enum TimerScale {
    X1,
    X4,
    X16,
    X64,
}

/// The TAC register: the enable bit and the scale selection.
#[derive(Debug, Clone, Copy, PartialEq, Eq, Structural)]
pub struct TimerControl {
    pub scale: TimerScale,
    pub running: bool,
}

/// Timer state: the visible registers and the two internal cycle
/// accumulators that drive them.
#[derive(Debug, Clone, Copy, PartialEq, Eq, Structural)]
pub struct Timer {
    /// 0xFF04: increments every 256 cycles; any write resets it.
    pub div: u8,
    /// 0xFF05: the counting register.
    pub tima: u8,
    /// 0xFF06: the value TIMA reloads from on overflow.
    pub tma: u8,
    /// 0xFF07: enable and scale.
    pub tac: TimerControl,
    /// Cycles accumulated toward the next DIV increment.
    pub div_counter: u64,
    /// Cycles accumulated toward the next TIMA tick.
    pub timer_counter: u64,
    /// Cycles per TIMA tick, as selected by the last TAC write.
    pub roundvalue: u64,
    /// The timer interrupt request latch (IF bit 2).
    pub is_interrupt: bool,
}

/// Cycles per TIMA tick for each scale.
pub open spec fn scale_round(s: TimerScale) -> u64 {
    match s {
        TimerScale::X1 => 1024,
        TimerScale::X4 => 256,
        TimerScale::X16 => 64,
        TimerScale::X64 => 16,
    }
}

/// A timer is well formed when its accumulators sit below their thresholds
/// and its round value matches a TAC scale (or is still the reset value 0
/// while the timer has never been enabled).
pub open spec fn timer_wf(t: Timer) -> bool {
    &&& t.div_counter < 256
    &&& (t.roundvalue == 0 || t.roundvalue == 16 || t.roundvalue == 64 || t.roundvalue == 256
        || t.roundvalue == 1024)
    &&& (t.tac.running ==> t.roundvalue == scale_round(t.tac.scale) && t.timer_counter
        < t.roundvalue)
}

/// TIMA after `n` ticks: each tick increments, and an overflowing tick
/// reloads from TMA instead.
pub open spec fn tima_after(tima: u8, tma: u8, n: nat) -> u8
    decreases n,
{
    if n == 0 {
        tima
    } else {
        let x = tima_after(tima, tma, (n - 1) as nat);
        if x == 255 {
            tma
        } else {
            (x + 1) as u8
        }
    }
}

/// Whether any of `n` ticks overflowed TIMA, which raises the timer
/// interrupt.
pub open spec fn tima_overflowed(tima: u8, tma: u8, n: nat) -> bool
    decreases n,
{
    n > 0 && (tima_after(tima, tma, (n - 1) as nat) == 255 || tima_overflowed(
        tima,
        tma,
        (n - 1) as nat,
    ))
}

/// The timer after `clock` cycles: DIV advances by one per full 256 cycles
/// accumulated; when enabled, TIMA ticks once per full round value
/// accumulated.
pub open spec fn timer_update_s(t: Timer, clock: u64) -> Timer {
    let dtotal = t.div_counter + clock;
    let stepped = Timer {
        div: ((t.div + dtotal / 256) % 256) as u8,
        div_counter: (dtotal % 256) as u64,
        ..t
    };
    if t.tac.running {
        let ttotal = t.timer_counter + clock;
        let n = (ttotal / t.roundvalue as int) as nat;
        Timer {
            tima: tima_after(t.tima, t.tma, n),
            timer_counter: (ttotal % t.roundvalue as int) as u64,
            is_interrupt: t.is_interrupt || tima_overflowed(t.tima, t.tma, n),
            ..stepped
        }
    } else {
        stepped
    }
}

/// What a read of a timer register returns.
pub open spec fn timer_load_s(t: Timer, addr: u16) -> Result<u8, ()> {
    if addr == 0xff04 {
        Ok(t.div)
    } else if addr == 0xff05 {
        Ok(t.tima)
    } else if addr == 0xff06 {
        Ok(t.tma)
    } else if addr == 0xff07 {
        Ok(
            ((if t.tac.running {
                4u8
            } else {
                0u8
            }) + match t.tac.scale {
                TimerScale::X1 => 0u8,
                TimerScale::X4 => 3u8,
                TimerScale::X16 => 2u8,
                TimerScale::X64 => 1u8,
            }) as u8,
        )
    } else {
        Err(())
    }
}

/// The scale encoded by TAC bits 1..0.
pub open spec fn scale_of_bits(bits: u8) -> TimerScale {
    if bits == 0 {
        TimerScale::X1
    } else if bits == 1 {
        TimerScale::X64
    } else if bits == 2 {
        TimerScale::X16
    } else {
        TimerScale::X4
    }
}

/// What a write to a timer register leaves behind. A write to DIV zeroes
/// both the visible byte and the internal divider accumulator; a write to
/// TAC resets the timer accumulator so a scale change cannot produce an
/// immediate spurious tick.
pub open spec fn timer_store_s(t: Timer, addr: u16, value: u8) -> Result<Timer, ()> {
    if addr == 0xff04 {
        Ok(Timer { div: 0, div_counter: 0, ..t })
    } else if addr == 0xff05 {
        Ok(Timer { tima: value, ..t })
    } else if addr == 0xff06 {
        Ok(Timer { tma: value, ..t })
    } else if addr == 0xff07 {
        let scale = scale_of_bits(value % 4);
        Ok(
            Timer {
                tac: TimerControl { running: value & 0x4 != 0, scale },
                roundvalue: scale_round(scale),
                timer_counter: 0,
                ..t
            },
        )
    } else {
        Err(())
    }
}

impl Timer {
    /// All registers and accumulators at zero, timer disabled.
    pub fn new() -> (r: Timer)
        ensures
            r == (Timer {
                div: 0,
                tima: 0,
                tma: 0,
                tac: TimerControl { scale: TimerScale::X1, running: false },
                div_counter: 0,
                timer_counter: 0,
                roundvalue: 0,
                is_interrupt: false,
            }),
            timer_wf(r),
    {
        Timer {
            div: 0,
            tima: 0,
            tma: 0,
            tac: TimerControl { scale: TimerScale::X1, running: false },
            div_counter: 0,
            timer_counter: 0,
            roundvalue: 0,
            is_interrupt: false,
        }
    }

    /// Whether the timer interrupt request latch is set.
    pub fn is_interrupt(&self) -> (r: bool)
        ensures
            r == self.is_interrupt,
    {
        self.is_interrupt
    }

    /// Advances the timer by `clock` cycles, as `timer_update_s` describes.
    pub fn update(&mut self, clock: u64)
        requires
            timer_wf(*old(self)),
            clock <= 0x1000000,
        ensures
            *final(self) == timer_update_s(*old(self), clock),
            timer_wf(*final(self)),
    {
        let ghost t0 = *self;
        let dtotal = self.div_counter + clock;
        self.div_counter = dtotal;
        let mut dticks_done: u64 = 0;
        while self.div_counter >= 256
            invariant
                self.div_counter + dticks_done * 256 == t0.div_counter + clock,
                self.div == ((t0.div + dticks_done) % 256) as u8,
                *self == (Timer { div: self.div, div_counter: self.div_counter, ..t0 }),
            decreases self.div_counter,
        {
            proof {
                vstd::arithmetic::div_mod::lemma_add_mod_noop(
                    t0.div + dticks_done,
                    1,
                    256,
                );
            }
            self.div_counter = self.div_counter - 256;
            self.div = self.div.wrapping_add(1);
            dticks_done = dticks_done + 1;
        }
        proof {
            lemma_fundamental_div_mod_converse(
                t0.div_counter + clock,
                256,
                dticks_done as int,
                self.div_counter as int,
            );
        }

        if self.tac.running {
            let round = self.roundvalue;
            let ttotal = self.timer_counter + clock;
            self.timer_counter = ttotal;
            let ghost mid = *self;
            let mut ticks_done: u64 = 0;
            while self.timer_counter >= round
                invariant
                    round == t0.roundvalue,
                    mid == (Timer {
                        div: mid.div,
                        div_counter: mid.div_counter,
                        timer_counter: mid.timer_counter,
                        ..t0
                    }),
                    16 <= round,
                    t0.timer_counter + clock <= 0x2000000,
                    self.timer_counter + ticks_done * round == t0.timer_counter + clock,
                    self.tima == tima_after(t0.tima, t0.tma, ticks_done as nat),
                    self.is_interrupt == (t0.is_interrupt || tima_overflowed(
                        t0.tima,
                        t0.tma,
                        ticks_done as nat,
                    )),
                    *self == (Timer {
                        tima: self.tima,
                        timer_counter: self.timer_counter,
                        is_interrupt: self.is_interrupt,
                        ..mid
                    }),
                decreases self.timer_counter,
            {
                proof {
                    assert((ticks_done + 1) * round == ticks_done * round + round)
                        by (nonlinear_arith);
                    assert(ticks_done <= ticks_done * round) by (nonlinear_arith)
                        requires 1 <= round,
                    ;
                    assert((ticks_done + 1) as nat - 1 == ticks_done as nat);
                    assert(tima_after(t0.tima, t0.tma, (ticks_done + 1) as nat) == (
                    if tima_after(t0.tima, t0.tma, ticks_done as nat) == 255 {
                        t0.tma
                    } else {
                        (tima_after(t0.tima, t0.tma, ticks_done as nat) + 1) as u8
                    }));
                    assert(tima_overflowed(t0.tima, t0.tma, (ticks_done + 1) as nat) == (
                    tima_after(t0.tima, t0.tma, ticks_done as nat) == 255 || tima_overflowed(
                        t0.tima,
                        t0.tma,
                        ticks_done as nat,
                    )));
                }
                self.timer_counter = self.timer_counter - round;
                if self.tima == 255 {
                    self.tima = self.tma;
                    self.is_interrupt = true;
                } else {
                    self.tima = self.tima + 1;
                }
                ticks_done = ticks_done + 1;
            }
            proof {
                lemma_fundamental_div_mod_converse(
                    t0.timer_counter + clock,
                    round as int,
                    ticks_done as int,
                    self.timer_counter as int,
                );
            }
        }
    }

    /// Reads a timer register, as `timer_load_s` describes.
    pub fn load(&self, addr: u16) -> (r: Result<u8, ()>)
        ensures
            r == timer_load_s(*self, addr),
    {
        match addr {
            0xff04 => Ok(self.div),
            0xff05 => Ok(self.tima),
            0xff06 => Ok(self.tma),
            0xff07 => Ok(
                (if self.tac.running {
                    4u8
                } else {
                    0u8
                }) + match self.tac.scale {
                    TimerScale::X1 => 0u8,
                    TimerScale::X4 => 3u8,
                    TimerScale::X16 => 2u8,
                    TimerScale::X64 => 1u8,
                },
            ),
            _ => Err(()),
        }
    }

    /// Writes a timer register, as `timer_store_s` describes.
    pub fn store(&mut self, addr: u16, value: u8) -> (r: Result<(), ()>)
        requires
            timer_wf(*old(self)),
        ensures
            match timer_store_s(*old(self), addr, value) {
                Ok(t) => r is Ok && *final(self) == t && timer_wf(t),
                Err(()) => r is Err && *final(self) == *old(self),
            },
    {
        match addr {
            0xff04 => {
                self.div = 0;
                self.div_counter = 0;
                Ok(())
            },
            0xff05 => {
                self.tima = value;
                Ok(())
            },
            0xff06 => {
                self.tma = value;
                Ok(())
            },
            0xff07 => {
                self.tac.running = (value & 0x4) != 0;
                self.tac.scale = match value % 4 {
                    0 => TimerScale::X1,
                    1 => TimerScale::X64,
                    2 => TimerScale::X16,
                    _ => TimerScale::X4,
                };
                self.roundvalue = match self.tac.scale {
                    TimerScale::X1 => 1024,
                    TimerScale::X4 => 256,
                    TimerScale::X16 => 64,
                    TimerScale::X64 => 16,
                };
                self.timer_counter = 0;
                Ok(())
            },
            _ => Err(()),
        }
    }
}

} // verus!
