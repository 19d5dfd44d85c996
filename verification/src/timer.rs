//! The timer: a free-running divider byte plus a configurable-rate counter
//! that reloads from a modulo value and raises the Timer interrupt on
//! overflow.

use vstd::prelude::*;
use crate::interrupt::{Interrupt, InterruptHandler, spec_set_interrupt};

verus! {

/// The four selectable counter rates.
#[derive(Clone, Copy, Debug, PartialEq, Eq, Structural)]
pub enum Clock {
    Clk4096Hz,
    Clk262144Hz,
    Clk65536Hz,
    Clk16384Hz,
}

/// The 2-bit clock-select field encoding of a rate.
pub open spec fn spec_clock_bits(c: Clock) -> u8 {
    match c {
        Clock::Clk4096Hz => 0,
        Clock::Clk262144Hz => 1,
        Clock::Clk65536Hz => 2,
        Clock::Clk16384Hz => 3,
    }
}

/// The rate selected by the low two bits of a control write.
pub open spec fn spec_clock_from_bits(v: u8) -> Clock {
    if v % 4 == 0 {
        Clock::Clk4096Hz
    } else if v % 4 == 1 {
        Clock::Clk262144Hz
    } else if v % 4 == 2 {
        Clock::Clk65536Hz
    } else {
        Clock::Clk16384Hz
    }
}

/// The number of clock cycles between counter increments for a rate.
pub open spec fn spec_clock_ratio(c: Clock) -> u32 {
    match c {
        Clock::Clk4096Hz => 1024,
        Clock::Clk262144Hz => 16,
        Clock::Clk65536Hz => 64,
        Clock::Clk16384Hz => 256,
    }
}

impl Clock {
    pub fn ratio(&self) -> (r: u32)
        ensures
            r == spec_clock_ratio(*self),
    {
        match *self {
            Clock::Clk4096Hz => 1024,
            Clock::Clk262144Hz => 16,
            Clock::Clk65536Hz => 64,
            Clock::Clk16384Hz => 256,
        }
    }

    pub fn bits(&self) -> (r: u8)
        ensures
            r == spec_clock_bits(*self),
    {
        match *self {
            Clock::Clk4096Hz => 0,
            Clock::Clk262144Hz => 1,
            Clock::Clk65536Hz => 2,
            Clock::Clk16384Hz => 3,
        }
    }

    pub fn from_bits(v: u8) -> (r: Clock)
        ensures
            r == spec_clock_from_bits(v),
    {
        match v % 4 {
            0 => Clock::Clk4096Hz,
            1 => Clock::Clk262144Hz,
            2 => Clock::Clk65536Hz,
            _ => Clock::Clk16384Hz,
        }
    }
}

/// The timer state. `counter` accumulates clock cycles toward the next
/// increment of `tima`; it never exceeds 1027, so the arithmetic below
/// cannot overflow.
#[derive(Clone, Copy, Debug, PartialEq, Eq, Structural)]
pub struct Timer {
    pub divider: u8,
    pub counter: u32,
    pub tima: u8,
    pub modulo: u8,
    pub enabled: bool,
    pub clock: Clock,
}

impl Timer {
    /// The internal cycle accumulator stays below every selectable ratio
    /// plus one step.
    pub open spec fn wf(self) -> bool {
        self.counter <= 1027
    }
}

/// One machine cycle of the timer: the divider advances by four clock
/// cycles; when enabled, the accumulator advances by four and, on crossing
/// the selected ratio, the counter increments, reloading from the modulo
/// value and signalling the Timer interrupt on overflow.
#[verifier::opaque]
pub open spec fn spec_timer_step(t: Timer, ih: InterruptHandler) -> (Timer, InterruptHandler) {
    let t1 = Timer { divider: ((t.divider + 4) % 0x100) as u8, ..t };
    if t1.enabled {
        let counter = (t1.counter + 4) as u32;
        if counter >= spec_clock_ratio(t1.clock) {
            let counter = (counter - spec_clock_ratio(t1.clock)) as u32;
            if t1.tima == 0xFF {
                (Timer { counter, tima: t1.modulo, ..t1 }, spec_set_interrupt(ih, Interrupt::Timer))
            } else {
                (Timer { counter, tima: (t1.tima + 1) as u8, ..t1 }, ih)
            }
        } else {
            (Timer { counter, ..t1 }, ih)
        }
    } else {
        (t1, ih)
    }
}

/// The control register byte: the 2-bit clock select plus the enable bit.
pub open spec fn spec_timer_control(t: Timer) -> u8 {
    (spec_clock_bits(t.clock) + if t.enabled { 4u8 } else { 0u8 }) as u8
}

/// The timer state after a memory-mapped register write. Writing the divider
/// register resets it to zero rather than storing the value.
pub open spec fn spec_timer_write(t: Timer, addr: u16, value: u8) -> Timer {
    if addr == 0xFF04 {
        Timer { divider: 0, ..t }
    } else if addr == 0xFF05 {
        Timer { tima: value, ..t }
    } else if addr == 0xFF06 {
        Timer { modulo: value, ..t }
    } else {
        Timer { enabled: (value / 4) % 2 == 1, clock: spec_clock_from_bits(value), ..t }
    }
}

/// The byte a memory-mapped timer register read returns.
pub open spec fn spec_timer_read(t: Timer, addr: u16) -> u8 {
    if addr == 0xFF04 {
        t.divider
    } else if addr == 0xFF05 {
        t.tima
    } else if addr == 0xFF06 {
        t.modulo
    } else {
        spec_timer_control(t)
    }
}

/// The power-on timer state.
pub open spec fn spec_timer_new() -> Timer {
    Timer { divider: 0, counter: 0, tima: 0, modulo: 0, enabled: false, clock: Clock::Clk4096Hz }
}

impl Timer {
    pub fn new() -> (t: Timer)
        ensures
            t == spec_timer_new(),
            t.wf(),
    {
        Timer { divider: 0, counter: 0, tima: 0, modulo: 0, enabled: false, clock: Clock::Clk4096Hz }
    }

    /// Read one of the four timer registers (divider, counter, modulo,
    /// control).
    pub fn read_register(&self, addr: u16) -> (v: u8)
        requires
            0xFF04 <= addr <= 0xFF07,
        ensures
            v == spec_timer_read(*self, addr),
    {
        if addr == 0xFF04 {
            self.get_divider()
        } else if addr == 0xFF05 {
            self.get_counter()
        } else if addr == 0xFF06 {
            self.get_modulo()
        } else {
            self.get_control()
        }
    }

    pub fn get_divider(&self) -> (v: u8)
        ensures
            v == self.divider,
    {
        self.divider
    }

    pub fn reset_divider(&mut self)
        ensures
            *final(self) == (Timer { divider: 0, ..*old(self) }),
    {
        self.divider = 0;
    }

    pub fn get_counter(&self) -> (v: u8)
        ensures
            v == self.tima,
    {
        self.tima
    }

    pub fn set_counter(&mut self, value: u8)
        ensures
            *final(self) == (Timer { tima: value, ..*old(self) }),
    {
        self.tima = value;
    }

    pub fn get_modulo(&self) -> (v: u8)
        ensures
            v == self.modulo,
    {
        self.modulo
    }

    pub fn set_modulo(&mut self, value: u8)
        ensures
            *final(self) == (Timer { modulo: value, ..*old(self) }),
    {
        self.modulo = value;
    }

    pub fn get_control(&self) -> (v: u8)
        ensures
            v == spec_timer_control(*self),
    {
        self.clock.bits() + if self.enabled {
            4
        } else {
            0
        }
    }

    pub fn set_control(&mut self, value: u8)
        ensures
            *final(self) == (Timer {
                enabled: (value / 4) % 2 == 1,
                clock: spec_clock_from_bits(value),
                ..*old(self)
            }),
    {
        self.enabled = (value / 4) % 2 == 1;
        self.clock = Clock::from_bits(value);
    }

    /// Write one of the four timer registers; the divider write resets it.
    pub fn write_register(&mut self, addr: u16, value: u8)
        requires
            0xFF04 <= addr <= 0xFF07,
        ensures
            *final(self) == spec_timer_write(*old(self), addr, value),
    {
        if addr == 0xFF04 {
            self.reset_divider();
        } else if addr == 0xFF05 {
            self.set_counter(value);
        } else if addr == 0xFF06 {
            self.set_modulo(value);
        } else {
            self.set_control(value);
        }
    }

    /// Advance the timer by one machine cycle.
    pub fn step(&mut self, ih: &mut InterruptHandler)
        requires
            old(self).wf(),
        ensures
            (*final(self), *final(ih)) == spec_timer_step(*old(self), *old(ih)),
            final(self).wf(),
    {
        proof {
            reveal(spec_timer_step);
        }
        self.divider = self.divider.wrapping_add(4);

        if self.enabled {
            self.counter = self.counter + 4;

            let ratio = self.clock.ratio();
            if self.counter >= ratio {
                self.counter = self.counter - ratio;
                if self.tima == 0xFF {
                    self.tima = self.modulo;
                    ih.set_interrupt(Interrupt::Timer);
                } else {
                    self.tima = self.tima + 1;
                }
            }
        }
    }
}

} // verus!
