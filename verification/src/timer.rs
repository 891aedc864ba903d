//! The interval timer: a free-running 16-bit divider and a configurable
//! counter that reloads from a modulo register and raises an interrupt when
//! it overflows.

use vstd::prelude::*;

verus! {

/// The input clock of the counter, as the two low bits of TAC select it.
#[derive(Clone, Copy, Debug, PartialEq, Eq, Structural)]
pub enum InputClock {
    MODE0,
    MODE1,
    MODE2,
    MODE3,
}

impl InputClock {
    /// Base clocks per counter increment.
    pub open spec fn spec_period(self) -> u16 {
        match self {
            InputClock::MODE0 => 1024,
            InputClock::MODE1 => 16,
            InputClock::MODE2 => 64,
            InputClock::MODE3 => 256,
        }
    }

    /// The selector bits of TAC.
    pub open spec fn spec_code(self) -> u8 {
        match self {
            InputClock::MODE0 => 0,
            InputClock::MODE1 => 1,
            InputClock::MODE2 => 2,
            InputClock::MODE3 => 3,
        }
    }

    pub open spec fn spec_from_code(code: u8) -> InputClock {
        if code % 4 == 0 {
            InputClock::MODE0
        } else if code % 4 == 1 {
            InputClock::MODE1
        } else if code % 4 == 2 {
            InputClock::MODE2
        } else {
            InputClock::MODE3
        }
    }

    pub fn period(self) -> (r: u16)
        ensures
            r == self.spec_period(),
    {
        match self {
            InputClock::MODE0 => 1024,
            InputClock::MODE1 => 16,
            InputClock::MODE2 => 64,
            InputClock::MODE3 => 256,
        }
    }
}

#[derive(Clone, Copy, Debug, PartialEq, Eq, Structural)]
pub struct Timer {
    /// The internal divider; its high byte is the DIV register.
    pub divider: u16,
    /// TIMA.
    pub counter: u8,
    /// Base clocks left until TIMA counts again.
    pub counter_cycles: u16,
    /// TMA, the value that TIMA reloads on overflow.
    pub modulo: u8,
    pub enable: bool,
    pub clock: InputClock,
    /// An overflow that the bus has not collected yet.
    pub interrupt: bool,
}

impl Timer {
    /// The countdown to the next increment is never exhausted between ticks.
    pub open spec fn wf(self) -> bool {
        1 <= self.counter_cycles <= self.clock.spec_period()
    }

    pub open spec fn spec_new() -> Timer {
        Timer {
            divider: 0,
            counter: 0,
            counter_cycles: 1024,
            modulo: 0,
            enable: false,
            clock: InputClock::MODE0,
            interrupt: false,
        }
    }

    pub open spec fn spec_tick_divider(self) -> Timer {
        Timer { divider: ((self.divider + 1) % 0x10000) as u16, ..self }
    }

    /// One base clock of the counter: when the countdown runs out it starts
    /// again from the selected period and TIMA counts up, or, from 0xff,
    /// reloads TMA and raises the interrupt.
    pub open spec fn spec_tick_counter(self) -> Timer {
        if !self.enable {
            self
        } else if self.counter_cycles != 1 {
            Timer { counter_cycles: (self.counter_cycles - 1) as u16, ..self }
        } else if self.counter != 0xff {
            Timer {
                counter_cycles: self.clock.spec_period(),
                counter: (self.counter + 1) as u8,
                ..self
            }
        } else {
            Timer {
                counter_cycles: self.clock.spec_period(),
                counter: self.modulo,
                interrupt: true,
                ..self
            }
        }
    }

    /// One base clock.
    pub open spec fn spec_tick_one(self) -> Timer {
        self.spec_tick_divider().spec_tick_counter()
    }

    /// `cycles` base clocks in a row.
    pub open spec fn spec_tick(self, cycles: nat) -> Timer
        decreases cycles,
    {
        if cycles == 0 {
            self
        } else {
            self.spec_tick_one().spec_tick((cycles - 1) as nat)
        }
    }

    pub open spec fn spec_tac_read(self) -> u8 {
        ((if self.enable { 4int } else { 0 }) + self.clock.spec_code()) as u8
    }

    pub open spec fn spec_tac_write(self, value: u8) -> Timer {
        let clock = InputClock::spec_from_code(value);
        Timer { enable: value & 0x04 != 0, clock, counter_cycles: clock.spec_period(), ..self }
    }

    pub fn new() -> (r: Timer)
        ensures
            r == Timer::spec_new(),
            r.wf(),
    {
        Timer {
            divider: 0,
            counter: 0,
            counter_cycles: 1024,
            modulo: 0,
            enable: false,
            clock: InputClock::MODE0,
            interrupt: false,
        }
    }

    pub fn tick(&mut self, cycles: usize)
        requires
            old(self).wf(),
        ensures
            *final(self) == old(self).spec_tick(cycles as nat),
            final(self).wf(),
    {
        let mut i: usize = 0;
        while i < cycles
            invariant
                i <= cycles,
                self.wf(),
                self.spec_tick((cycles - i) as nat) == old(self).spec_tick(cycles as nat),
            decreases cycles - i,
        {
            self.tick_divider();
            self.tick_counter();
            i += 1;
        }
    }

    pub fn tick_divider(&mut self)
        ensures
            *final(self) == old(self).spec_tick_divider(),
    {
        self.divider = self.divider.wrapping_add(1);
    }

    pub fn tick_counter(&mut self)
        requires
            old(self).wf(),
        ensures
            *final(self) == old(self).spec_tick_counter(),
            final(self).wf(),
    {
        if !self.enable {
            return ;
        }
        self.counter_cycles -= 1;
        if self.counter_cycles == 0 {
            self.counter_cycles = self.clock.period();
            if self.counter != 0xff {
                self.counter += 1;
            } else {
                self.counter = self.modulo;
                self.interrupt = true;
            }
        }
    }

    pub fn div_read(&self) -> (r: u8)
        ensures
            r == (self.divider >> 8) as u8,
    {
        (self.divider >> 8) as u8
    }

    /// Any write to DIV clears the whole divider.
    pub fn div_write(&mut self, value: u8)
        ensures
            *final(self) == (Timer { divider: 0, ..*old(self) }),
            old(self).wf() ==> final(self).wf(),
    {
        self.divider = 0;
    }

    pub fn tima_read(&self) -> (r: u8)
        ensures
            r == self.counter,
    {
        self.counter
    }

    pub fn tima_write(&mut self, value: u8)
        ensures
            *final(self) == (Timer { counter: value, ..*old(self) }),
            old(self).wf() ==> final(self).wf(),
    {
        self.counter = value;
    }

    pub fn tma_read(&self) -> (r: u8)
        ensures
            r == self.modulo,
    {
        self.modulo
    }

    pub fn tma_write(&mut self, value: u8)
        ensures
            *final(self) == (Timer { modulo: value, ..*old(self) }),
            old(self).wf() ==> final(self).wf(),
    {
        self.modulo = value;
    }

    pub fn tac_read(&self) -> (r: u8)
        ensures
            r == self.spec_tac_read(),
    {
        let mut value: u8 = 0;
        if self.enable {
            value = 4;
        }
        value + match self.clock {
            InputClock::MODE0 => 0x00,
            InputClock::MODE1 => 0x01,
            InputClock::MODE2 => 0x02,
            InputClock::MODE3 => 0x03,
        }
    }

    /// Sets the enable bit and the input clock, and restarts the countdown
    /// with the new period.
    pub fn tac_write(&mut self, value: u8)
        ensures
            *final(self) == old(self).spec_tac_write(value),
            final(self).wf(),
    {
        self.enable = (value & 0x04) != 0;
        self.clock = match value % 4 {
            0x00 => InputClock::MODE0,
            0x01 => InputClock::MODE1,
            0x02 => InputClock::MODE2,
            _ => InputClock::MODE3,
        };
        self.counter_cycles = self.clock.period();
    }

    /// Hands the pending overflow to the caller and clears it.
    pub fn get_interrupt_status(&mut self) -> (r: bool)
        ensures
            r == old(self).interrupt,
            *final(self) == (Timer { interrupt: false, ..*old(self) }),
            old(self).wf() ==> final(self).wf(),
    {
        if self.interrupt {
            self.interrupt = false;
            return true;
        }
        false
    }

    /// The divider counts every base clock and wraps at 65536.
    pub proof fn lemma_divider(t: Timer, n: nat)
        ensures
            t.spec_tick(n).divider == (t.divider + n) % 0x10000,
        decreases n,
    {
        if n > 0 {
            Timer::lemma_divider(t.spec_tick_one(), (n - 1) as nat);
        }
    }

    /// While the timer is enabled, `n` base clocks that do not exhaust the
    /// countdown only shorten it; the clock that exhausts it moves TIMA.
    pub proof fn lemma_countdown(t: Timer, n: nat)
        requires
            t.wf(),
            t.enable,
            n < t.counter_cycles,
        ensures
            t.spec_tick(n).counter == t.counter,
            t.spec_tick(n).counter_cycles == t.counter_cycles - n,
            t.spec_tick(n).interrupt == t.interrupt,
            t.spec_tick(n).modulo == t.modulo,
            t.spec_tick(n).enable,
            t.spec_tick(n).clock == t.clock,
        decreases n,
    {
        if n > 0 {
            Timer::lemma_countdown(t.spec_tick_one(), (n - 1) as nat);
        }
    }

    /// An enabled timer overflows exactly on the clock that exhausts the
    /// countdown while TIMA holds 0xff: TIMA then holds TMA and the interrupt
    /// is pending.
    pub proof fn lemma_overflow(t: Timer)
        requires
            t.wf(),
            t.enable,
            t.counter == 0xff,
        ensures
            t.spec_tick(t.counter_cycles as nat).counter == t.modulo,
            t.spec_tick(t.counter_cycles as nat).interrupt,
    {
        let n = (t.counter_cycles - 1) as nat;
        Timer::lemma_countdown(t, n);
        Timer::lemma_tick_split(t, n, 1);
        let u = t.spec_tick(n);
        assert(u.spec_tick(1) == u.spec_tick_one().spec_tick(0));
    }

    /// Ticking `a + b` clocks is ticking `a` clocks and then `b` clocks.
    pub proof fn lemma_tick_split(t: Timer, a: nat, b: nat)
        ensures
            t.spec_tick(a + b) == t.spec_tick(a).spec_tick(b),
        decreases a,
    {
        if a > 0 {
            Timer::lemma_tick_split(t.spec_tick_one(), (a - 1) as nat, b);
        }
    }
}

} // verus!
