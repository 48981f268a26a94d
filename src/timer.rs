use vstd::prelude::*;
use crate::time::Hertz;

verus! {

/// Output-compare mode "PWM mode 1": the channel is active while the counter
/// is below the compare value.
pub const PWM_MODE_1: u8 = 6;

/// The register block of the carrier timer: prescaler, auto-reload,
/// compare value of channel 1, its output-compare configuration, and the
/// counter's run state. Each register has the width of the hardware field.
#[derive(Debug)]
pub struct Tim17 {
    psc: u16,
    arr: u16,
    ccr1: u16,
    cc1e: bool,
    oc1pe: bool,
    oc1m: u8,
    cen: bool,
}

/// The contents of the carrier timer's registers.
pub struct TimerState {
    pub prescaler: nat,
    pub reload: nat,
    pub compare: nat,
    pub output_enabled: bool,
    pub preload: bool,
    pub mode: nat,
    pub running: bool,
}

impl View for Tim17 {
    type V = TimerState;

    closed spec fn view(&self) -> TimerState {
        TimerState {
            prescaler: self.psc as nat,
            reload: self.arr as nat,
            compare: self.ccr1 as nat,
            output_enabled: self.cc1e,
            preload: self.oc1pe,
            mode: self.oc1m as nat,
            running: self.cen,
        }
    }
}

/// The register contents after power-on or a peripheral reset.
pub open spec fn power_on_state() -> TimerState {
    TimerState {
        prescaler: 0,
        reload: 0xffff,
        compare: 0,
        output_enabled: false,
        preload: false,
        mode: 0,
        running: false,
    }
}

impl Tim17 {
    /// Takes the timer peripheral in its power-on state.
    pub fn take() -> (r: Tim17)
        ensures
            r@ == power_on_state(),
    {
        Tim17 { psc: 0, arr: 0xffff, ccr1: 0, cc1e: false, oc1pe: false, oc1m: 0, cen: false }
    }

    /// Puts every register back to its power-on value.
    pub fn reset(&mut self)
        ensures
            final(self)@ == power_on_state(),
    {
        *self = Tim17::take();
    }

    /// Writes the prescaler register.
    pub fn write_prescaler(&mut self, psc: u16)
        ensures
            final(self)@ == (TimerState { prescaler: psc as nat, ..old(self)@ }),
    {
        self.psc = psc;
    }

    /// Writes the auto-reload register.
    pub fn write_reload(&mut self, arr: u16)
        ensures
            final(self)@ == (TimerState { reload: arr as nat, ..old(self)@ }),
    {
        self.arr = arr;
    }

    /// Writes the compare register of channel 1; bits beyond its 16-bit
    /// width are dropped.
    pub fn write_compare(&mut self, bits: u32)
        ensures
            final(self)@ == (TimerState { compare: (bits % 0x10000) as nat, ..old(self)@ }),
    {
        self.ccr1 = (bits & 0xffff) as u16;
        assert((bits & 0xffff) == bits % 0x10000) by (bit_vector);
    }

    /// Sets or clears the counter-enable bit.
    pub fn set_running(&mut self, on: bool)
        ensures
            final(self)@ == (TimerState { running: on, ..old(self)@ }),
    {
        self.cen = on;
    }

    /// Selects the output-compare mode of channel 1 and its preload bit.
    pub fn set_output_mode(&mut self, preload: bool, mode: u8)
        ensures
            final(self)@ == (TimerState { preload: preload, mode: mode as nat, ..old(self)@ }),
    {
        self.oc1pe = preload;
        self.oc1m = mode;
    }

    /// Connects channel 1's comparator to its pin, or disconnects it.
    pub fn set_output_enabled(&mut self, on: bool)
        ensures
            final(self)@ == (TimerState { output_enabled: on, ..old(self)@ }),
    {
        self.cc1e = on;
    }

    /// Reads the compare register of channel 1.
    pub fn read_compare(&self) -> (r: u32)
        ensures
            r as nat == self@.compare,
    {
        self.ccr1 as u32
    }

    /// Reads the auto-reload register.
    pub fn read_reload(&self) -> (r: u32)
        ensures
            r as nat == self@.reload,
    {
        self.arr as u32
    }
}

/// Clock frequencies that the clock tree was frozen with.
#[derive(Clone, Copy, Debug)]
pub struct Clocks {
    /// The clock that feeds the timers on the APB bus.
    pub apb_tim_clk: Hertz,
}

/// The reset and clock controller, as far as the carrier timer is concerned:
/// the timer's clock gate and its peripheral reset line.
#[derive(Debug)]
pub struct Rcc {
    clocks: Clocks,
    tim17_clock: bool,
    tim17_reset: bool,
}

impl Rcc {
    /// A controller with the given frozen clocks, the timer's clock gated
    /// off and its reset line released.
    pub fn new(clocks: Clocks) -> (r: Rcc)
        ensures
            r.tim_clk() == clocks.apb_tim_clk.0,
            !r.tim17_clock_enabled(),
            !r.tim17_in_reset(),
    {
        Rcc { clocks, tim17_clock: false, tim17_reset: false }
    }

    /// The frequency of the clock that feeds the timers.
    pub closed spec fn tim_clk(&self) -> u32 {
        self.clocks.apb_tim_clk.0
    }

    /// The clocks that the clock tree was frozen with.
    pub fn clocks(&self) -> (r: Clocks)
        ensures
            r.apb_tim_clk.0 == self.tim_clk(),
    {
        self.clocks
    }

    pub closed spec fn tim17_clock_enabled(&self) -> bool {
        self.tim17_clock
    }

    pub closed spec fn tim17_in_reset(&self) -> bool {
        self.tim17_reset
    }

    /// Whether the carrier timer's clock gate is open.
    pub fn is_tim17_clock_enabled(&self) -> (r: bool)
        ensures
            r == self.tim17_clock_enabled(),
    {
        self.tim17_clock
    }

    /// Whether the carrier timer is held in reset.
    pub fn is_tim17_in_reset(&self) -> (r: bool)
        ensures
            r == self.tim17_in_reset(),
    {
        self.tim17_reset
    }

    /// Opens the carrier timer's clock gate.
    pub fn enable_tim17_clock(&mut self)
        ensures
            final(self).tim_clk() == old(self).tim_clk(),
            final(self).tim17_clock_enabled(),
            final(self).tim17_in_reset() == old(self).tim17_in_reset(),
    {
        self.tim17_clock = true;
    }

    /// Asserts the timer's reset line, which returns its registers to their
    /// power-on values, then releases it.
    pub fn reset_tim17(&mut self, timer: &mut Tim17)
        ensures
            final(self).tim_clk() == old(self).tim_clk(),
            final(self).tim17_clock_enabled() == old(self).tim17_clock_enabled(),
            !final(self).tim17_in_reset(),
            final(timer)@ == power_on_state(),
    {
        self.tim17_reset = true;
        timer.reset();
        self.tim17_reset = false;
    }
}

} // verus!
