use vstd::prelude::*;
use crate::divider::{
    clock_divider, divider_defined, prescaler_for, ratio_of, reload_for, ConfigError,
};
use crate::time::Hertz;
use crate::timer::{power_on_state, Rcc, Tim17, TimerState, PWM_MODE_1};

verus! {

/// A pin that can be routed to the carrier timer's compare output.
pub trait IrOutPin {
    /// Whether routing this pin succeeds.
    spec fn ready(&self) -> bool;

    /// Routes the pin to the compare output; false when that is not possible.
    fn setup(&self) -> (r: bool)
        ensures
            r == self.ready(),
    ;
}

/// The timer that gates the carrier with the protocol's envelope.
pub trait IrModulator {
    /// Whether the one-time setup succeeds.
    spec fn ready(&self) -> bool;

    /// Performs the modulator's one-time setup; false when it cannot complete.
    fn setup(&self) -> (r: bool)
        ensures
            r == self.ready(),
    ;
}

/// Port B, pin 9, in analog mode. Selecting its alternate function for the
/// carrier output is not supported yet, so its setup always fails.
#[derive(Clone, Copy, Debug)]
pub struct Pb9;

impl IrOutPin for Pb9 {
    open spec fn ready(&self) -> bool {
        false
    }

    fn setup(&self) -> (r: bool) {
        false
    }
}

/// The timer that serves as modulator; it needs no setup of its own.
#[derive(Clone, Copy, Debug)]
pub struct Tim16;

impl IrModulator for Tim16 {
    open spec fn ready(&self) -> bool {
        true
    }

    fn setup(&self) -> (r: bool) {
        true
    }
}

/// The timer registers right after construction: the derived divider, the
/// compare value at half the reload count, and the counter running.
pub open spec fn initial_state(prescaler: nat, reload: nat) -> TimerState {
    TimerState {
        prescaler: prescaler,
        reload: reload,
        compare: reload / 2,
        running: true,
        ..power_on_state()
    }
}

/// What construction yields for a timer clock `clk`, a carrier frequency
/// `freq`, and whether the pin and the modulator can be set up.
pub open spec fn construction_outcome(
    clk: u32,
    freq: u32,
    pin_ready: bool,
    modulator_ready: bool,
) -> Result<TimerState, ConfigError> {
    if !divider_defined(clk as int, freq as int) {
        Err(ConfigError::FrequencyOutOfRange)
    } else if !pin_ready {
        Err(ConfigError::PinSetup)
    } else if !modulator_ready {
        Err(ConfigError::ModulatorSetup)
    } else {
        let ratio = ratio_of(clk as int, freq as int);
        Ok(initial_state(prescaler_for(ratio) as nat, reload_for(ratio) as nat))
    }
}

/// Right after a successful construction the largest meaningful duty is the
/// derived reload count, the duty is half of it, the counter runs and the
/// output is still disconnected from the pin.
pub proof fn lemma_initial_duty(clk: u32, freq: u32, pin_ready: bool, modulator_ready: bool)
    requires
        construction_outcome(clk, freq, pin_ready, modulator_ready) is Ok,
    ensures
        ({
            let s = construction_outcome(clk, freq, pin_ready, modulator_ready)->Ok_0;
            let ratio = ratio_of(clk as int, freq as int);
            &&& s.reload == reload_for(ratio)
            &&& s.prescaler == prescaler_for(ratio)
            &&& s.compare == s.reload / 2
            &&& s.running
            &&& !s.output_enabled
        }),
{
    crate::divider::lemma_divider_accuracy(clk, freq);
}

/// An infrared carrier transmitter: the carrier timer, the pin it drives and
/// the modulator that gates it.
pub struct IrTransmitter<M, IR>
where
    M: IrModulator,
    IR: IrOutPin,
{
    carrier: Tim17,
    _ir_out: IR,
    _modulator: M,
}

/// Whether a construction result agrees with the outcome `o`.
pub open spec fn outcome_matches<M: IrModulator, IR: IrOutPin>(
    r: Result<IrTransmitter<M, IR>, ConfigError>,
    o: Result<TimerState, ConfigError>,
) -> bool {
    match r {
        Ok(t) => o == Ok::<TimerState, ConfigError>(t.state()),
        Err(e) => o == Err::<TimerState, ConfigError>(e),
    }
}

/// Builds a transmitter from a carrier timer.
pub trait IrTransmitterExt<M, IR>: Sized
where
    M: IrModulator,
    IR: IrOutPin,
{
    fn ir_transmitter(
        self,
        freq: Hertz,
        modulator: M,
        ir_out: IR,
        rcc: &mut Rcc,
    ) -> (r: Result<IrTransmitter<M, IR>, ConfigError>)
        ensures
            outcome_matches(
                r,
                construction_outcome(old(rcc).tim_clk(), freq.0, ir_out.ready(), modulator.ready()),
            ),
            final(rcc).tim_clk() == old(rcc).tim_clk(),
            final(rcc).tim17_clock_enabled(),
            !final(rcc).tim17_in_reset(),
    ;
}

impl<M, IR> IrTransmitter<M, IR>
where
    M: IrModulator,
    IR: IrOutPin,
{
    /// The carrier timer's registers.
    pub closed spec fn state(&self) -> TimerState {
        self.carrier@
    }

    /// Takes the carrier timer, resets it, divides the timer clock down to
    /// `freq`, sets half duty, starts the counter, then sets up the output
    /// pin and the modulator.
    pub fn new(carrier: Tim17, freq: Hertz, _modulator: M, _ir_out: IR, rcc: &mut Rcc) -> (r:
        Result<Self, ConfigError>)
        ensures
            outcome_matches(
                r,
                construction_outcome(old(rcc).tim_clk(), freq.0, _ir_out.ready(), _modulator.ready()),
            ),
            final(rcc).tim_clk() == old(rcc).tim_clk(),
            final(rcc).tim17_clock_enabled(),
            !final(rcc).tim17_in_reset(),
    {
        let mut carrier = carrier;
        rcc.enable_tim17_clock();
        rcc.reset_tim17(&mut carrier);
        let cfg = match clock_divider(rcc.clocks().apb_tim_clk, freq) {
            Ok(cfg) => cfg,
            Err(e) => return Err(e),
        };
        carrier.write_prescaler(cfg.prescaler);
        carrier.write_reload(cfg.reload);
        carrier.write_compare(cfg.reload as u32 / 2);
        carrier.set_running(true);

        if !_ir_out.setup() {
            return Err(ConfigError::PinSetup);
        }
        if !_modulator.setup() {
            return Err(ConfigError::ModulatorSetup);
        }
        Ok(IrTransmitter { carrier, _ir_out, _modulator })
    }

    /// Disconnects the compare output from the pin; the counter keeps running.
    pub fn disable(&mut self)
        ensures
            final(self).state() == (TimerState { output_enabled: false, ..old(self).state() }),
    {
        self.carrier.set_output_enabled(false);
    }

    /// Selects PWM mode 1 with preload and connects the compare output to
    /// the pin.
    pub fn enable(&mut self)
        ensures
            final(self).state() == (TimerState {
                preload: true,
                mode: PWM_MODE_1 as nat,
                output_enabled: true,
                ..old(self).state()
            }),
    {
        self.carrier.set_output_mode(true, PWM_MODE_1);
        self.carrier.set_output_enabled(true);
    }

    /// The compare value.
    pub fn get_duty(&self) -> (r: u32)
        ensures
            r as nat == self.state().compare,
    {
        self.carrier.read_compare()
    }

    /// The reload count, the largest meaningful compare value.
    pub fn get_max_duty(&self) -> (r: u32)
        ensures
            r as nat == self.state().reload,
    {
        self.carrier.read_reload()
    }

    /// Writes the compare value, truncated to the register's 16 bits.
    pub fn set_duty(&mut self, duty: u32)
        ensures
            final(self).state() == (TimerState {
                compare: (duty % 0x10000) as nat,
                ..old(self).state()
            }),
    {
        self.carrier.write_compare(duty);
    }
}

impl<M, IR> IrTransmitterExt<M, IR> for Tim17
where
    M: IrModulator,
    IR: IrOutPin,
{
    fn ir_transmitter(
        self,
        freq: Hertz,
        modulator: M,
        ir_out: IR,
        rcc: &mut Rcc,
    ) -> (r: Result<IrTransmitter<M, IR>, ConfigError>) {
        IrTransmitter::new(self, freq, modulator, ir_out, rcc)
    }
}

} // verus!
