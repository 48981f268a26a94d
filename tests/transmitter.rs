use irtim::divider::ConfigError;
use irtim::irtim::{IrModulator, IrOutPin, IrTransmitter, IrTransmitterExt, Pb9, Tim16};
use irtim::time::Hertz;
use irtim::timer::{Clocks, Rcc, Tim17};

#[derive(Clone, Copy)]
struct RoutedPin;

impl IrOutPin for RoutedPin {
    fn ready(&self) -> bool {
        true
    }

    fn setup(&self) -> bool {
        true
    }
}

#[derive(Clone, Copy)]
struct FailingModulator;

impl IrModulator for FailingModulator {
    fn ready(&self) -> bool {
        false
    }

    fn setup(&self) -> bool {
        false
    }
}

fn rcc_at(hz: u32) -> Rcc {
    Rcc::new(Clocks { apb_tim_clk: Hertz(hz) })
}

#[test]
fn construction_sets_half_duty() {
    let mut rcc = rcc_at(16_000_000);
    let t = IrTransmitter::new(Tim17::take(), Hertz(38_000), Tim16, RoutedPin, &mut rcc).unwrap();
    assert_eq!(t.get_max_duty(), 420);
    assert_eq!(t.get_duty(), 210);
    assert!(rcc.is_tim17_clock_enabled());
    assert!(!rcc.is_tim17_in_reset());
}

#[test]
fn construction_through_extension_trait() {
    let mut rcc = rcc_at(64_000_000);
    let t = Tim17::take().ir_transmitter(Hertz::khz(38), Tim16, RoutedPin, &mut rcc).unwrap();
    assert_eq!(t.get_max_duty(), 1683);
    assert_eq!(t.get_duty(), 841);
}

#[test]
fn unsupported_pin_fails_construction() {
    let mut rcc = rcc_at(16_000_000);
    let r = IrTransmitter::new(Tim17::take(), Hertz(38_000), Tim16, Pb9, &mut rcc);
    assert_eq!(r.err(), Some(ConfigError::PinSetup));
}

#[test]
fn failing_modulator_fails_construction() {
    let mut rcc = rcc_at(16_000_000);
    let r = IrTransmitter::new(Tim17::take(), Hertz(38_000), FailingModulator, RoutedPin, &mut rcc);
    assert_eq!(r.err(), Some(ConfigError::ModulatorSetup));
}

#[test]
fn carrier_above_clock_fails_construction() {
    let mut rcc = rcc_at(16_000);
    let r = IrTransmitter::new(Tim17::take(), Hertz(38_000), Tim16, RoutedPin, &mut rcc);
    assert_eq!(r.err(), Some(ConfigError::FrequencyOutOfRange));
}

#[test]
fn set_duty_reads_back_and_truncates() {
    let mut rcc = rcc_at(16_000_000);
    let mut t = IrTransmitter::new(Tim17::take(), Hertz(38_000), Tim16, RoutedPin, &mut rcc).unwrap();
    t.set_duty(0);
    assert_eq!(t.get_duty(), 0);
    t.set_duty(420);
    assert_eq!(t.get_duty(), 420);
    t.set_duty(0x1_0005);
    assert_eq!(t.get_duty(), 5);
    assert_eq!(t.get_max_duty(), 420);
}

#[test]
fn enable_and_disable_keep_duty() {
    let mut rcc = rcc_at(16_000_000);
    let mut t = IrTransmitter::new(Tim17::take(), Hertz(38_000), Tim16, RoutedPin, &mut rcc).unwrap();
    t.enable();
    assert_eq!(t.get_duty(), 210);
    t.disable();
    assert_eq!(t.get_duty(), 210);
    assert_eq!(t.get_max_duty(), 420);
}
