use irtim::divider::{clock_divider, ConfigError, DividerConfig};
use irtim::time::Hertz;

#[test]
fn carrier_38khz_from_16mhz() {
    let c = clock_divider(Hertz(16_000_000), Hertz(38_000)).unwrap();
    assert_eq!(c, DividerConfig { prescaler: 0, reload: 420 });
    assert_eq!(c.effective_frequency(Hertz(16_000_000)), Hertz(38_004));
}

#[test]
fn prescaler_needed_for_slow_target() {
    // 64 MHz / 38 Hz = 1_684_210; ceil(1_684_210 / 65536) = 26.
    let c = clock_divider(Hertz(64_000_000), Hertz(38)).unwrap();
    assert_eq!(c, DividerConfig { prescaler: 25, reload: 64_776 });
    assert_eq!(c.effective_frequency(Hertz(64_000_000)), Hertz(38));
}

#[test]
fn ratio_of_exactly_65536_needs_no_prescaler() {
    let c = clock_divider(Hertz(65_536), Hertz(1)).unwrap();
    assert_eq!(c, DividerConfig { prescaler: 0, reload: 65_535 });
    let d = clock_divider(Hertz(65_537), Hertz(1)).unwrap();
    assert_eq!(d, DividerConfig { prescaler: 1, reload: 32_767 });
}

#[test]
fn equal_frequencies_divide_by_one() {
    let c = clock_divider(Hertz(8_000_000), Hertz(8_000_000)).unwrap();
    assert_eq!(c, DividerConfig { prescaler: 0, reload: 0 });
}

#[test]
fn largest_input_fits_registers() {
    let c = clock_divider(Hertz(u32::MAX), Hertz(1)).unwrap();
    assert_eq!(c, DividerConfig { prescaler: 65_535, reload: 65_534 });
}

#[test]
fn target_above_input_is_refused() {
    assert_eq!(
        clock_divider(Hertz(16_000_000), Hertz(16_000_001)),
        Err(ConfigError::FrequencyOutOfRange)
    );
}

#[test]
fn zero_target_is_refused() {
    assert_eq!(clock_divider(Hertz(16_000_000), Hertz(0)), Err(ConfigError::FrequencyOutOfRange));
}

#[test]
fn divider_within_one_unit_without_prescaler() {
    for (input, target) in [(16_000_000u32, 38_000u32), (48_000_000, 36_000), (1_000, 7)] {
        let c = clock_divider(Hertz(input), Hertz(target)).unwrap();
        let total = (c.prescaler as u64 + 1) * (c.reload as u64 + 1);
        assert!(total * target as u64 <= input as u64);
        assert!((input as u64) < (total + 1) * target as u64);
    }
}

#[test]
fn khz_is_thousand_hertz() {
    assert_eq!(Hertz::khz(38), Hertz(38_000));
    assert_eq!(Hertz(38_000).hz(), 38_000);
}
