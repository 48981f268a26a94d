use vstd::prelude::*;
use crate::time::Hertz;

verus! {

/// Largest value that a 16-bit timer register holds.
pub const REGISTER_MAX: u32 = 0xffff;

/// Why a transmitter could not be configured.
#[derive(Clone, Copy, Debug, PartialEq, Eq, Structural)]
pub enum ConfigError {
    /// The target frequency is zero or above the input clock.
    FrequencyOutOfRange,
    /// The output pin could not be routed to the compare channel.
    PinSetup,
    /// The modulator could not be set up.
    ModulatorSetup,
}

/// The two stages of a 16-bit timer's divider.
#[derive(Clone, Copy, Debug, PartialEq, Eq, Structural)]
pub struct DividerConfig {
    pub prescaler: u16,
    pub reload: u16,
}

/// Input cycles per target cycle, rounded down.
pub open spec fn ratio_of(input: int, target: int) -> int {
    input / target
}

/// The smallest prescaler `p` with `ratio <= (p + 1) * 65536`.
pub open spec fn prescaler_for(ratio: int) -> int {
    (ratio - 1) / 65536
}

/// The reload count that divides the prescaled clock down to `ratio`.
pub open spec fn reload_for(ratio: int) -> int {
    ratio / (prescaler_for(ratio) + 1) - 1
}

/// Whether a divider can be derived for these frequencies.
pub open spec fn divider_defined(input: int, target: int) -> bool {
    0 < target <= input
}

/// Every valid pair of frequencies gets register values that fit in 16 bits,
/// and the total division `(p + 1) * (r + 1)` is the largest multiple of
/// `p + 1` that does not exceed `input / target`. In particular the effective
/// frequency `input / ((p + 1) * (r + 1))` never lies below the target, and
/// whenever no prescaling is needed (`input / target <= 65536`) the total
/// division is within one unit of the exact quotient `input / target`.
pub proof fn lemma_divider_accuracy(input: u32, target: u32)
    requires
        divider_defined(input as int, target as int),
    ensures
        ({
            let ratio = ratio_of(input as int, target as int);
            let p = prescaler_for(ratio);
            let r = reload_for(ratio);
            let total = (p + 1) * (r + 1);
            &&& 1 <= ratio
            &&& 0 <= p <= 65535
            &&& 0 <= r <= 65535
            &&& p * 65536 < ratio <= (p + 1) * 65536
            &&& total <= ratio < total + (p + 1)
            &&& total * target <= input < (total + p + 1) * target
            &&& (p == 0 <==> ratio <= 65536)
            &&& (p == 0 ==> total * target <= input < (total + 1) * target)
        }),
{
    let i = input as int;
    let t = target as int;
    let ratio = i / t;
    assert(ratio >= 1) by (nonlinear_arith)
        requires 0 < t <= i, ratio == i / t;
    assert(ratio <= 0xffff_ffff) by (nonlinear_arith)
        requires 0 < t <= i, i <= 0xffff_ffff, ratio == i / t;
    let p = prescaler_for(ratio);
    assert(0 <= p <= 65535 && p * 65536 < ratio <= (p + 1) * 65536) by (nonlinear_arith)
        requires ratio >= 1, ratio <= 0xffff_ffff, p == (ratio - 1) / 65536;
    let q = ratio / (p + 1);
    let r = q - 1;
    assert(q * (p + 1) <= ratio < (q + 1) * (p + 1)) by (nonlinear_arith)
        requires p >= 0, ratio >= 0, q == ratio / (p + 1);
    assert(1 <= q <= 65536) by (nonlinear_arith)
        requires
            p >= 0,
            p * 65536 < ratio <= (p + 1) * 65536,
            q * (p + 1) <= ratio < (q + 1) * (p + 1),
    ;
    let total = (p + 1) * (r + 1);
    assert(total == q * (p + 1)) by (nonlinear_arith)
        requires total == (p + 1) * (r + 1), r == q - 1;
    assert(total <= ratio < total + (p + 1)) by (nonlinear_arith)
        requires total == q * (p + 1), q * (p + 1) <= ratio < (q + 1) * (p + 1);
    assert(ratio * t <= i < (ratio + 1) * t) by (nonlinear_arith)
        requires 0 < t, ratio == i / t;
    assert(total * t <= i < (total + p + 1) * t) by (nonlinear_arith)
        requires
            0 < t,
            total <= ratio < total + (p + 1),
            ratio * t <= i < (ratio + 1) * t,
    ;
    assert(p == 0 <==> ratio <= 65536) by (nonlinear_arith)
        requires p >= 0, p * 65536 < ratio <= (p + 1) * 65536;
}

/// Derives prescaler and reload count that bring `input` down to `target`:
/// first a coarse prescale so that the reload count fits in 16 bits, then the
/// fine reload count.
pub fn clock_divider(input: Hertz, target: Hertz) -> (r: Result<DividerConfig, ConfigError>)
    ensures
        r is Err <==> !divider_defined(input.0 as int, target.0 as int),
        r is Err ==> r == Err::<DividerConfig, ConfigError>(ConfigError::FrequencyOutOfRange),
        r matches Ok(c) ==> {
            let ratio = ratio_of(input.0 as int, target.0 as int);
            &&& c.prescaler as int == prescaler_for(ratio)
            &&& c.reload as int == reload_for(ratio)
        },
{
    if target.0 == 0 || target.0 > input.0 {
        return Err(ConfigError::FrequencyOutOfRange);
    }
    proof {
        lemma_divider_accuracy(input.0, target.0);
    }
    let ratio: u32 = input.0 / target.0;
    let psc: u32 = (ratio - 1) / (REGISTER_MAX + 1);
    let arr: u32 = ratio / (psc + 1) - 1;
    Ok(DividerConfig { prescaler: psc as u16, reload: arr as u16 })
}

impl DividerConfig {
    /// Input cycles per output cycle: `(prescaler + 1) * (reload + 1)`.
    pub open spec fn total_division(self) -> int {
        (self.prescaler as int + 1) * (self.reload as int + 1)
    }

    /// The frequency that `input` is divided down to, rounded down.
    pub fn effective_frequency(&self, input: Hertz) -> (r: Hertz)
        ensures
            r.0 as int == input.0 as int / self.total_division(),
    {
        let a: u64 = self.prescaler as u64 + 1;
        let b: u64 = self.reload as u64 + 1;
        assert(1 <= a * b <= 65536 * 65536) by (nonlinear_arith)
            requires 1 <= a <= 65536, 1 <= b <= 65536;
        let total: u64 = a * b;
        let f: u64 = input.0 as u64 / total;
        assert(f <= input.0) by (nonlinear_arith)
            requires total >= 1, f == input.0 as int / total as int;
        Hertz(f as u32)
    }
}

} // verus!
