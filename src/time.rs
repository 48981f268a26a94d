use vstd::prelude::*;

verus! {

/// A frequency in cycles per second.
#[derive(Clone, Copy, Debug, PartialEq, Eq, Structural)]
pub struct Hertz(pub u32);

impl Hertz {
    /// The frequency in hertz.
    pub fn hz(self) -> (r: u32)
        ensures
            r == self.0,
    {
        self.0
    }

    /// `k` kilohertz, i.e. `1000 * k` hertz.
    pub fn khz(k: u32) -> (r: Hertz)
        requires
            k <= u32::MAX / 1000,
        ensures
            r.0 == k * 1000,
    {
        Hertz(k * 1000)
    }
}

} // verus!
