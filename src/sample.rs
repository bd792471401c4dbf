use vstd::prelude::*;

verus! {

/// One heart-rate reading. The rate (beats per minute, an IEEE-754 double)
/// travels as its bit pattern, so that the bridge copies it unchanged.
#[derive(Clone, Copy, Debug, PartialEq, Eq, Structural)]
pub struct HeartRateData {
    pub rate_bits: u64,
    pub timestamp: u64,
}

impl HeartRateData {
    pub fn new(rate_bits: u64, timestamp: u64) -> (r: HeartRateData)
        ensures
            r.rate_bits == rate_bits,
            r.timestamp == timestamp,
    {
        HeartRateData { rate_bits, timestamp }
    }
}

} // verus!
