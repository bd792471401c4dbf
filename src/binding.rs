use vstd::prelude::*;
use crate::simulation::{healthkit_get_current_hr, simulated_rate};

verus! {

/// Where a current heart-rate reading came from.
#[derive(Clone, Copy, Debug, PartialEq, Eq, Structural)]
pub enum RateReading {
    /// The native subsystem's value, as the bit pattern of its double.
    Native(u64),
    /// The simulated value, in whole beats per minute.
    Simulated(u64),
}

/// Outcome of a native permission or start call after fault containment:
/// `None` stands for a call that faulted, which is reported as success so
/// that the interface is never blocked.
pub fn contain_flag(outcome: Option<bool>) -> (r: bool)
    ensures
        r == match outcome {
            Some(b) => b,
            None => true,
        },
{
    match outcome {
        Some(b) => b,
        None => true,
    }
}

/// Outcome of a native read of the current value: a faulted call (`None`)
/// falls back to the simulated value for the instant `now_secs`.
pub fn contain_rate(outcome: Option<u64>, now_secs: u64) -> (r: RateReading)
    ensures
        r == match outcome {
            Some(bits) => RateReading::Native(bits),
            None => RateReading::Simulated(simulated_rate(now_secs) as u64),
        },
{
    match outcome {
        Some(bits) => RateReading::Native(bits),
        None => RateReading::Simulated(healthkit_get_current_hr(now_secs)),
    }
}

} // verus!
