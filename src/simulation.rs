use vstd::prelude::*;

verus! {

/// Lowest heart rate, in beats per minute, that the simulation reports.
pub const SIMULATED_BASE_BPM: u64 = 70;

/// Number of distinct values that the simulated heart rate cycles through.
pub const SIMULATED_SPAN_BPM: u64 = 10;

/// The simulated heart rate at a given instant, in whole beats per minute.
pub open spec fn simulated_rate(now_secs: u64) -> int {
    SIMULATED_BASE_BPM + (now_secs % SIMULATED_SPAN_BPM)
}

/// Simulated permission request: access is always granted.
pub fn healthkit_request_permissions() -> (r: bool)
    ensures
        r,
{
    true
}

/// Simulated start of monitoring: it always succeeds.
pub fn healthkit_start_monitoring() -> (r: bool)
    ensures
        r,
{
    true
}

/// Simulated stop of monitoring: nothing to release.
pub fn healthkit_stop_monitoring() {
}

/// Simulated current heart rate, a function of the time alone
/// (`now_secs` is seconds since the Unix epoch).
pub fn healthkit_get_current_hr(now_secs: u64) -> (r: u64)
    ensures
        r == simulated_rate(now_secs),
        70 <= r < 80,
{
    SIMULATED_BASE_BPM + now_secs % SIMULATED_SPAN_BPM
}

} // verus!
