use vstd::prelude::*;
use crate::monitor::{HealthKitManager, start_invokes, start_next, start_ok, stop_invokes, stop_next};

verus! {

/// The message the start command reports when monitoring could not start.
pub open spec fn start_command_failed_message() -> Seq<char> {
    "Failed to start monitoring"@
}

/// Permission command: answers `Ok` with the binding's verdict.
pub fn request_healthkit_permissions(granted: bool) -> (r: Result<bool, String>)
    ensures
        r == Ok::<bool, String>(granted),
{
    Ok(granted)
}

/// Start command: completes the manager's `start` request with the start
/// entry point's answer (`None` where `needs_start` said not to invoke it),
/// and reports a failure to start as one message.
pub fn start_healthkit_monitoring(
    manager: &mut HealthKitManager,
    outcome: Option<bool>,
) -> (r: Result<(), String>)
    requires
        outcome is None <==> !start_invokes(old(manager)@),
    ensures
        outcome is None ==> final(manager)@ == old(manager)@ && r is Ok,
        outcome matches Some(started) ==> final(manager)@ == start_next(old(manager)@, started)
            && (r is Ok <==> start_ok(old(manager)@, started)),
        r matches Err(e) ==> e@ == start_command_failed_message(),
{
    match manager.start_monitoring(outcome) {
        Ok(()) => Ok(()),
        Err(_) => Err("Failed to start monitoring".to_owned()),
    }
}

/// Stop command: makes the manager idle and always answers `Ok`, together
/// with whether the binding's stop entry point must now be invoked.
pub fn stop_healthkit_monitoring(manager: &mut HealthKitManager) -> (r: (Result<(), String>, bool))
    ensures
        final(manager)@ == stop_next(old(manager)@),
        r.1 == stop_invokes(old(manager)@),
        r.0 is Ok,
{
    let invoke = manager.stop_monitoring();
    (Ok(()), invoke)
}

} // verus!
