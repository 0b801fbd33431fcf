//! What is settled before any path is touched, and how a whole run ends.

use crate::error::{doas_unavailable, plain, root_user_not_allowed};
use crate::error::{DoaseditError, ErrorKind, ErrorView};
use crate::event::{helper_outcome, unit_result, Event, EventView, HelperOutcome};
use crate::utils::effective_uid;
use vstd::prelude::*;

verus! {

/// The identity of the privileged user.
pub const ROOT_UID: u32 = 0;

/// A run under the effective identity `euid` is refused where that is the
/// privileged user itself.
pub open spec fn spec_refuse_root(euid: u32) -> Result<(), ErrorView> {
    if euid == ROOT_UID {
        Err(plain(ErrorKind::RootUserNotAllowed))
    } else {
        Ok(())
    }
}

/// Refuses to run under the effective identity `euid` where that is the
/// privileged user.
pub fn refuse_root(euid: u32) -> (result: Result<(), DoaseditError>)
    ensures
        unit_result(result) == spec_refuse_root(euid),
{
    if euid == ROOT_UID {
        Err(root_user_not_allowed())
    } else {
        Ok(())
    }
}

/// Refuses to run where the process has the effective identity of the
/// privileged user.
pub fn check_identity() -> (result: Result<(), DoaseditError>)
    ensures
        exists|euid: u32| unit_result(result) == spec_refuse_root(euid),
{
    refuse_root(effective_uid())
}

/// The privilege helper is usable where a run of it that does nothing
/// reported success.
pub open spec fn spec_check_helper(event: EventView) -> Result<(), ErrorView> {
    if helper_outcome(event) == HelperOutcome::Granted {
        Ok(())
    } else {
        Err(plain(ErrorKind::DoasUnavailable))
    }
}

/// Reads the outcome of a run of the privilege helper that does nothing: the
/// whole run is refused unless it reported success.
pub fn check_helper(event: &Event) -> (result: Result<(), DoaseditError>)
    ensures
        unit_result(result) == spec_check_helper(event@),
{
    match event.as_helper_outcome() {
        HelperOutcome::Granted => Ok(()),
        _ => Err(doas_unavailable()),
    }
}

/// The exit status of a run in which `failed_paths` paths ended with an error:
/// zero where none did, one otherwise.
pub fn exit_status(failed_paths: usize) -> (status: i32)
    ensures
        status == (if failed_paths == 0 { 0i32 } else { 1i32 }),
{
    if failed_paths == 0 {
        0
    } else {
        1
    }
}

} // verus!
