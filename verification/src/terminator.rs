//! The terminator: removes a tracked process from the registry, re-validates
//! the identity of the live process behind the recorded identifier, and
//! decides whether a kill may be issued.
//!
//! The surrounding program queries the operating system's process table and
//! issues the kill itself; the decisions in between are made here. A recorded
//! process identifier may have been silently reused by the operating system
//! for an unrelated process, so a kill is only allowed after the live
//! process's executable name has been compared against the recorded one.

use vstd::prelude::*;

use crate::event::spec_stopped_payload;
use crate::event::ExeProcessPayload;
use crate::registry::DispatchedItem;
use crate::registry::GameDispatcherState;
use crate::text::eq_ignore_ascii_case;
use crate::text::i64_to_dec;
use crate::text::parse_i64;
use crate::text::spec_eq_ignore_ascii_case;
use crate::text::spec_parse_i64;
use crate::text::spec_u64_dec;
use crate::text::u64_to_dec;

verus! {

/// The identifier a successful stop reports back.
pub struct StopResult {
    pub app_id: i64,
}

/// Why a stop request did not kill anything.
#[derive(Debug)]
pub enum StopError {
    /// No registry entry exists for the identifier.
    NotRunning,
    /// The record carries no operating-system process identifier.
    NoPidRecorded,
    /// No live process has the recorded identifier any more.
    AlreadyExited { pid: u32 },
    /// A live process has the recorded identifier, but it is not the
    /// process that was dispatched; nothing was killed.
    IdentityMismatch {
        expected_name: String,
        expected_path: String,
        pid: u32,
        observed_name: String,
        observed_path: String,
    },
    /// The kill request itself failed, with the operating system's own
    /// error text.
    TerminationFailed { detail: String },
}

/// What the process table reports about the live process under a recorded
/// identifier: its process name, and the file name of its executable.
pub struct ObservedProcess {
    pub name: String,
    pub exe_file_name: String,
}

/// Parses the caller-supplied application identifier, rejecting anything
/// that is not a decimal `i64`.
pub fn parse_app_id(s: &str) -> (r: Result<i64, String>)
    ensures
        spec_parse_i64(s@) matches Some(v) ==> r == Ok::<i64, String>(v),
        spec_parse_i64(s@) is None ==> {
            &&& r matches Err(m)
            &&& m@ == "Invalid app_id"@
        },
{
    match parse_i64(s) {
        Some(v) => Ok(v),
        None => Err("Invalid app_id".to_owned()),
    }
}

/// Atomically removes the record for `app_id`. A stop request for an
/// identifier with no registry entry fails with `NotRunning` and leaves the
/// registry unchanged, and no event is owed for it.
pub fn begin_stop(state: &mut GameDispatcherState, app_id: i64) -> (r: Result<
    DispatchedItem,
    StopError,
>)
    ensures
        old(state)@.contains_key(app_id) ==> r == Ok::<DispatchedItem, StopError>(
            old(state)@[app_id],
        ) && final(state)@ == old(state)@.remove(app_id),
        !old(state)@.contains_key(app_id) ==> (r matches Err(e) && e is NotRunning)
            && final(state)@ == old(state)@,
        old(state).wf() ==> final(state).wf(),
{
    match state.remove(app_id) {
        Some(item) => Ok(item),
        None => Err(StopError::NotRunning),
    }
}

/// The identity re-validation of a stop request: given the removed record
/// and what the process table reports for its recorded identifier, decides
/// whether the kill may go ahead.
///
/// A kill is allowed exactly when the record carries an identifier, a live
/// process still has it, and that process's executable file name equals the
/// recorded one up to ASCII case. Each refusal names its cause: a record
/// without an identifier, an identifier with no live process behind it, or a
/// live process whose name does not match (the identifier was reused).
pub fn validate_stop_target(item: &DispatchedItem, observed: Option<&ObservedProcess>) -> (r:
    Result<u32, StopError>)
    ensures
        item.pid is None ==> {
            &&& r matches Err(e)
            &&& e is NoPidRecorded
        },
        item.pid matches Some(p) ==> observed is None ==> {
            &&& r matches Err(e)
            &&& e matches StopError::AlreadyExited { pid }
            &&& pid == p
        },
        item.pid matches Some(p) ==> observed matches Some(o) ==> spec_eq_ignore_ascii_case(
            o.exe_file_name@,
            item.executable_name@,
        ) ==> r == Ok::<u32, StopError>(p),
        item.pid matches Some(p) ==> observed matches Some(o) ==> !spec_eq_ignore_ascii_case(
            o.exe_file_name@,
            item.executable_name@,
        ) ==> {
            &&& r matches Err(e)
            &&& e matches StopError::IdentityMismatch {
                expected_name,
                expected_path,
                pid,
                observed_name,
                observed_path,
            }
            &&& expected_name@ == item.executable_name@
            &&& expected_path@ == item.full_executable_path@
            &&& pid == p
            &&& observed_name@ == o.name@
            &&& observed_path@ == o.exe_file_name@
        },
{
    let pid = match item.pid {
        Some(p) => p,
        None => {
            return Err(StopError::NoPidRecorded);
        },
    };
    match observed {
        Some(o) => {
            if eq_ignore_ascii_case(o.exe_file_name.as_str(), item.executable_name.as_str()) {
                Ok(pid)
            } else {
                Err(
                    StopError::IdentityMismatch {
                        expected_name: item.executable_name.clone(),
                        expected_path: item.full_executable_path.clone(),
                        pid: pid,
                        observed_name: o.name.clone(),
                        observed_path: o.exe_file_name.clone(),
                    },
                )
            }
        },
        None => Err(StopError::AlreadyExited { pid }),
    }
}

/// Builds the event published after a successful stop.
pub fn stopped_payload(app_id: i64, executable_name: &str, full_executable_path: &str) -> (ev:
    ExeProcessPayload)
    ensures
        ev@ == spec_stopped_payload(app_id, executable_name@, full_executable_path@),
{
    ExeProcessPayload {
        app_id: i64_to_dec(app_id),
        executable_name: executable_name.to_owned(),
        full_executable_path: full_executable_path.to_owned(),
        pid: None,
        running: false,
        status: None,
        error: None,
    }
}

/// What each stop refusal reports to the caller, over the caller's own
/// identifier text.
pub open spec fn spec_stop_error_message(app_id: Seq<char>, e: StopError) -> Seq<char> {
    match e {
        StopError::NotRunning => "No running process found for app_id: "@ + app_id,
        StopError::NoPidRecorded => "No PID stored for this dispatched item"@,
        StopError::AlreadyExited { pid } => "Process with PID "@ + spec_u64_dec(pid as nat)
            + " not found or already exited"@,
        StopError::IdentityMismatch {
            expected_name,
            expected_path,
            pid,
            observed_name,
            observed_path,
        } => "Process info mismatch (wanted name: '"@ + expected_name@ + "', path: '"@
            + expected_path@ + "', pid: '"@ + spec_u64_dec(pid as nat) + "'), found name: '"@
            + observed_name@ + "', path: '"@ + observed_path@ + "'"@,
        StopError::TerminationFailed { detail } => "Failed to stop process: "@ + detail@,
    }
}

/// Renders a stop refusal as the error text returned to the caller, exactly
/// as `spec_stop_error_message` describes.
pub fn stop_error_message(app_id: &str, e: &StopError) -> (r: String)
    ensures
        r@ == spec_stop_error_message(app_id@, *e),
{
    match e {
        StopError::NotRunning => {
            let mut r = String::new();
            r.append("No running process found for app_id: ");
            r.append(app_id);
            r
        },
        StopError::NoPidRecorded => "No PID stored for this dispatched item".to_owned(),
        StopError::AlreadyExited { pid } => {
            let mut r = String::new();
            r.append("Process with PID ");
            let pid_text = u64_to_dec(*pid as u64);
            r.append(pid_text.as_str());
            r.append(" not found or already exited");
            r
        },
        StopError::IdentityMismatch {
            expected_name,
            expected_path,
            pid,
            observed_name,
            observed_path,
        } => {
            let mut r = String::new();
            r.append("Process info mismatch (wanted name: '");
            r.append(expected_name.as_str());
            r.append("', path: '");
            r.append(expected_path.as_str());
            r.append("', pid: '");
            let pid_text = u64_to_dec(*pid as u64);
            r.append(pid_text.as_str());
            r.append("'), found name: '");
            r.append(observed_name.as_str());
            r.append("', path: '");
            r.append(observed_path.as_str());
            r.append("'");
            r
        },
        StopError::TerminationFailed { detail } => {
            let mut r = String::new();
            r.append("Failed to stop process: ");
            r.append(detail.as_str());
            r
        },
    }
}

/// A second stop for the same identifier can never kill twice: once a stop
/// has removed the record, the registry no longer holds the identifier, so
/// the repeated request observes `NotRunning` before any kill decision.
pub proof fn lemma_second_stop_not_running(m: Map<i64, DispatchedItem>, app_id: i64)
    requires
        m.contains_key(app_id),
    ensures
        !m.remove(app_id).contains_key(app_id),
{
}

} // verus!
