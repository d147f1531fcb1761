//! The lifecycle event schema published to the external observer.

use vstd::prelude::*;

verus! {

/// The name of the channel on which lifecycle events are published.
pub const EVT_BACKGROUND_PROCESS_RESULT: &'static str = "background_process_result";

/// One lifecycle event: emitted when a managed process starts running, fails
/// to start, exits on its own, or is stopped on request.
pub struct ExeProcessPayload {
    pub app_id: String,
    pub executable_name: String,
    pub full_executable_path: String,
    pub pid: Option<u32>,
    pub running: bool,
    pub status: Option<i32>,
    pub error: Option<String>,
}

/// The mathematical content of a lifecycle event: every string field as a
/// character sequence.
pub struct PayloadView {
    pub app_id: Seq<char>,
    pub executable_name: Seq<char>,
    pub full_executable_path: Seq<char>,
    pub pid: Option<u32>,
    pub running: bool,
    pub status: Option<i32>,
    pub error: Option<Seq<char>>,
}

impl View for ExeProcessPayload {
    type V = PayloadView;

    open spec fn view(&self) -> PayloadView {
        PayloadView {
            app_id: self.app_id@,
            executable_name: self.executable_name@,
            full_executable_path: self.full_executable_path@,
            pid: self.pid,
            running: self.running,
            status: self.status,
            error: match self.error {
                Some(e) => Some(e@),
                None => None,
            },
        }
    }
}

/// The event published right after a successful spawn: the process is
/// running under the captured identifier.
pub open spec fn spec_running_payload(
    app_id: i64,
    executable_name: Seq<char>,
    full_executable_path: Seq<char>,
    pid: Option<u32>,
) -> PayloadView {
    PayloadView {
        app_id: crate::text::spec_i64_dec(app_id as int),
        executable_name: executable_name,
        full_executable_path: full_executable_path,
        pid: pid,
        running: true,
        status: None,
        error: None,
    }
}

/// The event published when the spawn itself fails: not running, no
/// identifier, and the error text of the refusal.
pub open spec fn spec_failure_payload(
    app_id: i64,
    executable_name: Seq<char>,
    full_executable_path: Seq<char>,
    error: Seq<char>,
) -> PayloadView {
    PayloadView {
        app_id: crate::text::spec_i64_dec(app_id as int),
        executable_name: executable_name,
        full_executable_path: full_executable_path,
        pid: None,
        running: false,
        status: None,
        error: Some(error),
    }
}

/// The terminal event published when a tracked process exits on its own,
/// with the exit code the wait observed.
pub open spec fn spec_exited_payload(
    app_id: i64,
    executable_name: Seq<char>,
    full_executable_path: Seq<char>,
    pid: Option<u32>,
    status: Option<i32>,
) -> PayloadView {
    PayloadView {
        app_id: crate::text::spec_i64_dec(app_id as int),
        executable_name: executable_name,
        full_executable_path: full_executable_path,
        pid: pid,
        running: false,
        status: status,
        error: None,
    }
}

/// The event published after a successful stop request: not running, with
/// no identifier, code or error.
pub open spec fn spec_stopped_payload(
    app_id: i64,
    executable_name: Seq<char>,
    full_executable_path: Seq<char>,
) -> PayloadView {
    PayloadView {
        app_id: crate::text::spec_i64_dec(app_id as int),
        executable_name: executable_name,
        full_executable_path: full_executable_path,
        pid: None,
        running: false,
        status: None,
        error: None,
    }
}

} // verus!
