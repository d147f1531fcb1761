//! A managed-process dispatcher library.
//!
//! The library launches external executables on behalf of a caller, tracks
//! each running instance by an application identifier, reports lifecycle
//! transitions to an observer, and can forcibly terminate a tracked process
//! later while protecting against acting on a stale or reused operating-system
//! process identifier.
//!
//! The library itself holds the registry, the path resolution, the lifecycle
//! event construction and the identity re-validation rules; the surrounding
//! program performs the actual spawning, waiting, process-table queries and
//! kill requests, and feeds their results back into the library.

use vstd::prelude::*;

mod event;
mod launcher;
mod migrations;
mod registry;
mod terminator;
mod text;

pub use event::spec_exited_payload;
pub use event::spec_failure_payload;
pub use event::spec_running_payload;
pub use event::spec_stopped_payload;
pub use event::ExeProcessPayload;
pub use event::PayloadView;
pub use event::EVT_BACKGROUND_PROCESS_RESULT;

pub use launcher::complete_exit;
pub use launcher::exited_payload;
pub use launcher::failure_payload;
pub use launcher::launch_failure_message;
pub use launcher::lemma_dispatch_exit_event_pair;
pub use launcher::lemma_dispatch_round_trip;
pub use launcher::register_spawn;
pub use launcher::resolve_launch;
pub use launcher::running_payload;
pub use launcher::spec_game_folder;
pub use launcher::LaunchPlan;

pub use migrations::get_current_version;
pub use migrations::get_migrations;
pub use migrations::migration_v1;
pub use migrations::Migration;
pub use migrations::MigrationKind;
pub use migrations::MIGRATION_V1_SQL;

pub use registry::lemma_independent_dispatches;
pub use registry::DispatchMetadata;
pub use registry::DispatchedItem;
pub use registry::GameDispatcherState;

pub use terminator::begin_stop;
pub use terminator::lemma_second_stop_not_running;
pub use terminator::parse_app_id;
pub use terminator::spec_stop_error_message;
pub use terminator::stop_error_message;
pub use terminator::stopped_payload;
pub use terminator::validate_stop_target;
pub use terminator::ObservedProcess;
pub use terminator::StopError;
pub use terminator::StopResult;

pub use text::eq_ignore_ascii_case;
pub use text::i64_to_dec;
pub use text::join_path;
pub use text::parse_i64;
pub use text::spec_eq_ignore_ascii_case;
pub use text::spec_i64_dec;
pub use text::spec_join_path;
pub use text::spec_parse_i64;
pub use text::spec_u64_dec;
pub use text::u64_to_dec;

verus! {

/// Builds the greeting returned to a caller that identifies itself by name.
pub fn greet(name: &str) -> (r: String)
    ensures
        r@ == "Hello, "@ + name@ + "! You've been greeted from Rust!"@,
{
    let mut r = String::new();
    r.append("Hello, ");
    r.append(name);
    r.append("! You've been greeted from Rust!");
    r
}

} // verus!
