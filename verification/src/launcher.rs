//! The launcher: resolves where an executable lives, records a successful
//! spawn in the registry, and builds the lifecycle events of a dispatch.
//!
//! The surrounding program performs the spawn itself and the asynchronous
//! wait; the functions here do everything around those two calls. A dispatch
//! runs: resolve the paths, spawn, publish the running event and register
//! the record, then let a background task take the handle, wait, and finish
//! the exit.

use vstd::prelude::*;

use crate::event::spec_exited_payload;
use crate::event::spec_failure_payload;
use crate::event::spec_running_payload;
use crate::event::ExeProcessPayload;
use crate::registry::DispatchedItem;
use crate::registry::GameDispatcherState;
use crate::text::i64_to_dec;
use crate::text::join_path;
use crate::text::spec_i64_dec;
use crate::text::spec_join_path;

verus! {

/// Where a dispatch will look for its executable: the game's folder (the
/// working directory of the spawn), the executable inside it, and the
/// install-relative path reported in lifecycle events.
pub struct LaunchPlan {
    pub game_folder_path: String,
    pub executable_path: String,
    pub full_executable_path: String,
}

/// The game folder of one dispatch: the installation directory, then
/// `games`, then the application identifier, then the caller's relative
/// path, joined with single separators.
pub open spec fn spec_game_folder(install_dir: Seq<char>, app_id: i64, path: Seq<char>) -> Seq<
    char,
> {
    spec_join_path(
        spec_join_path(spec_join_path(install_dir, "games"@), spec_i64_dec(app_id as int)),
        path,
    )
}

/// Resolves every path a dispatch needs, exactly as `spec_game_folder` and
/// `spec_join_path` describe. The executable is expected at
/// `<install_dir>/games/<app_id>/<path>/<executable_name>`, and lifecycle
/// events report the executable's location relative to the games folder.
pub fn resolve_launch(install_dir: &str, app_id: i64, path: &str, executable_name: &str) -> (plan:
    LaunchPlan)
    ensures
        plan.game_folder_path@ == spec_game_folder(install_dir@, app_id, path@),
        plan.executable_path@ == spec_join_path(
            spec_game_folder(install_dir@, app_id, path@),
            executable_name@,
        ),
        plan.full_executable_path@ == spec_join_path(path@, executable_name@),
{
    let games_root = join_path(install_dir, "games");
    let id_text = i64_to_dec(app_id);
    let id_folder = join_path(games_root.as_str(), id_text.as_str());
    let game_folder_path = join_path(id_folder.as_str(), path);
    let executable_path = join_path(game_folder_path.as_str(), executable_name);
    let full_executable_path = join_path(path, executable_name);
    LaunchPlan { game_folder_path, executable_path, full_executable_path }
}

/// Builds the running event of a successful spawn.
pub fn running_payload(
    app_id: i64,
    executable_name: &str,
    full_executable_path: &str,
    pid: Option<u32>,
) -> (ev: ExeProcessPayload)
    ensures
        ev@ == spec_running_payload(app_id, executable_name@, full_executable_path@, pid),
{
    ExeProcessPayload {
        app_id: i64_to_dec(app_id),
        executable_name: executable_name.to_owned(),
        full_executable_path: full_executable_path.to_owned(),
        pid: pid,
        running: true,
        status: None,
        error: None,
    }
}

/// Builds the failure event of a spawn the operating system refused; the
/// registry is never touched on that path.
pub fn failure_payload(
    app_id: i64,
    executable_name: &str,
    full_executable_path: &str,
    error: &str,
) -> (ev: ExeProcessPayload)
    ensures
        ev@ == spec_failure_payload(app_id, executable_name@, full_executable_path@, error@),
{
    ExeProcessPayload {
        app_id: i64_to_dec(app_id),
        executable_name: executable_name.to_owned(),
        full_executable_path: full_executable_path.to_owned(),
        pid: None,
        running: false,
        status: None,
        error: Some(error.to_owned()),
    }
}

/// Builds the terminal event of a natural exit.
pub fn exited_payload(
    app_id: i64,
    executable_name: &str,
    full_executable_path: &str,
    pid: Option<u32>,
    status: Option<i32>,
) -> (ev: ExeProcessPayload)
    ensures
        ev@ == spec_exited_payload(app_id, executable_name@, full_executable_path@, pid, status),
{
    ExeProcessPayload {
        app_id: i64_to_dec(app_id),
        executable_name: executable_name.to_owned(),
        full_executable_path: full_executable_path.to_owned(),
        pid: pid,
        running: false,
        status: status,
        error: None,
    }
}

/// Records a successful spawn: builds the running event and inserts the
/// dispatch record, with the handle in its slot, under `app_id` (overwriting
/// any prior record for that identifier).
pub fn register_spawn(
    state: &mut GameDispatcherState,
    app_id: i64,
    executable_name: &str,
    full_executable_path: &str,
    pid: Option<u32>,
    child: Option<tokio::process::Child>,
) -> (ev: ExeProcessPayload)
    ensures
        ev@ == spec_running_payload(app_id, executable_name@, full_executable_path@, pid),
        final(state)@ == old(state)@.insert(app_id, final(state)@[app_id]),
        final(state)@.contains_key(app_id),
        final(state)@[app_id].app_id == app_id,
        final(state)@[app_id].executable_name@ == executable_name@,
        final(state)@[app_id].full_executable_path@ == full_executable_path@,
        final(state)@[app_id].pid == pid,
        final(state)@[app_id].child == child,
        old(state).wf() ==> final(state).wf(),
{
    let ev = running_payload(app_id, executable_name, full_executable_path, pid);
    let item = DispatchedItem {
        app_id: app_id,
        executable_name: executable_name.to_owned(),
        full_executable_path: full_executable_path.to_owned(),
        pid: pid,
        child: child,
    };
    state.insert(item);
    ev
}

/// Finishes a natural exit: removes the record for `app_id` and builds the
/// terminal event from its metadata and the exit code the wait observed. If
/// the record is already gone (stopped concurrently), nothing changes and no
/// event is owed.
pub fn complete_exit(state: &mut GameDispatcherState, app_id: i64, status: Option<i32>) -> (r:
    Option<ExeProcessPayload>)
    ensures
        old(state)@.contains_key(app_id) ==> {
            &&& final(state)@ == old(state)@.remove(app_id)
            &&& r matches Some(ev) && ev@ == spec_exited_payload(
                app_id,
                old(state)@[app_id].executable_name@,
                old(state)@[app_id].full_executable_path@,
                old(state)@[app_id].pid,
                status,
            )
        },
        !old(state)@.contains_key(app_id) ==> r is None && final(state)@ == old(state)@,
        old(state).wf() ==> final(state).wf(),
{
    match state.remove(app_id) {
        Some(item) => {
            let ev = exited_payload(
                app_id,
                item.executable_name.as_str(),
                item.full_executable_path.as_str(),
                item.pid,
                status,
            );
            Some(ev)
        },
        None => None,
    }
}

/// The launch error text returned to the caller when the spawn fails.
pub fn launch_failure_message(error: &str) -> (r: String)
    ensures
        r@ == "Failed to launch executable: "@ + error@,
{
    let mut r = String::new();
    r.append("Failed to launch executable: ");
    r.append(error);
    r
}

/// A dispatch and its matching natural exit publish a pair of events with
/// the same identifier text and the same executable name: first one with
/// `running` set, then one with `running` clear. The running event is built
/// before the record is registered and the background task is scheduled, so
/// it always precedes the terminal event of the same dispatch.
pub proof fn lemma_dispatch_exit_event_pair(
    app_id: i64,
    executable_name: Seq<char>,
    full_executable_path: Seq<char>,
    pid: Option<u32>,
    status: Option<i32>,
)
    ensures
        spec_running_payload(app_id, executable_name, full_executable_path, pid).running == true,
        spec_exited_payload(app_id, executable_name, full_executable_path, pid, status).running
            == false,
        spec_running_payload(app_id, executable_name, full_executable_path, pid).app_id
            == spec_exited_payload(
            app_id,
            executable_name,
            full_executable_path,
            pid,
            status,
        ).app_id,
        spec_running_payload(app_id, executable_name, full_executable_path, pid).executable_name
            == spec_exited_payload(
            app_id,
            executable_name,
            full_executable_path,
            pid,
            status,
        ).executable_name,
{
}

/// Round trip of one dispatch: registering the record makes it visible under
/// its identifier with its process identifier; the exit removes exactly that
/// record, and the terminal event carries the observed exit code with
/// `running` clear.
pub proof fn lemma_dispatch_round_trip(
    m: Map<i64, DispatchedItem>,
    item: DispatchedItem,
    status: Option<i32>,
)
    ensures
        m.insert(item.app_id, item).contains_key(item.app_id),
        m.insert(item.app_id, item)[item.app_id].pid == item.pid,
        !m.insert(item.app_id, item).remove(item.app_id).contains_key(item.app_id),
        spec_exited_payload(
            item.app_id,
            item.executable_name@,
            item.full_executable_path@,
            item.pid,
            status,
        ).status == status,
        spec_exited_payload(
            item.app_id,
            item.executable_name@,
            item.full_executable_path@,
            item.pid,
            status,
        ).running == false,
{
}

} // verus!
