use vstd::prelude::*;

use crate::config::WorkdirProxyConfig;
use crate::message::{AdminControllerMsg, WorkdirIdx, EVENT_NOTIF_CONFIG_FILE_CHANGE};
use crate::registry::{
    insert_spec, port_of, replace_spec, slot_of_workdir, GlobalPortRegistry, InputPort,
    InsertError, PortView,
};
use crate::workdirs::{default_port, path_matches, Workdir, Workdirs};

verus! {

/// Why a config-change event was discarded before any configuration was read.
#[derive(PartialEq, Eq, Structural, Debug, Clone, Copy)]
pub enum MsgRejection {
    /// The event kind is not one the controller handles.
    UnknownEvent(u8),
    /// The event names no configuration file.
    MissingPath,
    /// No workdir owns the named file.
    WorkdirNotFound,
}

/// What applying a workdir's configuration did to the registry.
#[derive(PartialEq, Eq, Structural, Debug, Clone, Copy)]
pub enum ApplyOutcome {
    /// A new entry took this slot: a proxy server is to be started for it.
    Spawn(usize),
    /// The workdir's entry at this slot was updated in place.
    Reloaded(usize),
    /// The registry refused the entry and is unchanged.
    Rejected(InsertError),
}

/// What the controller does next in its event loop.
#[derive(PartialEq, Eq, Structural, Debug, Clone, Copy)]
pub enum LoopAction {
    /// Handle the event just received.
    Process,
    /// Leave the loop: shutdown was requested or every sender is gone.
    Exit,
}

/// The first workdir that owns the configuration file `path`.
pub open spec fn workdir_of_path(ws: Seq<Workdir>, path: Seq<char>) -> Option<int> {
    if exists|i: int|
        0 <= i < ws.len() && path_matches(ws[i], path) && forall|k: int|
            0 <= k < i ==> !path_matches(#[trigger] ws[k], path) {
        Some(
            choose|i: int|
                0 <= i < ws.len() && path_matches(ws[i], path) && forall|k: int|
                    0 <= k < i ==> !path_matches(#[trigger] ws[k], path),
        )
    } else {
        None
    }
}

/// The workdir that a config-change event is about, or why it is discarded.
pub open spec fn resolve_spec(ws: Seq<Workdir>, msg: AdminControllerMsg) -> Result<
    WorkdirIdx,
    MsgRejection,
> {
    if msg.event_id != EVENT_NOTIF_CONFIG_FILE_CHANGE {
        Err(MsgRejection::UnknownEvent(msg.event_id))
    } else {
        match msg.data_string {
            None => Err(MsgRejection::MissingPath),
            Some(path) => match workdir_of_path(ws, path@) {
                Some(i) => Ok(i as WorkdirIdx),
                None => Err(MsgRejection::WorkdirNotFound),
            },
        }
    }
}

/// The port a workdir listens on: its override, else its conventional port.
pub open spec fn effective_port(idx: WorkdirIdx, cfg: WorkdirProxyConfig) -> u16 {
    match cfg.proxy_port_number {
        Some(p) => p,
        None => default_port(idx as int) as u16,
    }
}

/// The entry that workdir `idx` gets from its configuration.
pub open spec fn configured_port(ws: Seq<Workdir>, idx: WorkdirIdx, cfg: WorkdirProxyConfig) -> PortView {
    port_of(idx, ws[idx as int].name@, effective_port(idx, cfg), cfg.links@)
}

/// Applying an entry: a workdir that has one is updated in place under the same
/// slot id; any other gets a new slot.
pub open spec fn apply_spec(s: Seq<PortView>, capacity: nat, p: PortView) -> (
    Seq<PortView>,
    ApplyOutcome,
) {
    match slot_of_workdir(s, p.workdir_idx) {
        Some(i) => {
            let (s2, r) = replace_spec(s, i, p);
            match r {
                Ok(_) => (s2, ApplyOutcome::Reloaded(i as usize)),
                Err(e) => (s2, ApplyOutcome::Rejected(e)),
            }
        },
        None => {
            let (s2, r) = insert_spec(s, capacity, p);
            match r {
                Ok(k) => (s2, ApplyOutcome::Spawn(k)),
                Err(e) => (s2, ApplyOutcome::Rejected(e)),
            }
        },
    }
}

/// Checks a config-change event and finds the workdir it is about. An event of
/// another kind, one without a path, or one whose path no workdir owns is refused
/// here, before the registry is read or written.
pub fn resolve_config_msg(workdirs: &Workdirs, msg: &AdminControllerMsg) -> (r: Result<
    WorkdirIdx,
    MsgRejection,
>)
    requires
        workdirs.wf(),
    ensures
        r == resolve_spec(workdirs.workdirs@, *msg),
        r is Ok ==> r->Ok_0 < workdirs.workdirs@.len(),
{
    if msg.event_id != EVENT_NOTIF_CONFIG_FILE_CHANGE {
        return Err(MsgRejection::UnknownEvent(msg.event_id));
    }
    match &msg.data_string {
        None => Err(MsgRejection::MissingPath),
        Some(path) => {
            let found = workdirs.find_workdir(path.as_str());
            match found {
                Some((i, _w)) => {
                    assert(path_matches(workdirs.workdirs@[i as int], path@));
                    let ghost j = workdir_of_path(workdirs.workdirs@, path@)->0;
                    assert(workdir_of_path(workdirs.workdirs@, path@) is Some);
                    assert(!(j < i as int));
                    assert(!(i < j));
                    Ok(i)
                },
                None => Err(MsgRejection::WorkdirNotFound),
            }
        },
    }
}

/// Applies the configuration of workdir `idx` to the registry.
pub fn apply_config(
    registry: &mut GlobalPortRegistry,
    workdirs: &Workdirs,
    idx: WorkdirIdx,
    config: &WorkdirProxyConfig,
) -> (r: ApplyOutcome)
    requires
        old(registry).wf(),
        workdirs.wf(),
        idx < workdirs.workdirs@.len(),
    ensures
        final(registry).wf(),
        final(registry).capacity_view() == old(registry).capacity_view(),
        (final(registry)@, r) == apply_spec(
            old(registry)@,
            old(registry).capacity_view(),
            configured_port(workdirs.workdirs@, idx, *config),
        ),
{
    let port_number = match config.proxy_port_number {
        Some(p) => p,
        None => workdirs.default_proxy_port(idx),
    };
    let name = workdirs.workdirs[idx as usize].name.clone();
    let p = InputPort::from_links(idx, name, port_number, &config.links);
    match registry.find_by_workdir(idx) {
        Some(slot) => match registry.replace(slot, p) {
            Ok(()) => ApplyOutcome::Reloaded(slot),
            Err(e) => ApplyOutcome::Rejected(e),
        },
        None => match registry.insert(p) {
            Ok(k) => ApplyOutcome::Spawn(k),
            Err(e) => ApplyOutcome::Rejected(e),
        },
    }
}

/// The event loop's decision between two events: a shutdown request or a closed
/// channel ends the loop; otherwise the received event is processed. The loop
/// takes this decision only between events, so an event in progress always ends.
pub fn next_loop_action(shutdown_requested: bool, received: bool) -> (r: LoopAction)
    ensures
        r == (if shutdown_requested || !received {
            LoopAction::Exit
        } else {
            LoopAction::Process
        }),
{
    if shutdown_requested || !received {
        LoopAction::Exit
    } else {
        LoopAction::Process
    }
}

} // verus!
