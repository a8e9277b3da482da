//! Carrying out a prepared injection: launching Steam when the target is
//! not running, waiting for the target and its readiness module, the settle
//! delay, the remote call and remembering its handle. The decisions are a
//! function from the current stage and what the last step observed to the
//! next stage and the next step to perform.
use vstd::prelude::*;

use crate::error::{Error, InjectorError};
use crate::handle::AssemblyHandle;
use crate::operations::inject::{
    inject, injected_ok, maybe_launch, poll_module, poll_process, steam_uri, waits_for_process, PreparedInject,
};
use crate::operations::{InjectOptions, InjectOutput};
use crate::process::{
    any_contains_spec, resolve_process, resolved_index, target_running, ProcessInfo,
};
use crate::state::InjectionRecord;
use crate::text::decimal;

verus! {

/// Where a running injection stands.
#[derive(Debug, Clone)]
pub enum InjectStage {
    /// Checking whether the target runs before anything else.
    Start,
    /// A Steam app is being launched.
    Launching(u32),
    /// Looking for the target process (waiting for it when asked to).
    Locating,
    /// Waiting for the readiness module in the target.
    AwaitModule(ProcessInfo),
    /// Waiting the settle delay before the call.
    Settling(ProcessInfo),
    /// The remote call into the target is under way.
    Calling(ProcessInfo),
    /// The injection has finished.
    Finished,
}

/// What the last step observed.
#[derive(Debug)]
pub enum InjectEvent {
    /// A snapshot of the running processes, and whether the wait's deadline
    /// has passed.
    Processes { snapshot: Vec<ProcessInfo>, deadline_passed: bool },
    /// The outcome of launching Steam (the failure's message).
    Launched(Result<(), String>),
    /// The modules loaded in the target, and whether the wait's deadline
    /// has passed.
    Modules { names: Vec<String>, deadline_passed: bool },
    /// The delay has elapsed.
    Slept,
    /// The outcome of the remote call, and the remembered records loaded
    /// afterwards (or the failure to load them).
    Called { outcome: Result<AssemblyHandle, InjectorError>, records: Result<Vec<InjectionRecord>, Error> },
}

/// The next step to perform.
#[derive(Debug)]
pub enum InjectAction {
    /// Wait the given milliseconds, then report a process snapshot.
    Snapshot { after_ms: u64 },
    /// Open the Steam link, then report how that went.
    LaunchSteam { app_id: u32, uri: String },
    /// Wait the given milliseconds, then report the target's modules.
    ListModules { pid: u32, after_ms: u64 },
    /// Wait the given milliseconds, then report that they elapsed.
    Sleep(u64),
    /// Make the remote call into the process, then report its outcome with
    /// the records loaded afterwards.
    Call(ProcessInfo),
    /// Store the records and report the output, or report the failure.
    Finish(Result<(Vec<InjectionRecord>, InjectOutput), Error>),
    /// Nothing is left to do.
    Done,
}

/// The first stage and step of an injection: a process snapshot.
pub fn start_injection() -> (r: (InjectStage, InjectAction))
    ensures
        r.0 is Start,
        r.1 matches InjectAction::Snapshot { after_ms } && after_ms == 0,
{
    (InjectStage::Start, InjectAction::Snapshot { after_ms: 0 })
}

/// Once the target is known: wait for the readiness module if there is
/// one, else the settle delay if there is one, else make the call.
pub open spec fn after_located_ok(prepared: PreparedInject, p: ProcessInfo, stage: InjectStage, action: InjectAction) -> bool {
    if prepared.wait_module is Some {
        stage == InjectStage::AwaitModule(p) && (action matches InjectAction::ListModules { pid, after_ms }
            && pid == p.pid && after_ms == 0)
    } else {
        settle_or_call_ok(prepared, p, stage, action)
    }
}

/// Once the target is ready: the settle delay if there is one, else the call.
pub open spec fn settle_or_call_ok(prepared: PreparedInject, p: ProcessInfo, stage: InjectStage, action: InjectAction) -> bool {
    if prepared.settle_ms > 0 {
        stage == InjectStage::Settling(p) && (action matches InjectAction::Sleep(ms) && ms == prepared.settle_ms)
    } else {
        stage == InjectStage::Calling(p) && (action matches InjectAction::Call(q) && q == p)
    }
}

/// A finished injection with the given failure.
pub open spec fn failed_with(stage: InjectStage, action: InjectAction, e: Error) -> bool {
    stage is Finished && (action matches InjectAction::Finish(r) && r == Err::<(Vec<InjectionRecord>, InjectOutput), Error>(e))
}

/// The readiness module waited for, empty when there is none.
pub open spec fn awaited_module(prepared: PreparedInject) -> Seq<char> {
    match prepared.wait_module {
        Some(m) => m@,
        None => Seq::empty(),
    }
}

/// The step that a stage waits on, repeated when an event does not belong
/// to it.
pub open spec fn pending_ok(prepared: PreparedInject, stage: InjectStage, action: InjectAction) -> bool {
    match stage {
        InjectStage::Start => action matches InjectAction::Snapshot { after_ms } && after_ms == 0,
        InjectStage::Launching(app_id) => action matches InjectAction::LaunchSteam { app_id: a, uri }
            && a == app_id && uri@ == "steam://rungameid/"@ + decimal(app_id as nat),
        InjectStage::Locating => action matches InjectAction::Snapshot { after_ms } && after_ms == 0,
        InjectStage::AwaitModule(p) => action matches InjectAction::ListModules { pid, after_ms } && pid == p.pid
            && after_ms == 0,
        InjectStage::Settling(_) => action matches InjectAction::Sleep(ms) && ms == prepared.settle_ms,
        InjectStage::Calling(p) => action matches InjectAction::Call(q) && q == p,
        InjectStage::Finished => action is Done,
    }
}

/// The event belongs to the stage.
pub open spec fn fits(stage: InjectStage, event: InjectEvent) -> bool {
    match stage {
        InjectStage::Start => event is Processes,
        InjectStage::Launching(_) => event is Launched,
        InjectStage::Locating => event is Processes,
        InjectStage::AwaitModule(_) => event is Modules,
        InjectStage::Settling(_) => event is Slept,
        InjectStage::Calling(_) => event is Called,
        InjectStage::Finished => false,
    }
}

/// The next stage and step of an injection given what the last step
/// observed: Steam is launched when an app is configured and its target is
/// not running; the target is then waited for (polling every interval until
/// the deadline) or looked up once; the readiness module is waited for the
/// same way; the settle delay is slept; the call is made; and its handle is
/// remembered.
pub open spec fn step_ok(
    options: InjectOptions,
    prepared: PreparedInject,
    stage: InjectStage,
    event: InjectEvent,
    next: InjectStage,
    action: InjectAction,
) -> bool {
    if !fits(stage, event) {
        next == stage && pending_ok(prepared, stage, action)
    } else {
        match (stage, event) {
            (InjectStage::Start, InjectEvent::Processes { snapshot, .. }) =>
                if prepared.steam_app is Some && !target_running(snapshot@, prepared.process_name@) {
                    next == InjectStage::Launching(prepared.steam_app->Some_0)
                        && pending_ok(prepared, next, action)
                } else {
                    next is Locating && (action matches InjectAction::Snapshot { after_ms } && after_ms == 0)
                },
            (InjectStage::Launching(app_id), InjectEvent::Launched(outcome)) => match outcome {
                Ok(()) => next is Locating && (action matches InjectAction::Snapshot { after_ms } && after_ms == 0),
                Err(m) => next is Finished && (action matches InjectAction::Finish(r)
                    && r matches Err(Error::SteamLaunch { app_id: a, source }) && a == app_id && source == m),
            },
            (InjectStage::Locating, InjectEvent::Processes { snapshot, deadline_passed }) =>
                if target_running(snapshot@, prepared.process_name@) {
                    after_located_ok(prepared, snapshot@[resolved_index(snapshot@, prepared.process_name@)], next, action)
                } else if !(options.wait_for_process || prepared.steam_app is Some) || deadline_passed {
                    next is Finished && (action matches InjectAction::Finish(r) && r matches Err(e) && if options.wait_for_process
                        || prepared.steam_app is Some {
                        e matches Error::ProcessWaitTimeout(t) && t@ == prepared.process_name@
                    } else {
                        e matches Error::ProcessNotFound(t) && t@ == prepared.process_name@
                    })
                } else {
                    next is Locating && (action matches InjectAction::Snapshot { after_ms } && after_ms
                        == options.poll_interval_ms)
                },
            (InjectStage::AwaitModule(p), InjectEvent::Modules { names, deadline_passed }) =>
                if any_contains_spec(names@, awaited_module(prepared)) {
                    settle_or_call_ok(prepared, p, next, action)
                } else if deadline_passed {
                    next is Finished && (action matches InjectAction::Finish(r) && r matches Err(
                        Error::ModuleWaitTimeout { process, pid, module },
                    ) && process == p.name && pid == p.pid && module@ == awaited_module(prepared))
                } else {
                    next == stage && (action matches InjectAction::ListModules { pid, after_ms } && pid == p.pid
                        && after_ms == options.poll_interval_ms)
                },
            (InjectStage::Settling(p), InjectEvent::Slept) => next == InjectStage::Calling(p)
                && (action matches InjectAction::Call(q) && q == p),
            (InjectStage::Calling(p), InjectEvent::Called { outcome, records }) => next is Finished
                && (action matches InjectAction::Finish(r) && injected_ok(prepared, p, outcome, records, r)),
            _ => false,
        }
    }
}

/// The step that a stage waits on.
fn pending(prepared: &PreparedInject, stage: &InjectStage) -> (action: InjectAction)
    ensures
        pending_ok(*prepared, *stage, action),
{
    match stage {
        InjectStage::Start => InjectAction::Snapshot { after_ms: 0 },
        InjectStage::Launching(app_id) => InjectAction::LaunchSteam { app_id: *app_id, uri: steam_uri(*app_id) },
        InjectStage::Locating => InjectAction::Snapshot { after_ms: 0 },
        InjectStage::AwaitModule(p) => InjectAction::ListModules { pid: p.pid, after_ms: 0 },
        InjectStage::Settling(_) => InjectAction::Sleep(prepared.settle_ms),
        InjectStage::Calling(p) => InjectAction::Call(p.duplicate()),
        InjectStage::Finished => InjectAction::Done,
    }
}

/// The settle delay, or the call when there is none.
fn settle_or_call(prepared: &PreparedInject, p: ProcessInfo) -> (r: (InjectStage, InjectAction))
    ensures
        settle_or_call_ok(*prepared, p, r.0, r.1),
{
    if prepared.settle_ms > 0 {
        (InjectStage::Settling(p), InjectAction::Sleep(prepared.settle_ms))
    } else {
        let q = p.duplicate();
        (InjectStage::Calling(p), InjectAction::Call(q))
    }
}

/// The readiness wait, or what follows it when there is no module to wait for.
fn after_located(prepared: &PreparedInject, p: ProcessInfo) -> (r: (InjectStage, InjectAction))
    ensures
        after_located_ok(*prepared, p, r.0, r.1),
{
    if prepared.wait_module.is_some() {
        let pid = p.pid;
        (InjectStage::AwaitModule(p), InjectAction::ListModules { pid, after_ms: 0 })
    } else {
        settle_or_call(prepared, p)
    }
}

/// Decides the next stage and step of an injection from the current stage
/// and what the last step observed.
pub fn inject_step(
    options: &InjectOptions,
    prepared: &PreparedInject,
    stage: InjectStage,
    event: InjectEvent,
) -> (r: (InjectStage, InjectAction))
    ensures
        step_ok(*options, *prepared, stage, event, r.0, r.1),
{
    let ghost s0 = stage;
    let ghost e0 = event;
    match (stage, event) {
        (InjectStage::Start, InjectEvent::Processes { snapshot, .. }) => match maybe_launch(prepared, &snapshot) {
            Some(app_id) => {
                let next = InjectStage::Launching(app_id);
                let action = pending(prepared, &next);
                (next, action)
            },
            None => (InjectStage::Locating, InjectAction::Snapshot { after_ms: 0 }),
        },
        (InjectStage::Launching(app_id), InjectEvent::Launched(outcome)) => match outcome {
            Ok(()) => (InjectStage::Locating, InjectAction::Snapshot { after_ms: 0 }),
            Err(m) => (
                InjectStage::Finished,
                InjectAction::Finish(Err(Error::SteamLaunch { app_id, source: m })),
            ),
        },
        (InjectStage::Locating, InjectEvent::Processes { snapshot, deadline_passed }) => {
            if waits_for_process(options, prepared) {
                match poll_process(prepared.process_name.as_str(), &snapshot, deadline_passed) {
                    Some(Ok(p)) => after_located(prepared, p),
                    Some(Err(e)) => (InjectStage::Finished, InjectAction::Finish(Err(e))),
                    None => (InjectStage::Locating, InjectAction::Snapshot { after_ms: options.poll_interval_ms }),
                }
            } else {
                match resolve_process(&snapshot, prepared.process_name.as_str()) {
                    Ok(p) => after_located(prepared, p),
                    Err(e) => (InjectStage::Finished, InjectAction::Finish(Err(e))),
                }
            }
        },
        (InjectStage::AwaitModule(p), InjectEvent::Modules { names, deadline_passed }) => {
            let module = match &prepared.wait_module {
                Some(m) => m.as_str(),
                None => "",
            };
            proof {
                reveal_strlit("");
            }
            assert(module@ == awaited_module(*prepared));
            assert(fits(s0, e0));
            match poll_module(&p, module, &names, deadline_passed) {
                Some(Ok(())) => settle_or_call(prepared, p),
                Some(Err(e)) => (InjectStage::Finished, InjectAction::Finish(Err(e))),
                None => {
                    let pid = p.pid;
                    (InjectStage::AwaitModule(p), InjectAction::ListModules { pid, after_ms: options.poll_interval_ms })
                },
            }
        },
        (InjectStage::Settling(p), InjectEvent::Slept) => {
            let q = p.duplicate();
            (InjectStage::Calling(p), InjectAction::Call(q))
        },
        (InjectStage::Calling(p), InjectEvent::Called { outcome, records }) => {
            let r = inject(prepared, p, outcome, records);
            (InjectStage::Finished, InjectAction::Finish(r))
        },
        (stage, _) => {
            let action = pending(prepared, &stage);
            (stage, action)
        },
    }
}

} // verus!
