//! The eject panel: its fields, the remembered records it offers, and the
//! ejection it asks for.
use vstd::prelude::*;

use crate::gui::log_strip::{LogEntry, LogLevel};
use crate::gui::{non_empty, non_empty_spec};
use crate::operations::{opt_seq, EjectOptions, EjectOutput};
use crate::runtime::{RuntimeOptions, DEFAULT_TIMEOUT_MS};
use crate::state::{clone_opt, InjectionRecord};
use crate::text::{concat2, owned, str_eq};

verus! {

/// Per-field state for the Eject panel.
#[derive(Debug, Clone)]
pub struct EjectState {
    pub process_input: String,
    pub handle_input: String,
    pub namespace_input: String,
    pub class_input: String,
    pub method_input: String,
    pub active_records: Vec<InjectionRecord>,
    pub resolved_record: Option<InjectionRecord>,
    pub force_enabled: bool,
    pub raw_handle_input: String,
    pub latest_enabled: bool,
    pub danger_expanded: bool,
    pub eject_running: bool,
    pub last_error: Option<String>,
}

impl Default for EjectState {
    /// Empty fields, method `Unload`, `latest` on and the danger zone open.
    fn default() -> (r: Self)
        ensures
            r.process_input@.len() == 0,
            r.handle_input@.len() == 0,
            r.namespace_input@.len() == 0,
            r.class_input@.len() == 0,
            r.method_input@ == "Unload"@,
            r.active_records@.len() == 0,
            r.resolved_record is None,
            !r.force_enabled,
            r.raw_handle_input@.len() == 0,
            r.latest_enabled,
            r.danger_expanded,
            !r.eject_running,
            r.last_error is None,
    {
        EjectState {
            process_input: String::new(),
            handle_input: String::new(),
            namespace_input: String::new(),
            class_input: String::new(),
            method_input: owned("Unload"),
            active_records: Vec::new(),
            resolved_record: None,
            force_enabled: false,
            raw_handle_input: String::new(),
            latest_enabled: true,
            danger_expanded: true,
            eject_running: false,
            last_error: None,
        }
    }
}

/// Messages handled by the Eject view.
#[derive(Debug)]
pub enum EjectMsg {
    ProcessChanged(String),
    HandleChanged(String),
    NamespaceChanged(String),
    ClassChanged(String),
    MethodChanged(String),
    RawHandleChanged(String),
    ForceToggled(bool),
    LatestToggled(bool),
    DangerToggled,
    PickRecord(InjectionRecord),
    LoadRecords,
    RecordsLoaded(Result<Vec<InjectionRecord>, String>),
    EjectClicked,
    EjectDone(Result<EjectOutput, String>),
}

/// Background work the Eject view asks for; its result comes back as a
/// message (`RecordsLoaded` or `EjectDone`).
#[derive(Debug, Clone)]
pub enum EjectTask {
    Idle,
    LoadRecords,
    Eject(EjectOptions),
}

/// The log line of an ejection result, as level and message.
pub open spec fn eject_log_spec(msg: EjectMsg) -> Option<(LogLevel, Seq<char>)> {
    match msg {
        EjectMsg::EjectDone(Ok(o)) => Some((LogLevel::Success, "Ejected "@ + o.entry@ + " from "@ + o.process.name@)),
        EjectMsg::EjectDone(Err(e)) => Some((LogLevel::Error, "Eject failed: "@ + e@)),
        _ => None,
    }
}

impl EjectMsg {
    /// Returns a log entry for result messages so the app can record it.
    pub fn log_entry(&self) -> (r: Option<LogEntry>)
        ensures
            match eject_log_spec(*self) {
                Some((level, text)) => r matches Some(e) && e.level == level && e.message@ == text,
                None => r is None,
            },
    {
        match self {
            EjectMsg::EjectDone(Ok(o)) => {
                let a = concat2("Ejected ", o.entry.as_str());
                let b = concat2(a.as_str(), " from ");
                let c = concat2(b.as_str(), o.process.name.as_str());
                Some(LogEntry::ok(c))
            },
            EjectMsg::EjectDone(Err(e)) => Some(LogEntry::error(concat2("Eject failed: ", e.as_str()))),
            _ => None,
        }
    }
}

/// `r` is the first record whose handle text equals `handle`, or none when
/// no record has it.
pub open spec fn first_with_handle(records: Seq<InjectionRecord>, handle: Seq<char>, r: Option<InjectionRecord>) -> bool {
    match r {
        Some(rec) => exists|i: int|
            0 <= i < records.len() && records[i] == rec && rec.handle@ == handle && forall|j: int|
                0 <= j < i ==> (#[trigger] records[j]).handle@ != handle,
        None => forall|j: int| 0 <= j < records.len() ==> (#[trigger] records[j]).handle@ != handle,
    }
}

/// The first record whose handle text equals `handle`.
pub fn find_by_handle(records: &Vec<InjectionRecord>, handle: &str) -> (r: Option<InjectionRecord>)
    ensures
        first_with_handle(records@, handle@, r),
{
    let mut i: usize = 0;
    while i < records.len()
        invariant
            i <= records.len(),
            forall|j: int| 0 <= j < i ==> (#[trigger] records@[j]).handle@ != handle@,
        decreases records.len() - i,
    {
        if str_eq(records[i].handle.as_str(), handle) {
            let rec = records[i].duplicate();
            assert(records@[i as int] == rec);
            return Some(rec);
        }
        i = i + 1;
    }
    None
}

/// Looks up the loaded record whose handle text equals the typed handle.
pub fn resolve_handle(state: &mut EjectState, handle: &str)
    ensures
        first_with_handle(old(state).active_records@, handle@, final(state).resolved_record),
        final(state).active_records == old(state).active_records,
        final(state).process_input == old(state).process_input,
        final(state).handle_input == old(state).handle_input,
        final(state).namespace_input == old(state).namespace_input,
        final(state).class_input == old(state).class_input,
        final(state).method_input == old(state).method_input,
        final(state).force_enabled == old(state).force_enabled,
        final(state).raw_handle_input == old(state).raw_handle_input,
        final(state).latest_enabled == old(state).latest_enabled,
        final(state).danger_expanded == old(state).danger_expanded,
        final(state).eject_running == old(state).eject_running,
        final(state).last_error == old(state).last_error,
{
    state.resolved_record = find_by_handle(&state.active_records, handle);
}

/// Fills the entry fields from a picked record and resolves it.
pub fn pick_record(state: &mut EjectState, r: InjectionRecord)
    ensures
        final(state).handle_input == r.handle,
        final(state).namespace_input == r.namespace,
        final(state).class_input == r.class_name,
        final(state).method_input == r.eject_method,
        final(state).resolved_record == Some(r),
        final(state).active_records == old(state).active_records,
        final(state).process_input == old(state).process_input,
        final(state).force_enabled == old(state).force_enabled,
        final(state).raw_handle_input == old(state).raw_handle_input,
        final(state).latest_enabled == old(state).latest_enabled,
        final(state).danger_expanded == old(state).danger_expanded,
        final(state).eject_running == old(state).eject_running,
        final(state).last_error == old(state).last_error,
{
    state.handle_input = r.handle.clone();
    state.namespace_input = r.namespace.clone();
    state.class_input = r.class_name.clone();
    state.method_input = r.eject_method.clone();
    state.resolved_record = Some(r);
}

/// Replaces the loaded records; a failed load clears them.
pub fn apply_records(state: &mut EjectState, result: Result<Vec<InjectionRecord>, String>)
    ensures
        match result {
            Ok(recs) => final(state).active_records == recs,
            Err(_) => final(state).active_records@.len() == 0,
        },
        final(state).resolved_record == old(state).resolved_record,
        final(state).process_input == old(state).process_input,
        final(state).handle_input == old(state).handle_input,
        final(state).namespace_input == old(state).namespace_input,
        final(state).class_input == old(state).class_input,
        final(state).method_input == old(state).method_input,
        final(state).force_enabled == old(state).force_enabled,
        final(state).raw_handle_input == old(state).raw_handle_input,
        final(state).latest_enabled == old(state).latest_enabled,
        final(state).danger_expanded == old(state).danger_expanded,
        final(state).eject_running == old(state).eject_running,
        final(state).last_error == old(state).last_error,
{
    match result {
        Ok(recs) => state.active_records = recs,
        Err(_) => state.active_records = Vec::new(),
    }
}

/// Records the end of an ejection: the error is kept; on success the handle
/// field and the resolved record are cleared.
pub fn handle_done(state: &mut EjectState, result: Result<EjectOutput, String>)
    ensures
        !final(state).eject_running,
        match result {
            Ok(_) => final(state).last_error is None && final(state).handle_input@.len() == 0
                && final(state).resolved_record is None,
            Err(e) => final(state).last_error == Some(e) && final(state).handle_input == old(state).handle_input
                && final(state).resolved_record == old(state).resolved_record,
        },
        final(state).active_records == old(state).active_records,
        final(state).process_input == old(state).process_input,
        final(state).namespace_input == old(state).namespace_input,
        final(state).class_input == old(state).class_input,
        final(state).method_input == old(state).method_input,
        final(state).force_enabled == old(state).force_enabled,
        final(state).raw_handle_input == old(state).raw_handle_input,
        final(state).latest_enabled == old(state).latest_enabled,
        final(state).danger_expanded == old(state).danger_expanded,
{
    state.eject_running = false;
    match result {
        Ok(_) => {
            state.last_error = None;
            state.handle_input = String::new();
            state.resolved_record = None;
        },
        Err(e) => state.last_error = Some(e),
    }
}

/// The ejection options that the panel's fields give: empty fields are
/// unset, the raw handle only counts with `force`, no profile, default
/// runtime settings.
pub open spec fn eject_options_spec(state: EjectState, o: EjectOptions) -> bool {
    &&& o.profile_name is None
    &&& opt_seq(o.process) == non_empty_spec(state.process_input@)
    &&& opt_seq(o.handle) == non_empty_spec(state.handle_input@)
    &&& opt_seq(o.raw_handle) == if state.force_enabled { non_empty_spec(state.raw_handle_input@) } else { None }
    &&& opt_seq(o.namespace) == non_empty_spec(state.namespace_input@)
    &&& opt_seq(o.class_name) == non_empty_spec(state.class_input@)
    &&& opt_seq(o.method_name) == non_empty_spec(state.method_input@)
    &&& o.latest == state.latest_enabled
    &&& o.force == state.force_enabled
    &&& o.runtime.timeout_ms == DEFAULT_TIMEOUT_MS
    &&& o.runtime.mono_module_hint is None
    &&& o.runtime.base_dir is None
}

/// Builds the ejection options from the panel's fields.
pub fn build_eject_options(state: &EjectState) -> (r: EjectOptions)
    ensures
        eject_options_spec(*state, r),
{
    let raw = if state.force_enabled {
        non_empty(state.raw_handle_input.as_str())
    } else {
        None
    };
    EjectOptions {
        profile_name: None,
        process: non_empty(state.process_input.as_str()),
        handle: non_empty(state.handle_input.as_str()),
        raw_handle: raw,
        namespace: non_empty(state.namespace_input.as_str()),
        class_name: non_empty(state.class_input.as_str()),
        method_name: non_empty(state.method_input.as_str()),
        latest: state.latest_enabled,
        force: state.force_enabled,
        runtime: RuntimeOptions::default(),
    }
}

/// The panel after a message, and the background work it asks for.
pub open spec fn update_ok(s0: EjectState, msg: EjectMsg, s1: EjectState, task: EjectTask) -> bool {
    match msg {
        EjectMsg::ProcessChanged(v) => task is Idle && s1 == (EjectState { process_input: v, ..s0 }),
        EjectMsg::HandleChanged(v) => task is Idle
            && s1 == (EjectState { handle_input: v, resolved_record: s1.resolved_record, ..s0 })
            && first_with_handle(s0.active_records@, v@, s1.resolved_record),
        EjectMsg::NamespaceChanged(v) => task is Idle && s1 == (EjectState { namespace_input: v, ..s0 }),
        EjectMsg::ClassChanged(v) => task is Idle && s1 == (EjectState { class_input: v, ..s0 }),
        EjectMsg::MethodChanged(v) => task is Idle && s1 == (EjectState { method_input: v, ..s0 }),
        EjectMsg::RawHandleChanged(v) => task is Idle
            && s1 == (EjectState { raw_handle_input: v, ..s0 }),
        EjectMsg::ForceToggled(v) => task is Idle && s1 == (EjectState { force_enabled: v, ..s0 }),
        EjectMsg::LatestToggled(v) => task is Idle && s1 == (EjectState { latest_enabled: v, ..s0 }),
        EjectMsg::DangerToggled => task is Idle
            && s1 == (EjectState { danger_expanded: !s0.danger_expanded, ..s0 }),
        EjectMsg::PickRecord(r) => task is Idle && s1 == (EjectState {
            handle_input: r.handle,
            namespace_input: r.namespace,
            class_input: r.class_name,
            method_input: r.eject_method,
            resolved_record: Some(r),
            ..s0
        }),
        EjectMsg::LoadRecords => s1 == s0 && task is LoadRecords,
        EjectMsg::RecordsLoaded(r) => task is Idle && match r {
            Ok(recs) => s1 == (EjectState { active_records: recs, ..s0 }),
            Err(_) => s1.active_records@.len() == 0
                && s1 == (EjectState { active_records: s1.active_records, ..s0 }),
        },
        EjectMsg::EjectClicked => s1 == (EjectState { eject_running: true, last_error: None, ..s0 })
            && (task matches EjectTask::Eject(o) && eject_options_spec(s0, o)),
        EjectMsg::EjectDone(r) => task is Idle && match r {
            Ok(_) => s1.handle_input@.len() == 0 && s1 == (EjectState {
                eject_running: false,
                last_error: None,
                handle_input: s1.handle_input,
                resolved_record: None,
                ..s0
            }),
            Err(e) => s1 == (EjectState { eject_running: false, last_error: Some(e), ..s0 }),
        },
    }
}

/// Applies a message to the panel and gives the background work it asks for.
pub fn update(state: &mut EjectState, msg: EjectMsg) -> (task: EjectTask)
    ensures
        update_ok(*old(state), msg, *final(state), task),
{
    match msg {
        EjectMsg::ProcessChanged(v) => {
            state.process_input = v;
            EjectTask::Idle
        },
        EjectMsg::HandleChanged(v) => {
            resolve_handle(state, v.as_str());
            state.handle_input = v;
            EjectTask::Idle
        },
        EjectMsg::NamespaceChanged(v) => {
            state.namespace_input = v;
            EjectTask::Idle
        },
        EjectMsg::ClassChanged(v) => {
            state.class_input = v;
            EjectTask::Idle
        },
        EjectMsg::MethodChanged(v) => {
            state.method_input = v;
            EjectTask::Idle
        },
        EjectMsg::RawHandleChanged(v) => {
            state.raw_handle_input = v;
            EjectTask::Idle
        },
        EjectMsg::ForceToggled(v) => {
            state.force_enabled = v;
            EjectTask::Idle
        },
        EjectMsg::LatestToggled(v) => {
            state.latest_enabled = v;
            EjectTask::Idle
        },
        EjectMsg::DangerToggled => {
            state.danger_expanded = !state.danger_expanded;
            EjectTask::Idle
        },
        EjectMsg::PickRecord(r) => {
            pick_record(state, r);
            EjectTask::Idle
        },
        EjectMsg::LoadRecords => EjectTask::LoadRecords,
        EjectMsg::RecordsLoaded(r) => {
            apply_records(state, r);
            EjectTask::Idle
        },
        EjectMsg::EjectClicked => {
            let opts = build_eject_options(state);
            state.eject_running = true;
            state.last_error = None;
            EjectTask::Eject(opts)
        },
        EjectMsg::EjectDone(r) => {
            handle_done(state, r);
            EjectTask::Idle
        },
    }
}

/// The eject button: its label, and whether it can be pressed (not while
/// an ejection runs).
pub fn eject_button(state: &EjectState) -> (r: (&'static str, bool))
    ensures
        r.0@ == if state.eject_running { "EJECTING..."@ } else { "EJECT ASSEMBLY"@ },
        r.1 == !state.eject_running,
{
    if state.eject_running {
        ("EJECTING...", false)
    } else {
        ("EJECT ASSEMBLY", true)
    }
}

/// The attached process shown above the form: the typed target, or a dash.
pub fn attached_process(state: &EjectState) -> (r: String)
    ensures
        r@ == if state.process_input@.len() == 0 { "\u{2014}"@ } else { state.process_input@ },
{
    if crate::text::chars_of(state.process_input.as_str()).len() == 0 {
        owned("\u{2014}")
    } else {
        state.process_input.clone()
    }
}

} // verus!
