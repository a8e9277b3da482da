//! The inject panel: its fields, the process picker, profile loading, and
//! the injection (or dry run) it asks for.
use vstd::prelude::*;

use crate::gui::log_strip::{LogEntry, LogLevel};
use crate::gui::{duration_field_ms, file_name, file_name_spec, non_empty, non_empty_spec, parse_dur, parse_number};
use crate::operations::{opt_seq, InjectOptions, InjectOutput};
use crate::process::{row_of, rows_of, ListOptions, ModuleFilter, ProcessListing};
use crate::profiles::Profile;
use crate::runtime::{RuntimeOptions, DEFAULT_TIMEOUT_MS};
use crate::state::clone_opt;
use crate::text::{concat2, contains, contains_spec, decimal, lowercase, owned, parse_bounded, to_lowercase, u64_to_decimal};

verus! {

/// Per-field state for the Inject panel.
#[derive(Debug, Clone)]
pub struct InjectState {
    pub process_input: String,
    pub process_filter: String,
    pub process_list: Vec<ProcessListing>,
    pub assembly_path: String,
    pub namespace_input: String,
    pub class_input: String,
    pub method_input: String,
    pub eject_method_input: String,
    pub profile_selection: Option<String>,
    pub profiles: Vec<String>,
    pub wait_for_process: bool,
    pub wait_timeout: String,
    pub poll_interval: String,
    pub wait_for_module: bool,
    pub wait_module_name: String,
    pub settle_ms: String,
    pub steam_enabled: bool,
    pub steam_app_id: String,
    pub timeout_ms: String,
    pub mono_module: String,
    pub base_dir: String,
    pub dry_run: bool,
    pub entry_point_expanded: bool,
    pub timing_expanded: bool,
    pub runtime_expanded: bool,
    pub profile_expanded: bool,
    pub inject_running: bool,
    pub last_error: Option<String>,
}

impl Default for InjectState {
    /// Entry point `Loader::Init` / `Unload`, waits of `120s` polled every
    /// `1000ms`, no settle delay, a `5000` ms remote timeout and the `mono`
    /// module hint; only the timing section open.
    fn default() -> (r: Self)
        ensures
            r.process_input@.len() == 0,
            r.process_filter@.len() == 0,
            r.process_list@.len() == 0,
            r.assembly_path@.len() == 0,
            r.namespace_input@.len() == 0,
            r.class_input@ == "Loader"@,
            r.method_input@ == "Init"@,
            r.eject_method_input@ == "Unload"@,
            r.profile_selection is None,
            r.profiles@.len() == 0,
            !r.wait_for_process,
            r.wait_timeout@ == "120s"@,
            r.poll_interval@ == "1000ms"@,
            !r.wait_for_module,
            r.wait_module_name@.len() == 0,
            r.settle_ms@ == "0"@,
            !r.steam_enabled,
            r.steam_app_id@.len() == 0,
            r.timeout_ms@ == "5000"@,
            r.mono_module@ == "mono"@,
            r.base_dir@.len() == 0,
            !r.dry_run,
            !r.entry_point_expanded,
            r.timing_expanded,
            !r.runtime_expanded,
            !r.profile_expanded,
            !r.inject_running,
            r.last_error is None,
    {
        InjectState {
            process_input: String::new(),
            process_filter: String::new(),
            process_list: Vec::new(),
            assembly_path: String::new(),
            namespace_input: String::new(),
            class_input: owned("Loader"),
            method_input: owned("Init"),
            eject_method_input: owned("Unload"),
            profile_selection: None,
            profiles: Vec::new(),
            wait_for_process: false,
            wait_timeout: owned("120s"),
            poll_interval: owned("1000ms"),
            wait_for_module: false,
            wait_module_name: String::new(),
            settle_ms: owned("0"),
            steam_enabled: false,
            steam_app_id: String::new(),
            timeout_ms: owned("5000"),
            mono_module: owned("mono"),
            base_dir: String::new(),
            dry_run: false,
            entry_point_expanded: false,
            timing_expanded: true,
            runtime_expanded: false,
            profile_expanded: false,
            inject_running: false,
            last_error: None,
        }
    }
}

/// Messages handled by the Inject view. A browsed path arrives as text.
#[derive(Debug)]
pub enum InjectMsg {
    ProcessFilterChanged(String),
    ProcessSelected(String),
    AssemblyPathChanged(String),
    NamespaceChanged(String),
    ClassChanged(String),
    MethodChanged(String),
    EjectMethodChanged(String),
    WaitForProcessToggled(bool),
    WaitTimeoutChanged(String),
    PollIntervalChanged(String),
    WaitForModuleToggled(bool),
    WaitModuleChanged(String),
    SettleChanged(String),
    SteamToggled(bool),
    SteamAppIdChanged(String),
    TimeoutChanged(String),
    MonoModuleChanged(String),
    BaseDirChanged(String),
    DryRunToggled(bool),
    EntryPointToggled,
    TimingToggled,
    RuntimeToggled,
    ProfileToggled,
    RefreshProcesses,
    ProcessesLoaded(Vec<ProcessListing>),
    BrowseAssembly,
    BrowseResult(Option<String>),
    InjectClicked,
    DryRunClicked,
    InjectDone(Result<InjectOutput, String>),
    ProfileSelected(String),
    ProfileLoaded(Result<Profile, String>),
    ProfilesLoaded(Vec<String>),
}

/// Background work the Inject view asks for; its result comes back as a
/// message (`BrowseResult`, `ProcessesLoaded`, `InjectDone`, `ProfileLoaded`).
#[derive(Debug, Clone)]
pub enum InjectTask {
    Idle,
    BrowseAssembly,
    RefreshProcesses(ListOptions),
    Inject { options: InjectOptions, dry_run: bool },
    LoadProfile(String),
}

/// The log line of an injection result, as level and message.
pub open spec fn inject_log_spec(msg: InjectMsg) -> Option<(LogLevel, Seq<char>)> {
    match msg {
        InjectMsg::InjectDone(Ok(o)) => Some((LogLevel::Success, "Injected "@ + o.entry@ + " into "@ + o.process.name@)),
        InjectMsg::InjectDone(Err(e)) => Some((LogLevel::Error, "Inject failed: "@ + e@)),
        _ => None,
    }
}

impl InjectMsg {
    /// Returns a log entry for result messages so the app can record it.
    pub fn log_entry(&self) -> (r: Option<LogEntry>)
        ensures
            match inject_log_spec(*self) {
                Some((level, text)) => r matches Some(e) && e.level == level && e.message@ == text,
                None => r is None,
            },
    {
        match self {
            InjectMsg::InjectDone(Ok(o)) => {
                let a = concat2("Injected ", o.entry.as_str());
                let b = concat2(a.as_str(), " into ");
                let c = concat2(b.as_str(), o.process.name.as_str());
                Some(LogEntry::ok(c))
            },
            InjectMsg::InjectDone(Err(e)) => Some(LogEntry::error(concat2("Inject failed: ", e.as_str()))),
            _ => None,
        }
    }
}

/// The panel after a field edit or section toggle; any other message leaves
/// it as it is.
pub open spec fn field_applied(s: InjectState, msg: InjectMsg) -> InjectState {
    match msg {
        InjectMsg::ProcessFilterChanged(v) => InjectState { process_filter: v, ..s },
        InjectMsg::ProcessSelected(v) => InjectState { process_input: v, ..s },
        InjectMsg::AssemblyPathChanged(v) => InjectState { assembly_path: v, ..s },
        InjectMsg::NamespaceChanged(v) => InjectState { namespace_input: v, ..s },
        InjectMsg::ClassChanged(v) => InjectState { class_input: v, ..s },
        InjectMsg::MethodChanged(v) => InjectState { method_input: v, ..s },
        InjectMsg::EjectMethodChanged(v) => InjectState { eject_method_input: v, ..s },
        InjectMsg::WaitForProcessToggled(v) => InjectState { wait_for_process: v, ..s },
        InjectMsg::WaitTimeoutChanged(v) => InjectState { wait_timeout: v, ..s },
        InjectMsg::PollIntervalChanged(v) => InjectState { poll_interval: v, ..s },
        InjectMsg::WaitForModuleToggled(v) => InjectState { wait_for_module: v, ..s },
        InjectMsg::WaitModuleChanged(v) => InjectState { wait_module_name: v, ..s },
        InjectMsg::SettleChanged(v) => InjectState { settle_ms: v, ..s },
        InjectMsg::SteamToggled(v) => InjectState { steam_enabled: v, ..s },
        InjectMsg::SteamAppIdChanged(v) => InjectState { steam_app_id: v, ..s },
        InjectMsg::TimeoutChanged(v) => InjectState { timeout_ms: v, ..s },
        InjectMsg::MonoModuleChanged(v) => InjectState { mono_module: v, ..s },
        InjectMsg::BaseDirChanged(v) => InjectState { base_dir: v, ..s },
        InjectMsg::DryRunToggled(v) => InjectState { dry_run: v, ..s },
        InjectMsg::EntryPointToggled => InjectState { entry_point_expanded: !s.entry_point_expanded, ..s },
        InjectMsg::TimingToggled => InjectState { timing_expanded: !s.timing_expanded, ..s },
        InjectMsg::RuntimeToggled => InjectState { runtime_expanded: !s.runtime_expanded, ..s },
        InjectMsg::ProfileToggled => InjectState { profile_expanded: !s.profile_expanded, ..s },
        _ => s,
    }
}

/// Applies a field edit or section toggle.
#[verifier::spinoff_prover]
#[verifier::rlimit(60)]
pub fn apply_field(s: &mut InjectState, msg: InjectMsg)
    ensures
        *final(s) == field_applied(*old(s), msg),
{
    match msg {
        InjectMsg::ProcessFilterChanged(v) => s.process_filter = v,
        InjectMsg::ProcessSelected(v) => s.process_input = v,
        InjectMsg::AssemblyPathChanged(v) => s.assembly_path = v,
        InjectMsg::NamespaceChanged(v) => s.namespace_input = v,
        InjectMsg::ClassChanged(v) => s.class_input = v,
        InjectMsg::MethodChanged(v) => s.method_input = v,
        InjectMsg::EjectMethodChanged(v) => s.eject_method_input = v,
        InjectMsg::WaitForProcessToggled(v) => s.wait_for_process = v,
        InjectMsg::WaitTimeoutChanged(v) => s.wait_timeout = v,
        InjectMsg::PollIntervalChanged(v) => s.poll_interval = v,
        InjectMsg::WaitForModuleToggled(v) => s.wait_for_module = v,
        InjectMsg::WaitModuleChanged(v) => s.wait_module_name = v,
        InjectMsg::SettleChanged(v) => s.settle_ms = v,
        InjectMsg::SteamToggled(v) => s.steam_enabled = v,
        InjectMsg::SteamAppIdChanged(v) => s.steam_app_id = v,
        InjectMsg::TimeoutChanged(v) => s.timeout_ms = v,
        InjectMsg::MonoModuleChanged(v) => s.mono_module = v,
        InjectMsg::BaseDirChanged(v) => s.base_dir = v,
        InjectMsg::DryRunToggled(v) => s.dry_run = v,
        InjectMsg::EntryPointToggled => s.entry_point_expanded = !s.entry_point_expanded,
        InjectMsg::TimingToggled => s.timing_expanded = !s.timing_expanded,
        InjectMsg::RuntimeToggled => s.runtime_expanded = !s.runtime_expanded,
        InjectMsg::ProfileToggled => s.profile_expanded = !s.profile_expanded,
        _ => {},
    }
}

/// Records the end of an injection: running stops and the error is kept.
pub fn handle_inject_done(state: &mut InjectState, result: Result<InjectOutput, String>)
    ensures
        *final(state) == (InjectState {
            inject_running: false,
            last_error: match result {
                Ok(_) => None,
                Err(e) => Some(e),
            },
            ..*old(state)
        }),
{
    state.inject_running = false;
    state.last_error = match result {
        Ok(_) => None,
        Err(e) => Some(e),
    };
}

/// Takes a browsed assembly path; a cancelled dialog changes nothing.
pub fn apply_browse(state: &mut InjectState, path: Option<String>)
    ensures
        *final(state) == match path {
            Some(p) => InjectState { assembly_path: p, ..*old(state) },
            None => *old(state),
        },
{
    if let Some(p) = path {
        state.assembly_path = p;
    }
}

/// A field that a profile value overrides when it sets one.
pub open spec fn overridden(field: String, value: Option<String>) -> String {
    match value {
        Some(v) => v,
        None => field,
    }
}

/// The panel after a loaded profile: each value that the profile sets
/// replaces its field (numbers as their decimal text); a failed load
/// changes nothing.
pub open spec fn profile_applied(s: InjectState, result: Result<Profile, String>) -> InjectState {
    match result {
        Err(_) => s,
        Ok(p) => InjectState {
            process_input: overridden(s.process_input, p.process),
            assembly_path: overridden(s.assembly_path, p.assembly),
            namespace_input: overridden(s.namespace_input, p.namespace),
            class_input: overridden(s.class_input, p.class_name),
            method_input: overridden(s.method_input, p.inject_method),
            eject_method_input: overridden(s.eject_method_input, p.eject_method),
            mono_module: overridden(s.mono_module, p.mono_module),
            base_dir: overridden(s.base_dir, p.base_dir),
            ..s
        },
    }
}

/// Replaces a field with a value that is set.
pub fn override_field(field: &mut String, value: Option<String>)
    ensures
        *final(field) == overridden(*old(field), value),
{
    if let Some(v) = value {
        *field = v;
    }
}

/// Replaces a field with the decimal text of a number that is set.
pub fn override_number(field: &mut String, value: Option<u64>)
    ensures
        match value {
            Some(v) => final(field)@ == decimal(v as nat),
            None => *final(field) == *old(field),
        },
{
    if let Some(v) = value {
        *field = u64_to_decimal(v);
    }
}

/// Fills the panel from a loaded profile.
pub fn apply_profile(state: &mut InjectState, result: Result<Profile, String>)
    ensures
        *final(state) == (InjectState {
            timeout_ms: final(state).timeout_ms,
            steam_app_id: final(state).steam_app_id,
            ..profile_applied(*old(state), result)
        }),
        match result {
            Ok(p) => {
                &&& match p.timeout_ms {
                    Some(t) => final(state).timeout_ms@ == decimal(t as nat),
                    None => final(state).timeout_ms == old(state).timeout_ms,
                }
                &&& match p.steam_app {
                    Some(a) => final(state).steam_app_id@ == decimal(a as nat),
                    None => final(state).steam_app_id == old(state).steam_app_id,
                }
            },
            Err(_) => final(state).timeout_ms == old(state).timeout_ms
                && final(state).steam_app_id == old(state).steam_app_id,
        },
{
    let p = match result {
        Ok(p) => p,
        Err(_) => return,
    };
    override_field(&mut state.process_input, p.process);
    override_field(&mut state.assembly_path, p.assembly);
    override_field(&mut state.namespace_input, p.namespace);
    override_field(&mut state.class_input, p.class_name);
    override_field(&mut state.method_input, p.inject_method);
    override_field(&mut state.eject_method_input, p.eject_method);
    override_field(&mut state.mono_module, p.mono_module);
    override_field(&mut state.base_dir, p.base_dir);
    let timeout: Option<u64> = match p.timeout_ms {
        Some(t) => Some(t as u64),
        None => None,
    };
    override_number(&mut state.timeout_ms, timeout);
    let steam: Option<u64> = match p.steam_app {
        Some(a) => Some(a as u64),
        None => None,
    };
    override_number(&mut state.steam_app_id, steam);
}

/// The listing the process picker shows: Mono and Unity processes with
/// their modules.
pub fn picker_list_options() -> (r: ListOptions)
    ensures
        r.filter is None,
        r.module_filter == ModuleFilter::MonoAndUnity,
        r.include_modules,
{
    ListOptions { filter: None, module_filter: ModuleFilter::MonoAndUnity, include_modules: true }
}

/// A process is offered by the picker: the lower-cased filter is empty or
/// the lower-cased name contains it.
pub open spec fn offered(p: ProcessListing, filter: Seq<char>) -> bool {
    lowercase(filter).len() == 0 || contains_spec(lowercase(p.name@), lowercase(filter))
}

/// The processes the picker offers, in listing order.
pub fn picker_processes(state: &InjectState) -> (r: Vec<ProcessListing>)
    ensures
        rows_of(r@) == rows_of(state.process_list@.filter(|p: ProcessListing| offered(p, state.process_filter@))),
{
    let filter = to_lowercase(state.process_filter.as_str());
    let empty = crate::text::chars_of(filter.as_str()).len() == 0;
    let ghost pred = |p: ProcessListing| offered(p, state.process_filter@);
    let mut r: Vec<ProcessListing> = Vec::new();
    let mut i: usize = 0;
    while i < state.process_list.len()
        invariant
            i <= state.process_list.len(),
            filter@ == lowercase(state.process_filter@),
            empty == (lowercase(state.process_filter@).len() == 0),
            pred == (|p: ProcessListing| offered(p, state.process_filter@)),
            rows_of(r@) == rows_of(state.process_list@.take(i as int).filter(pred)),
        decreases state.process_list.len() - i,
    {
        let p = &state.process_list[i];
        let keep = empty || {
            let name = to_lowercase(p.name.as_str());
            contains(name.as_str(), filter.as_str())
        };
        let ghost before = state.process_list@.take(i as int).filter(pred);
        proof {
            crate::seqs::lemma_filter_take_step(state.process_list@, pred, i as int);
        }
        if keep {
            let d = p.duplicate();
            let ghost old_r = r@;
            r.push(d);
            assert(rows_of(r@) =~= rows_of(old_r).push(row_of(d)));
            assert(rows_of(before.push(*p)) =~= rows_of(before).push(row_of(*p)));
        }
        i = i + 1;
    }
    assert(state.process_list@.take(state.process_list@.len() as int) =~= state.process_list@);
    r
}

/// A typed number as an option, as `str::parse` reads it.
pub open spec fn parsed_field(text: Seq<char>, max: nat) -> Option<nat> {
    parse_bounded(text, 10, max)
}

/// The injection options that the panel's fields give.
pub open spec fn inject_options_spec(state: InjectState, o: InjectOptions) -> bool {
    &&& o.profile_name == state.profile_selection
    &&& opt_seq(o.process) == non_empty_spec(state.process_input@)
    &&& opt_seq(o.assembly) == non_empty_spec(state.assembly_path@)
    &&& opt_seq(o.namespace) == non_empty_spec(state.namespace_input@)
    &&& opt_seq(o.class_name) == non_empty_spec(state.class_input@)
    &&& opt_seq(o.inject_method) == non_empty_spec(state.method_input@)
    &&& opt_seq(o.eject_method) == non_empty_spec(state.eject_method_input@)
    &&& o.wait_for_process == state.wait_for_process
    &&& o.wait_timeout_ms == duration_field_ms(state.wait_timeout@, 120_000)
    &&& o.poll_interval_ms == duration_field_ms(state.poll_interval@, 1000)
    &&& opt_seq(o.wait_module) == if state.wait_for_module { non_empty_spec(state.wait_module_name@) } else { None }
    &&& !o.disable_wait_module
    &&& o.settle_delay_ms == match parsed_field(state.settle_ms@, u64::MAX as nat) {
        Some(ms) => if ms > 0 { Some(ms as u64) } else { None },
        None => None,
    }
    &&& o.steam_app == if state.steam_enabled {
        match parsed_field(state.steam_app_id@, u32::MAX as nat) {
            Some(a) => Some(a as u32),
            None => None,
        }
    } else {
        None
    }
    &&& o.runtime.timeout_ms == match parsed_field(state.timeout_ms@, u32::MAX as nat) {
        Some(t) => t as u32,
        None => DEFAULT_TIMEOUT_MS,
    }
    &&& opt_seq(o.runtime.mono_module_hint) == non_empty_spec(state.mono_module@)
    &&& opt_seq(o.runtime.base_dir) == non_empty_spec(state.base_dir@)
}

/// Builds the injection options from the panel's fields.
pub fn build_options(state: &InjectState) -> (r: InjectOptions)
    ensures
        inject_options_spec(*state, r),
{
    let wait_module = if state.wait_for_module {
        non_empty(state.wait_module_name.as_str())
    } else {
        None
    };
    let settle_delay_ms = match parse_number(state.settle_ms.as_str(), u64::MAX) {
        Some(ms) => if ms > 0 { Some(ms) } else { None },
        None => None,
    };
    let steam_app = if state.steam_enabled {
        match parse_number(state.steam_app_id.as_str(), u32::MAX as u64) {
            Some(a) => Some(a as u32),
            None => None,
        }
    } else {
        None
    };
    let timeout_ms = match parse_number(state.timeout_ms.as_str(), u32::MAX as u64) {
        Some(t) => t as u32,
        None => DEFAULT_TIMEOUT_MS,
    };
    InjectOptions {
        profile_name: clone_opt(&state.profile_selection),
        process: non_empty(state.process_input.as_str()),
        assembly: non_empty(state.assembly_path.as_str()),
        namespace: non_empty(state.namespace_input.as_str()),
        class_name: non_empty(state.class_input.as_str()),
        inject_method: non_empty(state.method_input.as_str()),
        eject_method: non_empty(state.eject_method_input.as_str()),
        wait_for_process: state.wait_for_process,
        wait_timeout_ms: parse_dur(state.wait_timeout.as_str(), 120_000),
        poll_interval_ms: parse_dur(state.poll_interval.as_str(), 1000),
        wait_module,
        disable_wait_module: false,
        settle_delay_ms,
        steam_app,
        runtime: RuntimeOptions {
            timeout_ms,
            mono_module_hint: non_empty(state.mono_module.as_str()),
            base_dir: non_empty(state.base_dir.as_str()),
        },
    }
}

/// Starts an injection or dry run from the panel's fields.
pub fn perform_inject(state: &mut InjectState, dry_run: bool) -> (task: InjectTask)
    ensures
        *final(state) == (InjectState { inject_running: true, last_error: None, ..*old(state) }),
        task matches InjectTask::Inject { options, dry_run: d } && d == dry_run && inject_options_spec(*old(state), options),
{
    let options = build_options(state);
    state.inject_running = true;
    state.last_error = None;
    InjectTask::Inject { options, dry_run }
}

/// The panel after a message, and the background work it asks for.
pub open spec fn update_ok(s0: InjectState, msg: InjectMsg, s1: InjectState, task: InjectTask) -> bool {
    match msg {
        InjectMsg::BrowseAssembly => s1 == s0 && task is BrowseAssembly,
        InjectMsg::BrowseResult(p) => task is Idle && s1 == match p {
            Some(path) => InjectState { assembly_path: path, ..s0 },
            None => s0,
        },
        InjectMsg::RefreshProcesses => s1 == s0 && (task matches InjectTask::RefreshProcesses(o)
            && o.filter is None && o.module_filter == ModuleFilter::MonoAndUnity && o.include_modules),
        InjectMsg::ProcessesLoaded(list) => task is Idle && s1 == (InjectState { process_list: list, ..s0 }),
        InjectMsg::InjectClicked => s1 == (InjectState { inject_running: true, last_error: None, ..s0 })
            && (task matches InjectTask::Inject { options, dry_run } && !dry_run && inject_options_spec(s0, options)),
        InjectMsg::DryRunClicked => s1 == (InjectState { inject_running: true, last_error: None, ..s0 })
            && (task matches InjectTask::Inject { options, dry_run } && dry_run && inject_options_spec(s0, options)),
        InjectMsg::InjectDone(r) => task is Idle && s1 == (InjectState {
            inject_running: false,
            last_error: match r {
                Ok(_) => None,
                Err(e) => Some(e),
            },
            ..s0
        }),
        InjectMsg::ProfileSelected(name) => s1 == s0 && task == InjectTask::LoadProfile(name),
        InjectMsg::ProfileLoaded(r) => task is Idle && (InjectState {
            timeout_ms: s1.timeout_ms,
            steam_app_id: s1.steam_app_id,
            ..profile_applied(s0, r)
        }) == s1,
        InjectMsg::ProfilesLoaded(names) => task is Idle && s1 == (InjectState { profiles: names, ..s0 }),
        _ => task is Idle && s1 == field_applied(s0, msg),
    }
}

/// Applies a message to the panel and gives the background work it asks for.
pub fn update(state: &mut InjectState, msg: InjectMsg) -> (task: InjectTask)
    ensures
        update_ok(*old(state), msg, *final(state), task),
{
    match msg {
        InjectMsg::BrowseAssembly => InjectTask::BrowseAssembly,
        InjectMsg::BrowseResult(p) => {
            apply_browse(state, p);
            InjectTask::Idle
        },
        InjectMsg::RefreshProcesses => InjectTask::RefreshProcesses(picker_list_options()),
        InjectMsg::ProcessesLoaded(list) => {
            state.process_list = list;
            InjectTask::Idle
        },
        InjectMsg::InjectClicked => perform_inject(state, false),
        InjectMsg::DryRunClicked => perform_inject(state, true),
        InjectMsg::InjectDone(r) => {
            handle_inject_done(state, r);
            InjectTask::Idle
        },
        InjectMsg::ProfileSelected(name) => InjectTask::LoadProfile(name),
        InjectMsg::ProfileLoaded(r) => {
            apply_profile(state, r);
            InjectTask::Idle
        },
        InjectMsg::ProfilesLoaded(names) => {
            state.profiles = names;
            InjectTask::Idle
        },
        other => {
            apply_field(state, other);
            InjectTask::Idle
        },
    }
}

/// The inject button: its label, and whether it can be pressed (not while
/// an injection runs).
pub fn inject_button(state: &InjectState) -> (r: (&'static str, bool))
    ensures
        r.0@ == if state.inject_running { "INJECTING..."@ } else { "INJECT"@ },
        r.1 == !state.inject_running,
{
    if state.inject_running {
        ("INJECTING...", false)
    } else {
        ("INJECT", true)
    }
}

/// The hint under the assembly path: nothing while the path is empty,
/// else the path's file name (empty when it has none).
pub fn assembly_hint(state: &InjectState) -> (r: Option<String>)
    ensures
        state.assembly_path@.len() == 0 ==> r is None,
        state.assembly_path@.len() > 0 ==> (r matches Some(h) && h@ == match file_name_spec(state.assembly_path@) {
            Some(n) => n,
            None => Seq::empty(),
        }),
{
    if crate::text::chars_of(state.assembly_path.as_str()).len() == 0 {
        return None;
    }
    match file_name(state.assembly_path.as_str()) {
        Some(n) => Some(n),
        None => Some(String::new()),
    }
}

} // verus!
