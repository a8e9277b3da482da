//! The process browser: the listing, its filters, and the runtime family of
//! each process.
use vstd::prelude::*;

use crate::gui::inject::picker_list_options;
use crate::process::{row_of, rows_of, ListOptions, ModuleFilter, ProcessListing};
use crate::text::{concat2, contains, contains_spec, join, joined, lowercase, to_lowercase, u64_to_upper_hex, upper_hex};

verus! {

/// Which runtime family to filter by in the process browser.
#[derive(Debug, Clone, Copy, PartialEq, Eq, Structural)]
pub enum RuntimeFilter {
    All,
    Mono,
    Unity,
}

impl Default for RuntimeFilter {
    /// No runtime filter.
    fn default() -> (r: Self)
        ensures
            r == RuntimeFilter::All,
    {
        RuntimeFilter::All
    }
}

impl RuntimeFilter {
    /// The label of the filter's button.
    pub fn as_str(self) -> (r: &'static str)
        ensures
            r@ == match self {
                RuntimeFilter::All => "All"@,
                RuntimeFilter::Mono => "Mono"@,
                RuntimeFilter::Unity => "Unity"@,
            },
    {
        match self {
            RuntimeFilter::All => "All",
            RuntimeFilter::Mono => "Mono",
            RuntimeFilter::Unity => "Unity",
        }
    }
}

/// State for the Processes browser view.
#[derive(Debug, Clone)]
pub struct ProcessesState {
    pub all_processes: Vec<ProcessListing>,
    pub filter_text: String,
    pub runtime_filter: RuntimeFilter,
    pub show_modules: bool,
    pub selected_pid: Option<u32>,
    pub loading: bool,
}

impl Default for ProcessesState {
    /// Nothing loaded, no filter, nothing selected.
    fn default() -> (r: Self)
        ensures
            r.all_processes@.len() == 0,
            r.filter_text@.len() == 0,
            r.runtime_filter == RuntimeFilter::All,
            !r.show_modules,
            r.selected_pid is None,
            !r.loading,
    {
        ProcessesState {
            all_processes: Vec::new(),
            filter_text: String::new(),
            runtime_filter: RuntimeFilter::All,
            show_modules: false,
            selected_pid: None,
            loading: false,
        }
    }
}

/// Messages handled by the Processes view.
#[derive(Debug, Clone)]
pub enum ProcessesMsg {
    Load,
    Refresh,
    Loaded(Vec<ProcessListing>),
    FilterChanged(String),
    RuntimeFilterChanged(RuntimeFilter),
    ToggleModules(bool),
    SelectPid(u32),
    SendToInject(ProcessListing),
}

/// Background work the Processes view asks for; the listing comes back as
/// `Loaded`.
#[derive(Debug, Clone)]
pub enum ProcessesTask {
    Idle,
    LoadProcesses(ListOptions),
}

/// The browser after a message, and the background work it asks for.
pub open spec fn update_ok(s0: ProcessesState, msg: ProcessesMsg, s1: ProcessesState, task: ProcessesTask) -> bool {
    match msg {
        ProcessesMsg::Load | ProcessesMsg::Refresh => s1 == (ProcessesState { loading: true, ..s0 })
            && (task matches ProcessesTask::LoadProcesses(o) && o.filter is None
                && o.module_filter == ModuleFilter::MonoAndUnity && o.include_modules),
        ProcessesMsg::Loaded(list) => task is Idle
            && s1 == (ProcessesState { loading: false, all_processes: list, ..s0 }),
        ProcessesMsg::FilterChanged(f) => task is Idle && s1 == (ProcessesState { filter_text: f, ..s0 }),
        ProcessesMsg::RuntimeFilterChanged(f) => task is Idle
            && s1 == (ProcessesState { runtime_filter: f, ..s0 }),
        ProcessesMsg::ToggleModules(v) => task is Idle && s1 == (ProcessesState { show_modules: v, ..s0 }),
        ProcessesMsg::SelectPid(pid) => task is Idle
            && s1 == (ProcessesState { selected_pid: Some(pid), ..s0 }),
        ProcessesMsg::SendToInject(_) => task is Idle && s1 == s0,
    }
}

/// Applies a message to the browser and gives the background work it asks
/// for. Sending a process to the inject panel is handled by the app.
pub fn update(state: &mut ProcessesState, msg: ProcessesMsg) -> (task: ProcessesTask)
    ensures
        update_ok(*old(state), msg, *final(state), task),
{
    match msg {
        ProcessesMsg::Load | ProcessesMsg::Refresh => {
            state.loading = true;
            ProcessesTask::LoadProcesses(picker_list_options())
        },
        ProcessesMsg::Loaded(list) => {
            state.loading = false;
            state.all_processes = list;
            ProcessesTask::Idle
        },
        ProcessesMsg::FilterChanged(f) => {
            state.filter_text = f;
            ProcessesTask::Idle
        },
        ProcessesMsg::RuntimeFilterChanged(f) => {
            state.runtime_filter = f;
            ProcessesTask::Idle
        },
        ProcessesMsg::ToggleModules(v) => {
            state.show_modules = v;
            ProcessesTask::Idle
        },
        ProcessesMsg::SelectPid(pid) => {
            state.selected_pid = Some(pid);
            ProcessesTask::Idle
        },
        ProcessesMsg::SendToInject(_) => ProcessesTask::Idle,
    }
}

/// Some module name, lower-cased, contains `needle`.
pub open spec fn has_module_with(modules: Seq<String>, needle: Seq<char>) -> bool {
    exists|i: int| 0 <= i < modules.len() && contains_spec(lowercase((#[trigger] modules[i])@), needle)
}

/// Whether some module name, lower-cased, contains `needle`.
pub fn any_module_with(modules: &Vec<String>, needle: &str) -> (r: bool)
    ensures
        r == has_module_with(modules@, needle@),
{
    let mut i: usize = 0;
    while i < modules.len()
        invariant
            i <= modules.len(),
            forall|j: int| 0 <= j < i ==> !contains_spec(lowercase((#[trigger] modules@[j])@), needle@),
        decreases modules.len() - i,
    {
        let lower = to_lowercase(modules[i].as_str());
        if contains(lower.as_str(), needle) {
            return true;
        }
        i = i + 1;
    }
    false
}

/// The runtime family of a listed process: Unity when a module says
/// `unity`, else Mono when one says `mono`, else none.
pub open spec fn runtime_type_spec(p: ProcessListing) -> Option<RuntimeFilter> {
    if has_module_with(p.matched_modules@, "unity"@) {
        Some(RuntimeFilter::Unity)
    } else if has_module_with(p.matched_modules@, "mono"@) {
        Some(RuntimeFilter::Mono)
    } else {
        None
    }
}

/// The runtime family of a listed process.
pub fn runtime_type(p: &ProcessListing) -> (r: Option<RuntimeFilter>)
    ensures
        r == runtime_type_spec(*p),
{
    let has_unity = any_module_with(&p.matched_modules, "unity");
    let has_mono = any_module_with(&p.matched_modules, "mono");
    if has_unity {
        Some(RuntimeFilter::Unity)
    } else if has_mono {
        Some(RuntimeFilter::Mono)
    } else {
        None
    }
}

/// A process passes the runtime filter: any process for `All`, else one of
/// that family.
pub open spec fn runtime_filter_ok(p: ProcessListing, filter: RuntimeFilter) -> bool {
    match filter {
        RuntimeFilter::All => true,
        other => runtime_type_spec(p) == Some(other),
    }
}

/// Whether a process passes the runtime filter.
pub fn matches_runtime_filter(p: &ProcessListing, filter: RuntimeFilter) -> (r: bool)
    ensures
        r == runtime_filter_ok(*p, filter),
{
    match filter {
        RuntimeFilter::All => true,
        other => match runtime_type(p) {
            Some(t) => t == other,
            None => false,
        },
    }
}

/// A process is shown: it passes the runtime filter and its lower-cased
/// name contains the lower-cased filter text (an empty one shows all).
pub open spec fn shown(p: ProcessListing, filter: RuntimeFilter, text: Seq<char>) -> bool {
    runtime_filter_ok(p, filter) && (lowercase(text).len() == 0 || contains_spec(lowercase(p.name@), lowercase(text)))
}

/// The processes the browser shows, in listing order.
pub fn visible_processes(state: &ProcessesState) -> (r: Vec<ProcessListing>)
    ensures
        rows_of(r@) == rows_of(state.all_processes@.filter(|p: ProcessListing| shown(p, state.runtime_filter, state.filter_text@))),
{
    let filter = to_lowercase(state.filter_text.as_str());
    let text_empty = crate::text::chars_of(filter.as_str()).len() == 0;
    let ghost pred = |p: ProcessListing| shown(p, state.runtime_filter, state.filter_text@);
    let mut r: Vec<ProcessListing> = Vec::new();
    let mut i: usize = 0;
    while i < state.all_processes.len()
        invariant
            i <= state.all_processes.len(),
            filter@ == lowercase(state.filter_text@),
            text_empty == (lowercase(state.filter_text@).len() == 0),
            pred == (|p: ProcessListing| shown(p, state.runtime_filter, state.filter_text@)),
            rows_of(r@) == rows_of(state.all_processes@.take(i as int).filter(pred)),
        decreases state.all_processes.len() - i,
    {
        let p = &state.all_processes[i];
        let keep = matches_runtime_filter(p, state.runtime_filter) && (text_empty || {
            let name = to_lowercase(p.name.as_str());
            contains(name.as_str(), filter.as_str())
        });
        let ghost before = state.all_processes@.take(i as int).filter(pred);
        proof {
            crate::seqs::lemma_filter_take_step(state.all_processes@, pred, i as int);
        }
        if keep {
            let d = p.duplicate();
            let ghost old_r = r@;
            r.push(d);
            assert(rows_of(r@) =~= rows_of(old_r).push(row_of(d)));
            assert(rows_of(before.push(*p)) =~= rows_of(before).push(row_of(*p)));
        }
        i = i + 1;
    }
    assert(state.all_processes@.take(state.all_processes@.len() as int) =~= state.all_processes@);
    r
}

/// How a table row is shaded: highlighted (the selected process, or a
/// stale record), or striped by its position.
#[derive(Debug, Clone, Copy, PartialEq, Eq, Structural)]
pub enum RowShade {
    Highlighted,
    Odd,
    Even,
}

/// What a row of the process table shows.
#[derive(Debug, Clone)]
pub struct ProcessRowView {
    pub shade: RowShade,
    pub pid_text: String,
    pub name: String,
    pub runtime: Option<RuntimeFilter>,
    pub modules_text: Option<String>,
    pub send_to_inject: bool,
}

/// The shade of a row: highlighted when marked, else by position.
pub open spec fn shade_of(marked: bool, odd: bool) -> RowShade {
    if marked {
        RowShade::Highlighted
    } else if odd {
        RowShade::Odd
    } else {
        RowShade::Even
    }
}

/// The row of a listed process: its PID in upper-case hex, its name, its
/// runtime family, its modules joined by commas when modules are shown, and
/// the send-to-inject action on the selected row.
pub fn process_row(p: &ProcessListing, odd: bool, selected: bool, show_modules: bool) -> (r: ProcessRowView)
    ensures
        r.shade == shade_of(selected, odd),
        r.pid_text@ == "0x"@ + upper_hex(p.pid as nat),
        r.name == p.name,
        r.runtime == runtime_type_spec(*p),
        match r.modules_text {
            Some(t) => show_modules && t@ == joined(p.matched_modules@.map_values(|s: String| s@), ", "@),
            None => !show_modules,
        },
        r.send_to_inject == selected,
{
    let shade = if selected {
        RowShade::Highlighted
    } else if odd {
        RowShade::Odd
    } else {
        RowShade::Even
    };
    let digits = u64_to_upper_hex(p.pid as u64);
    let modules_text = if show_modules {
        Some(join(&p.matched_modules, ", "))
    } else {
        None
    };
    ProcessRowView {
        shade,
        pid_text: concat2("0x", digits.as_str()),
        name: p.name.clone(),
        runtime: runtime_type(p),
        modules_text,
        send_to_inject: selected,
    }
}

} // verus!
