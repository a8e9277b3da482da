//! Process identity, process-listing filters, and target resolution.
use vstd::prelude::*;

use crate::error::Error;
use crate::seqs::{lemma_filter_insert, lemma_filter_none, lemma_filter_split, lemma_filter_take_step};
use crate::text::{contains_ci, contains_ci_spec, eq_ci, eq_ignore_ascii_case, parse_bounded};

verus! {

/// Identifies a process strongly enough to detect PID reuse.
#[derive(Debug, Clone, PartialEq, Eq)]
pub struct ProcessInfo {
    pub pid: u32,
    pub name: String,
    pub start_time: u64,
}

/// Process-listing row with optional matched module names.
#[derive(Debug, Clone, PartialEq, Eq)]
pub struct ProcessListing {
    pub pid: u32,
    pub name: String,
    pub matched_modules: Vec<String>,
}

/// Filters used when listing candidate processes.
#[derive(Debug, Clone, PartialEq, Eq)]
pub struct ListOptions {
    pub filter: Option<String>,
    pub module_filter: ModuleFilter,
    pub include_modules: bool,
}

/// Selects process runtime/module families for process listing.
#[derive(Debug, Clone, Copy, PartialEq, Eq, Structural)]
pub enum ModuleFilter {
    /// Include processes regardless of loaded Mono or Unity modules.
    Any,
    /// Include only processes with a Mono runtime module.
    Mono,
    /// Include only Unity processes or processes with Unity modules.
    Unity,
    /// Include only Unity processes that also have a Mono runtime module.
    MonoAndUnity,
}

impl Default for ModuleFilter {
    fn default() -> (r: Self)
        ensures
            r == ModuleFilter::Any,
    {
        ModuleFilter::Any
    }
}

impl Default for ListOptions {
    fn default() -> (r: Self)
        ensures
            r.filter is None,
            r.module_filter == ModuleFilter::Any,
            !r.include_modules,
    {
        ListOptions { filter: None, module_filter: ModuleFilter::Any, include_modules: false }
    }
}

/// The characters of each string.
pub open spec fn strs(v: Seq<String>) -> Seq<Seq<char>> {
    v.map_values(|s: String| s@)
}

impl ModuleFilter {
    /// The filter reads module lists.
    pub open spec fn needs_modules_spec(self) -> bool {
        !(self is Any)
    }

    /// The filter asks for a Mono runtime module.
    pub open spec fn needs_mono_spec(self) -> bool {
        self is Mono || self is MonoAndUnity
    }

    /// The filter asks for Unity.
    pub open spec fn needs_unity_spec(self) -> bool {
        self is Unity || self is MonoAndUnity
    }

    /// Whether the filter reads module lists.
    pub fn needs_modules(self) -> (r: bool)
        ensures
            r == self.needs_modules_spec(),
    {
        !matches!(self, ModuleFilter::Any)
    }

    /// Whether the filter asks for a Mono runtime module.
    pub fn needs_mono(self) -> (r: bool)
        ensures
            r == self.needs_mono_spec(),
    {
        matches!(self, ModuleFilter::Mono | ModuleFilter::MonoAndUnity)
    }

    /// Whether the filter asks for Unity.
    pub fn needs_unity(self) -> (r: bool)
        ensures
            r == self.needs_unity_spec(),
    {
        matches!(self, ModuleFilter::Unity | ModuleFilter::MonoAndUnity)
    }
}

impl ProcessInfo {
    /// A copy of the process identity.
    pub fn duplicate(&self) -> (r: ProcessInfo)
        ensures
            r == *self,
    {
        ProcessInfo { pid: self.pid, name: self.name.clone(), start_time: self.start_time }
    }
}

/// A copy of a list of strings.
pub fn duplicate_strings(v: &Vec<String>) -> (r: Vec<String>)
    ensures
        r@ == v@,
{
    let mut r: Vec<String> = Vec::new();
    let mut i: usize = 0;
    while i < v.len()
        invariant
            i <= v.len(),
            r@ == v@.take(i as int),
        decreases v.len() - i,
    {
        r.push(v[i].clone());
        assert(v@.take(i + 1) =~= v@.take(i as int).push(v@[i as int]));
        i = i + 1;
    }
    assert(v@.take(v.len() as int) =~= v@);
    r
}

/// Listing needs module names for these options.
pub open spec fn needs_modules_spec(options: ListOptions) -> bool {
    options.include_modules || options.filter is Some || options.module_filter.needs_modules_spec()
}

/// Whether listing with these options reads module names.
pub fn needs_modules(options: &ListOptions) -> (r: bool)
    ensures
        r == needs_modules_spec(*options),
{
    options.include_modules || options.filter.is_some() || options.module_filter.needs_modules()
}

/// A module name is reported for these options.
pub open spec fn module_selected_spec(module: Seq<char>, options: ListOptions) -> bool {
    ||| options.include_modules
    ||| (options.filter matches Some(f) && contains_ci_spec(module, f@))
    ||| (options.module_filter.needs_mono_spec() && contains_ci_spec(module, "mono"@))
    ||| (options.module_filter.needs_unity_spec() && contains_ci_spec(module, "unity"@))
}

/// Whether a module name is reported for these options.
pub fn module_selected(module: &str, options: &ListOptions) -> (r: bool)
    ensures
        r == module_selected_spec(module@, *options),
{
    if options.include_modules {
        return true;
    }
    let by_filter = match &options.filter {
        Some(f) => contains_ci(module, f.as_str()),
        None => false,
    };
    by_filter || (options.module_filter.needs_mono() && contains_ci(module, "mono")) || (
    options.module_filter.needs_unity() && contains_ci(module, "unity"))
}

/// The module names of a process that a listing reports.
pub open spec fn selected_modules_spec(modules: Seq<String>, options: ListOptions) -> Seq<String> {
    if !needs_modules_spec(options) {
        Seq::empty()
    } else {
        modules.filter(|m: String| module_selected_spec(m@, options))
    }
}

/// Keeps the module names that a listing reports.
pub fn selected_modules(modules: &Vec<String>, options: &ListOptions) -> (r: Vec<String>)
    ensures
        r@ == selected_modules_spec(modules@, *options),
{
    let mut r: Vec<String> = Vec::new();
    if !needs_modules(options) {
        return r;
    }
    let ghost pred = |m: String| module_selected_spec(m@, *options);
    let mut i: usize = 0;
    while i < modules.len()
        invariant
            i <= modules.len(),
            pred == (|m: String| module_selected_spec(m@, *options)),
            r@ == modules@.take(i as int).filter(pred),
        decreases modules.len() - i,
    {
        proof {
            lemma_filter_take_step(modules@, pred, i as int);
        }
        if module_selected(modules[i].as_str(), options) {
            r.push(modules[i].clone());
        }
        i = i + 1;
    }
    assert(modules@.take(modules.len() as int) =~= modules@);
    r
}

/// Some name in the list contains `needle`, up to ASCII case.
pub open spec fn any_contains_spec(names: Seq<String>, needle: Seq<char>) -> bool {
    exists|i: int| 0 <= i < names.len() && contains_ci_spec(#[trigger] names[i]@, needle)
}

/// Whether some name in the list contains `needle`, up to ASCII case.
pub fn any_contains(names: &Vec<String>, needle: &str) -> (r: bool)
    ensures
        r == any_contains_spec(names@, needle@),
{
    let mut i: usize = 0;
    while i < names.len()
        invariant
            i <= names.len(),
            forall|j: int| 0 <= j < i ==> !contains_ci_spec(#[trigger] names@[j]@, needle@),
        decreases names.len() - i,
    {
        if contains_ci(names[i].as_str(), needle) {
            return true;
        }
        i = i + 1;
    }
    false
}

/// Tests whether a list of loaded modules has one containing the fragment,
/// up to ASCII case.
pub fn module_matches(modules: &Vec<String>, filter: &str) -> (r: bool)
    ensures
        r == any_contains_spec(modules@, filter@),
{
    any_contains(modules, filter)
}

/// The text filter matches the process name or one of its reported modules.
pub open spec fn filter_match_spec(
    process: ProcessInfo,
    filter: Option<String>,
    modules: Seq<String>,
) -> bool {
    match filter {
        None => true,
        Some(f) => contains_ci_spec(process.name@, f@) || any_contains_spec(modules, f@),
    }
}

/// The process is a Unity process by its name or one of its reported modules.
pub open spec fn unity_match_spec(process: ProcessInfo, modules: Seq<String>) -> bool {
    contains_ci_spec(process.name@, "unity"@) || any_contains_spec(modules, "unity"@)
}

/// The process passes every filter of the options.
pub open spec fn process_matches_spec(
    process: ProcessInfo,
    options: ListOptions,
    modules: Seq<String>,
) -> bool {
    &&& filter_match_spec(process, options.filter, modules)
    &&& (!options.module_filter.needs_mono_spec() || any_contains_spec(modules, "mono"@))
    &&& (!options.module_filter.needs_unity_spec() || unity_match_spec(process, modules))
}

fn filter_match(process: &ProcessInfo, filter: &Option<String>, modules: &Vec<String>) -> (r: bool)
    ensures
        r == filter_match_spec(*process, *filter, modules@),
{
    match filter {
        None => true,
        Some(f) => contains_ci(process.name.as_str(), f.as_str()) || any_contains(
            modules,
            f.as_str(),
        ),
    }
}

fn mono_filter_match(filter: ModuleFilter, modules: &Vec<String>) -> (r: bool)
    ensures
        r == (!filter.needs_mono_spec() || any_contains_spec(modules@, "mono"@)),
{
    !filter.needs_mono() || any_contains(modules, "mono")
}

fn unity_match(process: &ProcessInfo, modules: &Vec<String>) -> (r: bool)
    ensures
        r == unity_match_spec(*process, modules@),
{
    contains_ci(process.name.as_str(), "unity") || any_contains(modules, "unity")
}

fn unity_filter_match(process: &ProcessInfo, filter: ModuleFilter, modules: &Vec<String>) -> (r:
    bool)
    ensures
        r == (!filter.needs_unity_spec() || unity_match_spec(*process, modules@)),
{
    !filter.needs_unity() || unity_match(process, modules)
}

/// Whether the process passes every filter of the options.
pub fn process_matches(process: &ProcessInfo, options: &ListOptions, modules: &Vec<String>) -> (r:
    bool)
    ensures
        r == process_matches_spec(*process, *options, modules@),
{
    filter_match(process, &options.filter, modules) && mono_filter_match(
        options.module_filter,
        modules,
    ) && unity_filter_match(process, options.module_filter, modules)
}

/// The listing row of a process with all its module names, if the options keep it.
pub open spec fn listed(process: ProcessInfo, modules: Seq<String>, options: ListOptions) -> bool {
    process_matches_spec(process, options, selected_modules_spec(modules, options))
}

/// Builds the listing row of a process from its loaded modules, if the
/// options keep the process.
pub fn listing(process: &ProcessInfo, modules: &Vec<String>, options: &ListOptions) -> (r: Option<
    ProcessListing,
>)
    ensures
        r is Some <==> listed(*process, modules@, *options),
        r matches Some(l) ==> l.pid == process.pid && l.name == process.name
            && l.matched_modules@ == selected_modules_spec(modules@, *options),
{
    let selected = selected_modules(modules, options);
    if process_matches(process, options, &selected) {
        Some(ProcessListing { pid: process.pid, name: process.name.clone(), matched_modules: selected })
    } else {
        None
    }
}

/// The first process with the given PID.
pub fn find_by_pid(processes: &Vec<ProcessInfo>, pid: u32) -> (r: Option<ProcessInfo>)
    ensures
        r matches Some(p) ==> exists|i: int|
            0 <= i < processes@.len() && processes@[i] == p && p.pid == pid && forall|j: int|
                0 <= j < i ==> (#[trigger] processes@[j]).pid != pid,
        r is None ==> forall|j: int| 0 <= j < processes@.len() ==> (#[trigger] processes@[j]).pid != pid,
{
    let mut i: usize = 0;
    while i < processes.len()
        invariant
            i <= processes.len(),
            forall|j: int| 0 <= j < i ==> (#[trigger] processes@[j]).pid != pid,
        decreases processes.len() - i,
    {
        if processes[i].pid == pid {
            return Some(processes[i].duplicate());
        }
        i = i + 1;
    }
    None
}

/// The first process whose name equals `name`, up to ASCII case.
pub fn find_by_name(processes: &Vec<ProcessInfo>, name: &str) -> (r: Option<ProcessInfo>)
    ensures
        r matches Some(p) ==> exists|i: int|
            0 <= i < processes@.len() && processes@[i] == p && eq_ci(p.name@, name@) && forall|
                j: int,
            | 0 <= j < i ==> !eq_ci((#[trigger] processes@[j]).name@, name@),
        r is None ==> forall|j: int|
            0 <= j < processes@.len() ==> !eq_ci((#[trigger] processes@[j]).name@, name@),
{
    let mut i: usize = 0;
    while i < processes.len()
        invariant
            i <= processes.len(),
            forall|j: int| 0 <= j < i ==> !eq_ci((#[trigger] processes@[j]).name@, name@),
        decreases processes.len() - i,
    {
        if eq_ignore_ascii_case(processes[i].name.as_str(), name) {
            return Some(processes[i].duplicate());
        }
        i = i + 1;
    }
    None
}

/// How a target string selects a process: a string that reads as a `u32`
/// selects by PID, any other string by name.
pub open spec fn target_pid(target: Seq<char>) -> Option<nat> {
    parse_bounded(target, 10, u32::MAX as nat)
}

/// The process a target selects: the first process with that PID or, when
/// the target is not a PID, the first whose name equals it up to ASCII case.
pub open spec fn resolves_to(processes: Seq<ProcessInfo>, target: Seq<char>, i: int) -> bool {
    &&& 0 <= i < processes.len()
    &&& match target_pid(target) {
        Some(pid) => processes[i].pid == pid && forall|j: int|
            0 <= j < i ==> (#[trigger] processes[j]).pid != pid,
        None => eq_ci(processes[i].name@, target) && forall|j: int|
            0 <= j < i ==> !eq_ci((#[trigger] processes[j]).name@, target),
    }
}

/// Some process is selected by the target.
pub open spec fn target_running(processes: Seq<ProcessInfo>, target: Seq<char>) -> bool {
    match target_pid(target) {
        Some(pid) => exists|j: int| 0 <= j < processes.len() && (#[trigger] processes[j]).pid == pid,
        None => exists|j: int|
            0 <= j < processes.len() && eq_ci((#[trigger] processes[j]).name@, target),
    }
}

/// The index of the process a target selects (meaningful when one is running).
pub open spec fn resolved_index(processes: Seq<ProcessInfo>, target: Seq<char>) -> int {
    choose|i: int| resolves_to(processes, target, i)
}

/// At most one index is selected by a target.
pub proof fn lemma_resolves_to_unique(processes: Seq<ProcessInfo>, target: Seq<char>, i: int, j: int)
    requires
        resolves_to(processes, target, i),
        resolves_to(processes, target, j),
    ensures
        i == j,
{
    if i < j {
        // Index `i` comes before `j`, so `j` is not the first match.
        let _earlier = processes[i];
    } else if j < i {
        let _earlier = processes[j];
    }
}

/// Resolves a PID string or an exact process name (up to ASCII case)
/// against a snapshot of running processes.
pub fn resolve_process(processes: &Vec<ProcessInfo>, target: &str) -> (r: Result<ProcessInfo, Error>)
    ensures
        r is Ok <==> target_running(processes@, target@),
        r matches Ok(p) ==> resolves_to(processes@, target@, resolved_index(processes@, target@))
            && p == processes@[resolved_index(processes@, target@)],
        r matches Err(e) ==> e matches Error::ProcessNotFound(t) && t@ == target@,
{
    let chars = crate::text::chars_of(target);
    let found = match crate::text::parse_radix(chars.as_slice(), 10, u32::MAX as u64) {
        Some(pid) => find_by_pid(processes, pid as u32),
        None => find_by_name(processes, target),
    };
    match found {
        Some(p) => {
            proof {
                let i = choose|i: int|
                    0 <= i < processes@.len() && processes@[i] == p && (match target_pid(target@) {
                        Some(pid) => p.pid == pid && forall|j: int|
                            0 <= j < i ==> (#[trigger] processes@[j]).pid != pid,
                        None => eq_ci(p.name@, target@) && forall|j: int|
                            0 <= j < i ==> !eq_ci((#[trigger] processes@[j]).name@, target@),
                    });
                assert(resolves_to(processes@, target@, i));
                let c = resolved_index(processes@, target@);
                lemma_resolves_to_unique(processes@, target@, i, c);
            }
            Ok(p)
        },
        None => Err(Error::ProcessNotFound(crate::text::owned(target))),
    }
}


/// What a listing row shows: PID, name, and reported module names.
pub type Row = (u32, Seq<char>, Seq<Seq<char>>);

/// The row shown for a listing.
pub open spec fn row_of(l: ProcessListing) -> Row {
    (l.pid, l.name@, strs(l.matched_modules@))
}

/// The rows shown for listings.
pub open spec fn rows_of(s: Seq<ProcessListing>) -> Seq<Row> {
    s.map_values(|l: ProcessListing| row_of(l))
}

/// The row expected for a process and its loaded modules.
pub open spec fn expected_row(entry: (ProcessInfo, Vec<String>), options: ListOptions) -> Row {
    (entry.0.pid, entry.0.name@, strs(selected_modules_spec(entry.1@, options)))
}

/// The process entries that the options keep.
pub open spec fn kept_pred(options: ListOptions) -> spec_fn((ProcessInfo, Vec<String>)) -> bool {
    |e: (ProcessInfo, Vec<String>)| listed(e.0, e.1@, options)
}

/// Rows of the kept processes, in snapshot order.
pub open spec fn kept_rows(entries: Seq<(ProcessInfo, Vec<String>)>, options: ListOptions) -> Seq<
    Row,
> {
    entries.filter(kept_pred(options)).map_values(|e: (ProcessInfo, Vec<String>)| expected_row(e, options))
}

/// Rows are in ascending PID order.
pub open spec fn pid_sorted(rows: Seq<Row>) -> bool {
    forall|i: int, j: int| 0 <= i < j < rows.len() ==> (#[trigger] rows[i]).0 <= (#[trigger] rows[j]).0
}

/// The rows with a given PID, in order.
pub open spec fn rows_with_pid(rows: Seq<Row>, pid: u32) -> Seq<Row> {
    rows.filter(|r: Row| r.0 == pid)
}

/// `sorted` is `rows` sorted by PID, rows with equal PIDs keeping their order.
pub open spec fn stable_pid_sort_of(sorted: Seq<Row>, rows: Seq<Row>) -> bool {
    &&& pid_sorted(sorted)
    &&& forall|pid: u32| #[trigger] rows_with_pid(sorted, pid) == rows_with_pid(rows, pid)
}

impl ProcessListing {
    /// A copy of the listing row.
    pub fn duplicate(&self) -> (r: ProcessListing)
        ensures
            row_of(r) == row_of(*self),
    {
        ProcessListing {
            pid: self.pid,
            name: self.name.clone(),
            matched_modules: duplicate_strings(&self.matched_modules),
        }
    }
}

/// Lists the processes of a snapshot that the options keep, sorted by PID
/// (stable). Each entry pairs a process with its loaded module names; the
/// module names are only read when [`needs_modules`] holds for the options.
pub fn list_processes(entries: &Vec<(ProcessInfo, Vec<String>)>, options: &ListOptions) -> (r: Vec<
    ProcessListing,
>)
    ensures
        stable_pid_sort_of(rows_of(r@), kept_rows(entries@, *options)),
{
    let ghost pred = kept_pred(*options);
    let ghost f = |e: (ProcessInfo, Vec<String>)| expected_row(e, *options);
    let mut kept: Vec<ProcessListing> = Vec::new();
    let mut i: usize = 0;
    while i < entries.len()
        invariant
            i <= entries.len(),
            pred == kept_pred(*options),
            f == (|e: (ProcessInfo, Vec<String>)| expected_row(e, *options)),
            rows_of(kept@) == entries@.take(i as int).filter(
                pred,
            ).map_values(f),
        decreases entries.len() - i,
    {
        proof {
            lemma_filter_take_step(entries@, pred, i as int);
        }
        let ghost before = kept@;
        match listing(&entries[i].0, &entries[i].1, options) {
            Some(l) => {
                kept.push(l);
                assert(rows_of(kept@) =~= rows_of(before).push(f(entries@[i as int])));
                assert(entries@.take(i as int).filter(pred).push(entries@[i as int]).map_values(f)
                    =~= entries@.take(i as int).filter(pred).map_values(f).push(
                    f(entries@[i as int]),
                ));
            },
            None => {},
        }
        i = i + 1;
    }
    assert(entries@.take(entries.len() as int) =~= entries@);
    sort_by_pid(kept)
}

/// Sorts listing rows by PID; rows with equal PIDs keep their order.
pub fn sort_by_pid(kept: Vec<ProcessListing>) -> (out: Vec<ProcessListing>)
    ensures
        stable_pid_sort_of(rows_of(out@), rows_of(kept@)),
{
    let ghost input = rows_of(kept@);
    let mut out: Vec<ProcessListing> = Vec::new();
    let mut k: usize = 0;
    while k < kept.len()
        invariant
            k <= kept.len(),
            input == rows_of(kept@),
            pid_sorted(rows_of(out@)),
            forall|pid: u32| #[trigger]
                rows_with_pid(rows_of(out@), pid)
                    == rows_with_pid(input.take(k as int), pid),
        decreases kept.len() - k,
    {
        let x = kept[k].duplicate();
        let ghost rows = rows_of(out@);
        let mut p: usize = 0;
        while p < out.len() && out[p].pid <= x.pid
            invariant
                p <= out.len(),
                rows == rows_of(out@),
                pid_sorted(rows),
                forall|j: int| 0 <= j < p ==> (#[trigger] rows[j]).0 <= x.pid,
            decreases out.len() - p,
        {
            p = p + 1;
        }
        assert(forall|j: int| p <= j < rows.len() ==> (#[trigger] rows[j]).0 > x.pid) by {
            assert forall|j: int| p <= j < rows.len() implies (#[trigger] rows[j]).0 > x.pid by {
                assert(rows[p as int].0 > x.pid);
                if j > p {
                    assert(rows[p as int].0 <= rows[j].0);
                }
            }
        }
        let ghost xr = row_of(x);
        assert(xr == input[k as int]);
        out.insert(p, x);
        let ghost rows2 = rows_of(out@);
        assert(rows2 =~= rows.insert(p as int, xr));
        proof {
            assert forall|a: int, b: int| 0 <= a < b < rows2.len() implies (#[trigger] rows2[a]).0
                <= (#[trigger] rows2[b]).0 by {
                if b < p {
                } else if b == p {
                } else if a < p {
                    assert(rows[a].0 <= xr.0);
                    assert(rows[b - 1].0 > xr.0);
                } else if a == p {
                    assert(rows[b - 1].0 > xr.0);
                } else {
                    assert(rows[a - 1].0 <= rows[b - 1].0);
                }
            }
            assert forall|pid: u32| #[trigger] rows_with_pid(rows2, pid) == rows_with_pid(
                input.take(k + 1),
                pid,
            ) by {
                let pp = |r: Row| r.0 == pid;
                lemma_filter_insert(rows, pp, p as int, xr);
                lemma_filter_split(rows, pp, p as int);
                lemma_filter_take_step(input, pp, k as int);
                assert(rows_with_pid(rows, pid) == rows_with_pid(input.take(k as int), pid));
                if xr.0 == pid {
                    assert forall|j: int| 0 <= j < rows.skip(p as int).len() implies !pp(
                        #[trigger] rows.skip(p as int)[j],
                    ) by {
                        assert(rows.skip(p as int)[j] == rows[p + j]);
                    }
                    lemma_filter_none(rows.skip(p as int), pp);
                    assert(rows.take(p as int).filter(pp) + seq![xr] =~= rows.take(p as int).filter(
                        pp,
                    ).push(xr));
                    assert(rows.take(p as int).filter(pp) + Seq::<Row>::empty() =~= rows.take(
                        p as int,
                    ).filter(pp));
                } else {
                    assert(rows.take(p as int).filter(pp) + Seq::<Row>::empty() =~= rows.take(
                        p as int,
                    ).filter(pp));
                }
            }
        }
        k = k + 1;
    }
    assert(input.take(kept.len() as int) =~= input);
    out
}

} // verus!
