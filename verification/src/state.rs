//! Remembered injections: records of assemblies loaded into specific process
//! instances, kept so that later ejections can be checked against them.
use vstd::prelude::*;

use crate::error::Error;
use crate::handle::{handle_text, parse_handle, parse_handle_spec, AssemblyHandle};
use crate::process::ProcessInfo;
use crate::seqs::lemma_filter_take_step;
use crate::text::{
    concat2, decimal, lines, lines_spec, owned, parse_bounded, parse_radix, split_chars, split_spec,
    str_eq, string_of, u64_to_decimal, views_of,
};

verus! {

/// Version written into the state document.
pub const STATE_VERSION: u32 = 2;

/// Remembered assembly loaded into a specific process instance.
#[derive(Debug, Clone, PartialEq, Eq)]
pub struct InjectionRecord {
    pub process_name: String,
    pub pid: u32,
    pub start_time: u64,
    pub handle: String,
    pub assembly_path: Option<String>,
    pub namespace: String,
    pub class_name: String,
    pub inject_method: String,
    pub eject_method: String,
    pub profile: Option<String>,
    pub injected_at: u64,
}

/// Data recorded after a successful injection.
#[derive(Debug, Clone, PartialEq, Eq)]
pub struct InjectionInput {
    pub process: ProcessInfo,
    pub handle: AssemblyHandle,
    pub assembly_path: Option<String>,
    pub namespace: String,
    pub class_name: String,
    pub inject_method: String,
    pub eject_method: String,
    pub profile: Option<String>,
}

/// The document of remembered injections.
#[derive(Debug, Clone)]
pub struct StateFile {
    pub version: u32,
    pub injections: Vec<InjectionRecord>,
}

/// Selects which remembered injection records should be removed.
#[derive(Debug, Clone, Copy, PartialEq, Eq, Structural)]
pub enum CleanMode {
    /// Remove only records whose process instance is no longer running.
    Stale,
    /// Remove every record, including records for live processes.
    All,
}

/// A copy of an optional string.
pub fn clone_opt(o: &Option<String>) -> (r: Option<String>)
    ensures
        r == *o,
{
    match o {
        Some(s) => Some(s.clone()),
        None => None,
    }
}

/// The characters of an optional string slice.
pub open spec fn opt_view(o: Option<&str>) -> Option<Seq<char>> {
    match o {
        Some(s) => Some(s@),
        None => None,
    }
}

/// Display name of an entry point: `Namespace.Class::Method`, or
/// `Class::Method` without a namespace.
pub open spec fn entry_name_spec(namespace: Seq<char>, class_name: Seq<char>, method: Seq<char>) -> Seq<
    char,
> {
    if namespace.len() == 0 {
        class_name + "::"@ + method
    } else {
        namespace + "."@ + class_name + "::"@ + method
    }
}

/// Formats an entry point as `Namespace.Class::Method` or `Class::Method`.
pub fn entry_name(namespace: &str, class_name: &str, method_name: &str) -> (r: String)
    ensures
        r@ == entry_name_spec(namespace@, class_name@, method_name@),
{
    let tail = concat2("::", method_name);
    if namespace.is_empty() {
        let r = concat2(class_name, tail.as_str());
        assert(r@ =~= class_name@ + "::"@ + method_name@);
        r
    } else {
        let a = concat2(namespace, ".");
        let b = concat2(a.as_str(), class_name);
        let r = concat2(b.as_str(), tail.as_str());
        assert(r@ =~= namespace@ + "."@ + class_name@ + "::"@ + method_name@);
        r
    }
}

/// The address a record's handle text names, when it is a non-zero hex integer.
pub open spec fn handle_value_spec(record: InjectionRecord) -> Option<nat> {
    match parse_handle_spec(record.handle@) {
        Some(v) => if v != 0 { Some(v) } else { None },
        None => None,
    }
}

/// The record belongs to this process instance (same PID and start time).
pub open spec fn matches_process_spec(record: InjectionRecord, process: ProcessInfo) -> bool {
    record.pid == process.pid && record.start_time == process.start_time
}

/// The record has the namespace and class asked for; `None` asks for any.
pub open spec fn matches_entry_spec(
    record: InjectionRecord,
    namespace: Option<Seq<char>>,
    class_name: Option<Seq<char>>,
) -> bool {
    &&& (namespace matches Some(n) ==> record.namespace@ == n)
    &&& (class_name matches Some(c) ==> record.class_name@ == c)
}

/// The filter used to find remembered records for a process and entry.
pub open spec fn matching_pred(
    process: ProcessInfo,
    namespace: Option<Seq<char>>,
    class_name: Option<Seq<char>>,
) -> spec_fn(InjectionRecord) -> bool {
    |r: InjectionRecord|
        matches_process_spec(r, process) && matches_entry_spec(r, namespace, class_name)
}

/// Two records describe the same injection.
pub open spec fn same_injection_spec(left: InjectionRecord, right: InjectionRecord) -> bool {
    &&& left.pid == right.pid
    &&& left.start_time == right.start_time
    &&& left.handle@ == right.handle@
    &&& left.namespace@ == right.namespace@
    &&& left.class_name@ == right.class_name@
}

/// The record is for this process instance and names this handle.
pub open spec fn record_matches_handle_spec(
    record: InjectionRecord,
    process: ProcessInfo,
    handle: AssemblyHandle,
) -> bool {
    matches_process_spec(record, process) && handle_value_spec(record) == Some(
        handle.value() as nat,
    )
}

/// The record's process instance is among the live processes.
pub open spec fn is_live_spec(record: InjectionRecord, live: Seq<ProcessInfo>) -> bool {
    exists|i: int|
        0 <= i < live.len() && (#[trigger] live[i]).pid == record.pid && live[i].start_time
            == record.start_time
}

/// The record is built from the input, injected at the given time.
pub open spec fn record_from_input_spec(
    record: InjectionRecord,
    input: InjectionInput,
    injected_at: u64,
) -> bool {
    &&& record.process_name == input.process.name
    &&& record.pid == input.process.pid
    &&& record.start_time == input.process.start_time
    &&& record.handle@ == handle_text(input.handle.value())
    &&& record.assembly_path == input.assembly_path
    &&& record.namespace == input.namespace
    &&& record.class_name == input.class_name
    &&& record.inject_method == input.inject_method
    &&& record.eject_method == input.eject_method
    &&& record.profile == input.profile
    &&& record.injected_at == injected_at
}

/// Some record matching the process and entry names this handle.
pub open spec fn is_recorded_spec(
    records: Seq<InjectionRecord>,
    process: ProcessInfo,
    handle: AssemblyHandle,
    namespace: Seq<char>,
    class_name: Seq<char>,
) -> bool {
    exists|i: int|
        0 <= i < records.len() && matches_process_spec(#[trigger] records[i], process)
            && matches_entry_spec(records[i], Some(namespace), Some(class_name))
            && handle_value_spec(records[i]) == Some(handle.value() as nat)
}

impl InjectionRecord {
    /// A copy of the record.
    pub fn duplicate(&self) -> (r: InjectionRecord)
        ensures
            r == *self,
    {
        InjectionRecord {
            process_name: self.process_name.clone(),
            pid: self.pid,
            start_time: self.start_time,
            handle: self.handle.clone(),
            assembly_path: clone_opt(&self.assembly_path),
            namespace: self.namespace.clone(),
            class_name: self.class_name.clone(),
            inject_method: self.inject_method.clone(),
            eject_method: self.eject_method.clone(),
            profile: clone_opt(&self.profile),
            injected_at: self.injected_at,
        }
    }

    /// Parses the remembered handle text back into a handle.
    pub fn handle_value(&self) -> (r: Option<AssemblyHandle>)
        ensures
            r matches Some(h) ==> handle_value_spec(*self) == Some(h.value() as nat),
            r is None ==> handle_value_spec(*self) is None,
    {
        match parse_handle(self.handle.as_str()) {
            Some(v) => AssemblyHandle::from_raw(v),
            None => None,
        }
    }

    /// Returns the cleanup entry point displayed by frontends.
    pub fn entry(&self) -> (r: String)
        ensures
            r@ == entry_name_spec(self.namespace@, self.class_name@, self.eject_method@),
    {
        entry_name(self.namespace.as_str(), self.class_name.as_str(), self.eject_method.as_str())
    }

    /// Builds the record for a successful injection at the given time.
    pub fn from_input(input: InjectionInput, injected_at: u64) -> (r: InjectionRecord)
        ensures
            record_from_input_spec(r, input, injected_at),
    {
        let handle = input.handle.to_text();
        InjectionRecord {
            process_name: input.process.name,
            pid: input.process.pid,
            start_time: input.process.start_time,
            handle,
            assembly_path: input.assembly_path,
            namespace: input.namespace,
            class_name: input.class_name,
            inject_method: input.inject_method,
            eject_method: input.eject_method,
            profile: input.profile,
            injected_at,
        }
    }

    /// Whether the record belongs to this process instance.
    pub fn matches_process(&self, process: &ProcessInfo) -> (r: bool)
        ensures
            r == matches_process_spec(*self, *process),
    {
        self.pid == process.pid && self.start_time == process.start_time
    }

    /// Whether the record has the namespace and class asked for.
    pub fn matches_entry(&self, namespace: Option<&str>, class_name: Option<&str>) -> (r: bool)
        ensures
            r == matches_entry_spec(*self, opt_view(namespace), opt_view(class_name)),
    {
        let ns_ok = match namespace {
            Some(n) => str_eq(self.namespace.as_str(), n),
            None => true,
        };
        let class_ok = match class_name {
            Some(c) => str_eq(self.class_name.as_str(), c),
            None => true,
        };
        ns_ok && class_ok
    }
}

/// Whether two records describe the same injection.
pub fn same_injection(left: &InjectionRecord, right: &InjectionRecord) -> (r: bool)
    ensures
        r == same_injection_spec(*left, *right),
{
    left.pid == right.pid && left.start_time == right.start_time && str_eq(
        left.handle.as_str(),
        right.handle.as_str(),
    ) && str_eq(left.namespace.as_str(), right.namespace.as_str()) && str_eq(
        left.class_name.as_str(),
        right.class_name.as_str(),
    )
}

/// Whether the record is for this process instance and names this handle.
pub fn record_matches_handle(
    record: &InjectionRecord,
    process: &ProcessInfo,
    handle: AssemblyHandle,
) -> (r: bool)
    ensures
        r == record_matches_handle_spec(*record, *process, handle),
{
    if !record.matches_process(process) {
        return false;
    }
    match record.handle_value() {
        Some(h) => {
            proof {
                h.lemma_value_injective(handle);
            }
            h == handle
        },
        None => false,
    }
}

/// Whether the record's process instance is among the live processes.
pub fn is_live(record: &InjectionRecord, live: &Vec<ProcessInfo>) -> (r: bool)
    ensures
        r == is_live_spec(*record, live@),
{
    let mut i: usize = 0;
    while i < live.len()
        invariant
            i <= live.len(),
            forall|j: int|
                0 <= j < i ==> !((#[trigger] live@[j]).pid == record.pid && live@[j].start_time
                    == record.start_time),
        decreases live.len() - i,
    {
        if live[i].pid == record.pid && live[i].start_time == record.start_time {
            return true;
        }
        i = i + 1;
    }
    false
}

/// Finds remembered records for a process instance and optional
/// namespace/class filters, in remembered order.
pub fn matching(
    records: &Vec<InjectionRecord>,
    process: &ProcessInfo,
    namespace: Option<&str>,
    class_name: Option<&str>,
) -> (r: Vec<InjectionRecord>)
    ensures
        r@ == records@.filter(matching_pred(*process, opt_view(namespace), opt_view(class_name))),
{
    let ghost pred = matching_pred(*process, opt_view(namespace), opt_view(class_name));
    let mut r: Vec<InjectionRecord> = Vec::new();
    let mut i: usize = 0;
    while i < records.len()
        invariant
            i <= records.len(),
            pred == matching_pred(*process, opt_view(namespace), opt_view(class_name)),
            r@ == records@.take(i as int).filter(pred),
        decreases records.len() - i,
    {
        proof {
            lemma_filter_take_step(records@, pred, i as int);
        }
        if records[i].matches_process(process) && records[i].matches_entry(namespace, class_name) {
            r.push(records[i].duplicate());
        }
        i = i + 1;
    }
    assert(records@.take(records.len() as int) =~= records@);
    r
}

/// Returns every remembered injection record.
pub fn all(state: StateFile) -> (r: Vec<InjectionRecord>)
    ensures
        r == state.injections,
{
    state.injections
}

/// An empty state document.
pub fn default_state() -> (r: StateFile)
    ensures
        r.version == STATE_VERSION,
        r.injections@.len() == 0,
{
    StateFile { version: STATE_VERSION, injections: Vec::new() }
}

/// Keeps the records that describe another injection than `record`.
fn without_injection(records: Vec<InjectionRecord>, record: &InjectionRecord) -> (r: Vec<InjectionRecord>)
    ensures
        r@ == records@.filter(|x: InjectionRecord| !same_injection_spec(x, *record)),
{
    let ghost keep = |x: InjectionRecord| !same_injection_spec(x, *record);
    let mut r: Vec<InjectionRecord> = Vec::new();
    let mut i: usize = 0;
    while i < records.len()
        invariant
            i <= records.len(),
            keep == |x: InjectionRecord| !same_injection_spec(x, *record),
            r@ == records@.take(i as int).filter(keep),
        decreases records.len() - i,
    {
        proof {
            lemma_filter_take_step(records@, keep, i as int);
        }
        if !same_injection(&records[i], record) {
            r.push(records[i].duplicate());
        }
        i = i + 1;
    }
    assert(records@.take(records.len() as int) =~= records@);
    r
}

/// Keeps the records that do not name `handle` for the process instance.
fn without_handle(records: Vec<InjectionRecord>, process: &ProcessInfo, handle: AssemblyHandle) -> (r: Vec<InjectionRecord>)
    ensures
        r@ == records@.filter(|x: InjectionRecord| !record_matches_handle_spec(x, *process, handle)),
{
    let ghost keep = |x: InjectionRecord| !record_matches_handle_spec(x, *process, handle);
    let mut r: Vec<InjectionRecord> = Vec::new();
    let mut i: usize = 0;
    while i < records.len()
        invariant
            i <= records.len(),
            keep == |x: InjectionRecord| !record_matches_handle_spec(x, *process, handle),
            r@ == records@.take(i as int).filter(keep),
        decreases records.len() - i,
    {
        proof {
            lemma_filter_take_step(records@, keep, i as int);
        }
        if !record_matches_handle(&records[i], process, handle) {
            r.push(records[i].duplicate());
        }
        i = i + 1;
    }
    assert(records@.take(records.len() as int) =~= records@);
    r
}

/// Keeps the records whose process instance is live.
fn live_records(records: Vec<InjectionRecord>, live: &Vec<ProcessInfo>) -> (r: Vec<InjectionRecord>)
    ensures
        r@ == records@.filter(|x: InjectionRecord| is_live_spec(x, live@)),
{
    let ghost keep = |x: InjectionRecord| is_live_spec(x, live@);
    let mut r: Vec<InjectionRecord> = Vec::new();
    let mut i: usize = 0;
    while i < records.len()
        invariant
            i <= records.len(),
            keep == |x: InjectionRecord| is_live_spec(x, live@),
            r@ == records@.take(i as int).filter(keep),
        decreases records.len() - i,
    {
        proof {
            lemma_filter_take_step(records@, keep, i as int);
        }
        if is_live(&records[i], live) {
            r.push(records[i].duplicate());
        }
        i = i + 1;
    }
    assert(records@.take(records.len() as int) =~= records@);
    r
}

/// The records after remembering `record`: every record describing the same
/// injection is replaced by the new one, which goes last.
pub open spec fn remembered_spec(
    records: Seq<InjectionRecord>,
    record: InjectionRecord,
) -> Seq<InjectionRecord> {
    records.filter(|x: InjectionRecord| !same_injection_spec(x, record)).push(record)
}

/// Stores or replaces a remembered injection record, stamped with the given time.
pub fn remember_at(records: Vec<InjectionRecord>, input: InjectionInput, injected_at: u64) -> (r: Vec<
    InjectionRecord,
>)
    ensures
        r@.len() > 0,
        record_from_input_spec(r@.last(), input, injected_at),
        r@ == remembered_spec(records@, r@.last()),
{
    let record = InjectionRecord::from_input(input, injected_at);
    let mut r = without_injection(records, &record);
    r.push(record);
    r
}

/// Stores or replaces a remembered injection record, stamped with the current time.
pub fn remember(records: Vec<InjectionRecord>, input: InjectionInput) -> (r: Vec<InjectionRecord>)
    ensures
        r@.len() > 0,
        exists|t: u64| record_from_input_spec(r@.last(), input, t),
        r@ == remembered_spec(records@, r@.last()),
{
    let now = crate::clock::now_secs();
    remember_at(records, input, now)
}

/// Removes every record of this process instance naming this handle.
pub fn forget(records: Vec<InjectionRecord>, process: &ProcessInfo, handle: AssemblyHandle) -> (r:
    Vec<InjectionRecord>)
    ensures
        r@ == records@.filter(
            |x: InjectionRecord| !record_matches_handle_spec(x, *process, handle),
        ),
{
    without_handle(records, process, handle)
}

/// Removes records using a caller-provided snapshot of live processes:
/// `Stale` keeps the records of live process instances, `All` keeps none.
/// Returns the kept records and how many were removed.
pub fn clean(records: Vec<InjectionRecord>, live: &Vec<ProcessInfo>, mode: CleanMode) -> (r: (
    Vec<InjectionRecord>,
    usize,
))
    ensures
        mode == CleanMode::All ==> r.0@.len() == 0,
        mode == CleanMode::Stale ==> r.0@ == records@.filter(
            |x: InjectionRecord| is_live_spec(x, live@),
        ),
        r.1 == records@.len() - r.0@.len(),
{
    let before = records.len();
    let kept = match mode {
        CleanMode::All => Vec::new(),
        CleanMode::Stale => live_records(records, live),
    };
    proof {
        broadcast use vstd::seq_lib::group_filter_ensures;
    }
    let removed = before - kept.len();
    (kept, removed)
}

/// Whether a handle is remembered for the process instance and entry.
pub fn is_recorded(
    records: &Vec<InjectionRecord>,
    process: &ProcessInfo,
    handle: AssemblyHandle,
    namespace: &str,
    class_name: &str,
) -> (r: bool)
    ensures
        r == is_recorded_spec(records@, *process, handle, namespace@, class_name@),
{
    let mut i: usize = 0;
    while i < records.len()
        invariant
            i <= records.len(),
            forall|j: int|
                0 <= j < i ==> !(matches_process_spec(#[trigger] records@[j], *process)
                    && matches_entry_spec(records@[j], Some(namespace@), Some(class_name@))
                    && handle_value_spec(records@[j]) == Some(handle.value() as nat)),
        decreases records.len() - i,
    {
        if records[i].matches_process(process) && records[i].matches_entry(
            Some(namespace),
            Some(class_name),
        ) {
            match records[i].handle_value() {
                Some(h) => {
                    proof {
                        h.lemma_value_injective(handle);
                    }
                    if h == handle {
                        return true;
                    }
                },
                None => {},
            }
        }
        i = i + 1;
    }
    false
}

/// The refusal for a handle that is not remembered for the process instance.
pub fn unrecorded_error(process: &ProcessInfo, handle: AssemblyHandle) -> (r: Error)
    ensures
        r matches Error::UnrecordedAssemblyHandle { handle: h, process: p, pid } && h@
            == handle_text(handle.value()) && p == process.name && pid == process.pid,
{
    Error::UnrecordedAssemblyHandle {
        handle: handle.to_text(),
        process: process.name.clone(),
        pid: process.pid,
    }
}

/// Verifies that a handle is remembered for the same process instance,
/// namespace and class.
pub fn ensure_recorded(
    records: &Vec<InjectionRecord>,
    process: &ProcessInfo,
    handle: AssemblyHandle,
    namespace: &str,
    class_name: &str,
) -> (r: Result<(), Error>)
    ensures
        r is Ok <==> is_recorded_spec(records@, *process, handle, namespace@, class_name@),
        r matches Err(e) ==> e matches Error::UnrecordedAssemblyHandle { handle: h, process: p, pid }
            && h@ == handle_text(handle.value()) && p == process.name && pid == process.pid,
{
    if is_recorded(records, process, handle, namespace, class_name) {
        Ok(())
    } else {
        Err(unrecorded_error(process, handle))
    }
}


/// The fields of a line of the tab-separated legacy state: PID, start time,
/// handle, namespace and class, in that order; further fields are ignored.
pub open spec fn legacy_fields(line: Seq<char>) -> Option<(u32, u64, Seq<char>, Seq<char>, Seq<char>)> {
    let parts = split_spec(line, '\t');
    if parts.len() < 5 {
        None
    } else {
        match (parse_bounded(parts[0], 10, u32::MAX as nat), parse_bounded(parts[1], 10, u64::MAX as nat)) {
            (Some(pid), Some(start)) => Some((pid as u32, start as u64, parts[2], parts[3], parts[4])),
            _ => None,
        }
    }
}

/// The record read from legacy fields: named `pid:<PID>`, entry points
/// `Init`/`Unload`, no assembly path, profile or injection time.
pub open spec fn legacy_record_spec(
    record: InjectionRecord,
    fields: (u32, u64, Seq<char>, Seq<char>, Seq<char>),
) -> bool {
    &&& record.process_name@ == "pid:"@ + decimal(fields.0 as nat)
    &&& record.pid == fields.0
    &&& record.start_time == fields.1
    &&& record.handle@ == fields.2
    &&& record.assembly_path is None
    &&& record.namespace@ == fields.3
    &&& record.class_name@ == fields.4
    &&& record.inject_method@ == "Init"@
    &&& record.eject_method@ == "Unload"@
    &&& record.profile is None
    &&& record.injected_at == 0
}

/// Builds the record that a legacy state line describes.
pub fn legacy_record(
    pid: u32,
    start_time: u64,
    handle: String,
    namespace: String,
    class_name: String,
) -> (r: InjectionRecord)
    ensures
        legacy_record_spec(r, (pid, start_time, handle@, namespace@, class_name@)),
{
    let digits = u64_to_decimal(pid as u64);
    InjectionRecord {
        process_name: concat2("pid:", digits.as_str()),
        pid,
        start_time,
        handle,
        assembly_path: None,
        namespace,
        class_name,
        inject_method: owned("Init"),
        eject_method: owned("Unload"),
        profile: None,
        injected_at: 0,
    }
}

/// Reads one line of the tab-separated legacy state.
pub fn parse_legacy_record(line: &[char]) -> (r: Option<InjectionRecord>)
    ensures
        r is Some <==> legacy_fields(line@) is Some,
        r matches Some(rec) ==> legacy_record_spec(rec, legacy_fields(line@).unwrap()),
{
    let parts = split_chars(line, '\t');
    if parts.len() < 5 {
        return None;
    }
    assert(parts@[0]@ == split_spec(line@, '\t')[0]);
    assert(parts@[1]@ == split_spec(line@, '\t')[1]);
    assert(parts@[2]@ == split_spec(line@, '\t')[2]);
    assert(parts@[3]@ == split_spec(line@, '\t')[3]);
    assert(parts@[4]@ == split_spec(line@, '\t')[4]);
    let pid = match parse_radix(parts[0].as_slice(), 10, u32::MAX as u64) {
        Some(v) => v as u32,
        None => return None,
    };
    let start_time = match parse_radix(parts[1].as_slice(), 10, u64::MAX) {
        Some(v) => v,
        None => return None,
    };
    Some(
        legacy_record(
            pid,
            start_time,
            string_of(parts[2].as_slice()),
            string_of(parts[3].as_slice()),
            string_of(parts[4].as_slice()),
        ),
    )
}

/// The legacy records that a tab-separated state text describes, one per
/// readable line.
pub open spec fn legacy_fields_of(content: Seq<char>) -> Seq<
    (u32, u64, Seq<char>, Seq<char>, Seq<char>),
> {
    lines_spec(content).filter_map(|l: Seq<char>| legacy_fields(l))
}

/// Reads the tab-separated legacy state: unreadable lines are skipped.
pub fn legacy_state(content: &str) -> (r: StateFile)
    ensures
        r.version == STATE_VERSION,
        r.injections@.len() == legacy_fields_of(content@).len(),
        forall|i: int|
            0 <= i < r.injections@.len() ==> legacy_record_spec(
                #[trigger] r.injections@[i],
                legacy_fields_of(content@)[i],
            ),
{
    let ls = lines(content);
    let ghost f = |l: Seq<char>| legacy_fields(l);
    let mut injections: Vec<InjectionRecord> = Vec::new();
    let mut i: usize = 0;
    while i < ls.len()
        invariant
            i <= ls.len(),
            f == (|l: Seq<char>| legacy_fields(l)),
            views_of(ls@) == lines_spec(content@),
            injections@.len() == views_of(ls@).take(i as int).filter_map(f).len(),
            forall|k: int|
                0 <= k < injections@.len() ==> legacy_record_spec(
                    #[trigger] injections@[k],
                    views_of(ls@).take(i as int).filter_map(f)[k],
                ),
        decreases ls.len() - i,
    {
        let ghost prefix = views_of(ls@).take(i as int);
        let ghost next = views_of(ls@).take(i + 1);
        assert(next.drop_last() =~= prefix);
        assert(next.last() == ls@[i as int]@);
        match parse_legacy_record(ls[i].as_slice()) {
            Some(rec) => {
                assert(next.filter_map(f) == prefix.filter_map(f) + seq![legacy_fields(ls@[i as int]@).unwrap()]);
                injections.push(rec);
            },
            None => {
                assert(next.filter_map(f) == prefix.filter_map(f));
            },
        }
        i = i + 1;
    }
    assert(views_of(ls@).take(ls.len() as int) =~= views_of(ls@));
    StateFile { version: STATE_VERSION, injections }
}

/// After an injection is remembered, its handle is recorded for the same
/// process instance, namespace and class, so a guarded ejection accepts it.
pub proof fn lemma_remembered_is_recorded(
    records: Seq<InjectionRecord>,
    input: InjectionInput,
    injected_at: u64,
    after: Seq<InjectionRecord>,
)
    requires
        input.handle.value() != 0,
        after.len() > 0,
        record_from_input_spec(after.last(), input, injected_at),
        after == remembered_spec(records, after.last()),
    ensures
        is_recorded_spec(after, input.process, input.handle, input.namespace@, input.class_name@),
{
    crate::handle::lemma_handle_text_roundtrip(input.handle.value());
    let i = after.len() - 1;
    assert(matches_process_spec(after[i], input.process));
}

/// Remembering an injection again replaces the earlier record: exactly one
/// record describes it afterwards.
pub proof fn lemma_remember_keeps_one(records: Seq<InjectionRecord>, record: InjectionRecord)
    ensures
        remembered_spec(records, record).filter(|x: InjectionRecord| same_injection_spec(x, record)).len()
            == 1,
{
    let kept = records.filter(|x: InjectionRecord| !same_injection_spec(x, record));
    let same = |x: InjectionRecord| same_injection_spec(x, record);
    crate::seqs::lemma_filter_elements(records, |x: InjectionRecord| !same_injection_spec(x, record));
    crate::seqs::lemma_filter_none(kept, same);
    crate::seqs::lemma_filter_push(kept, same, record);
}

/// After a handle is forgotten for a process instance, it is recorded for
/// that instance under no namespace and class.
pub proof fn lemma_forgotten_not_recorded(
    records: Seq<InjectionRecord>,
    process: ProcessInfo,
    handle: AssemblyHandle,
    namespace: Seq<char>,
    class_name: Seq<char>,
)
    ensures
        !is_recorded_spec(
            records.filter(|x: InjectionRecord| !record_matches_handle_spec(x, process, handle)),
            process,
            handle,
            namespace,
            class_name,
        ),
{
    crate::seqs::lemma_filter_elements(
        records,
        |x: InjectionRecord| !record_matches_handle_spec(x, process, handle),
    );
}

/// Cleaning stale records twice with the same live processes removes nothing
/// the second time.
pub proof fn lemma_clean_stale_idempotent(records: Seq<InjectionRecord>, live: Seq<ProcessInfo>)
    ensures
        records.filter(|x: InjectionRecord| is_live_spec(x, live)).filter(
            |x: InjectionRecord| is_live_spec(x, live),
        ) == records.filter(|x: InjectionRecord| is_live_spec(x, live)),
{
    let p = |x: InjectionRecord| is_live_spec(x, live);
    crate::seqs::lemma_filter_elements(records, p);
    crate::seqs::lemma_filter_all(records.filter(p), p);
}

/// A record of one process instance never matches a later process that
/// reuses its PID, since the start times differ.
pub proof fn lemma_pid_reuse_not_matched(record: InjectionRecord, process: ProcessInfo)
    requires
        record.pid == process.pid,
        record.start_time != process.start_time,
    ensures
        !matches_process_spec(record, process),
{
}

} // verus!
