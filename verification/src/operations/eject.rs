//! Ejection planning: choosing the handle and entry point from options, a
//! profile and remembered injections, and the guard that refuses handles
//! that were not remembered for the same process instance.
use vstd::prelude::*;

use crate::error::{Error, InjectorError};
use crate::handle::{handle_text, parse_handle_spec, AssemblyHandle};
use crate::names::lookup;
use crate::operations::{
    from_profile, load_profile, opt_seq, option_or_profile, pick, profile_for, profile_process,
    required, EjectOptions, EjectOutput, ResolvedEjectPlan,
};
use crate::process::{resolve_process, resolved_index, target_running, ProcessInfo};
use crate::profiles::{Profile, ProfilesFile};
use crate::runtime::profile_of;
use crate::state::{
    clone_opt, ensure_recorded, entry_name, entry_name_spec, forget, handle_value_spec, lemma_forgotten_not_recorded,
    is_recorded_spec, matching, matching_pred, opt_view, record_matches_handle_spec,
    InjectionRecord,
};
use crate::text::owned;

verus! {

/// Everything an ejection needs: the profile, the target process, the
/// handle, the entry point, and whether the handle was given raw.
#[derive(Debug, Clone)]
pub struct PreparedEject {
    pub profile_name: Option<String>,
    pub profile: Option<Profile>,
    pub process: ProcessInfo,
    pub handle: AssemblyHandle,
    pub namespace: String,
    pub class_name: String,
    pub method_name: String,
    pub raw: bool,
}

/// A handle text reads as a non-zero address.
pub open spec fn handle_ok(raw: Seq<char>, h: AssemblyHandle) -> bool {
    parse_handle_spec(raw) == Some(h.value() as nat) && h.value() != 0
}

/// A handle text that does not read as a non-zero address.
pub open spec fn handle_bad(raw: Seq<char>) -> bool {
    match parse_handle_spec(raw) {
        Some(v) => v == 0,
        None => true,
    }
}

/// Reads a hex assembly handle, with or without `0x`.
pub fn parse_handle(raw: &str) -> (r: Result<AssemblyHandle, Error>)
    ensures
        r matches Ok(h) ==> handle_ok(raw@, h),
        r is Err <==> handle_bad(raw@),
        r matches Err(e) ==> (e matches Error::InvalidHandle(t) && t@ == raw@),
{
    match crate::handle::parse_handle(raw) {
        Some(v) => match AssemblyHandle::from_raw(v) {
            Some(h) => Ok(h),
            None => Err(Error::InvalidHandle(owned(raw))),
        },
        None => Err(Error::InvalidHandle(owned(raw))),
    }
}

/// The handle given in the options: a raw handle (which needs `force`),
/// else a handle to check against the records, else none.
pub open spec fn explicit_handle_ok(options: EjectOptions, r: Result<Option<(AssemblyHandle, bool)>, Error>) -> bool {
    match options.raw_handle {
        Some(raw) => if !options.force {
            r matches Err(Error::RawHandleRequiresForce)
        } else if handle_bad(raw@) {
            r matches Err(Error::InvalidHandle(t)) && t@ == raw@
        } else {
            r matches Ok(Some((h, b))) && b && handle_ok(raw@, h)
        },
        None => match options.handle {
            Some(text) => if handle_bad(text@) {
                r matches Err(Error::InvalidHandle(t)) && t@ == text@
            } else {
                r matches Ok(Some((h, b))) && !b && handle_ok(text@, h)
            },
            None => r matches Ok(None),
        },
    }
}

/// The explicitly given handle, marked `true` when it is raw.
pub fn explicit_handle(options: &EjectOptions) -> (r: Result<Option<(AssemblyHandle, bool)>, Error>)
    ensures
        explicit_handle_ok(*options, r),
{
    if let Some(raw) = &options.raw_handle {
        if !options.force {
            return Err(Error::RawHandleRequiresForce);
        }
        return match parse_handle(raw.as_str()) {
            Ok(h) => Ok(Some((h, true))),
            Err(e) => Err(e),
        };
    }
    match &options.handle {
        Some(text) => match parse_handle(text.as_str()) {
            Ok(h) => Ok(Some((h, false))),
            Err(e) => Err(e),
        },
        None => Ok(None),
    }
}

/// Namespace filter for record matching: the option, else the profile's.
pub open spec fn filter_namespace(options: EjectOptions, profile: Option<Profile>) -> Option<String> {
    pick(options.namespace, from_profile(profile, |p: Profile| p.namespace))
}

/// Class filter for record matching: the option, else the profile's.
pub open spec fn filter_class(options: EjectOptions, profile: Option<Profile>) -> Option<String> {
    pick(options.class_name, from_profile(profile, |p: Profile| p.class_name))
}

/// The records of the process instance that match the namespace and class
/// filters of the options and profile.
pub fn matching_records(
    options: &EjectOptions,
    process: &ProcessInfo,
    profile: Option<&Profile>,
    records: &Vec<InjectionRecord>,
) -> (r: Vec<InjectionRecord>)
    ensures
        r@ == records@.filter(matching_pred(
            *process,
            opt_seq(filter_namespace(*options, profile_of(profile))),
            opt_seq(filter_class(*options, profile_of(profile))),
        )),
{
    let namespace = option_or_profile(&options.namespace, match profile { Some(p) => Some(&p.namespace), None => None });
    let class_name = option_or_profile(&options.class_name, match profile { Some(p) => Some(&p.class_name), None => None });
    let ns: Option<&str> = match &namespace { Some(n) => Some(n.as_str()), None => None };
    let cls: Option<&str> = match &class_name { Some(c) => Some(c.as_str()), None => None };
    assert(opt_view(ns) == opt_seq(namespace));
    assert(opt_view(cls) == opt_seq(class_name));
    matching(records, process, ns, cls)
}

/// The entry filter shown in messages: the options' namespace and class, or
/// `*`, and the method, or `Unload`.
pub open spec fn entry_filter_spec(options: EjectOptions) -> Seq<char> {
    entry_name_spec(
        match options.namespace { Some(n) => n@, None => "*"@ },
        match options.class_name { Some(c) => c@, None => "*"@ },
        match options.method_name { Some(m) => m@, None => "Unload"@ },
    )
}

/// Formats the entry filter of the options for messages.
pub fn entry_filter(options: &EjectOptions) -> (r: String)
    ensures
        r@ == entry_filter_spec(*options),
{
    let namespace: &str = match &options.namespace { Some(n) => n.as_str(), None => "*" };
    let class_name: &str = match &options.class_name { Some(c) => c.as_str(), None => "*" };
    let method_name: &str = match &options.method_name { Some(m) => m.as_str(), None => "Unload" };
    entry_name(namespace, class_name, method_name)
}

/// The record chosen among the matching records: the first naming the given
/// handle; without a handle the only one, the last with `latest`, none when
/// there is none, and a refusal when several match.
pub open spec fn select_record_ok(
    options: EjectOptions,
    handle: Option<AssemblyHandle>,
    records: Seq<InjectionRecord>,
    r: Result<Option<InjectionRecord>, Error>,
) -> bool {
    match handle {
        Some(h) => match r {
            Ok(Some(rec)) => exists|i: int|
                0 <= i < records.len() && records[i] == rec && handle_value_spec(rec) == Some(h.value() as nat)
                    && forall|j: int| 0 <= j < i ==> handle_value_spec(#[trigger] records[j]) != Some(h.value() as nat),
            Ok(None) => forall|j: int| 0 <= j < records.len() ==> handle_value_spec(#[trigger] records[j]) != Some(h.value() as nat),
            Err(_) => false,
        },
        None => if records.len() == 0 {
            r == Ok::<Option<InjectionRecord>, Error>(None)
        } else if records.len() == 1 {
            r == Ok::<Option<InjectionRecord>, Error>(Some(records[0]))
        } else if options.latest {
            r == Ok::<Option<InjectionRecord>, Error>(Some(records.last()))
        } else {
            r matches Err(Error::AmbiguousRecordedAssembly { entry }) && entry@ == entry_filter_spec(options)
        },
    }
}

/// Chooses the remembered record for the ejection among the matching ones.
pub fn select_record(options: &EjectOptions, handle: Option<AssemblyHandle>, records: Vec<InjectionRecord>) -> (r: Result<Option<InjectionRecord>, Error>)
    ensures
        select_record_ok(*options, handle, records@, r),
{
    if let Some(h) = handle {
        let mut i: usize = 0;
        while i < records.len()
            invariant
                i <= records.len(),
                handle == Some(h),
                forall|j: int| 0 <= j < i ==> handle_value_spec(#[trigger] records@[j]) != Some(h.value() as nat),
            decreases records.len() - i,
        {
            match records[i].handle_value() {
                Some(v) => {
                    proof {
                        v.lemma_value_injective(h);
                    }
                    if v == h {
                        let rec = records[i].duplicate();
                        assert(records@[i as int] == rec && handle_value_spec(rec) == Some(h.value() as nat));
                        return Ok(Some(rec));
                    }
                },
                None => {},
            }
            i = i + 1;
        }
        return Ok(None);
    }
    let n = records.len();
    if n == 0 {
        Ok(None)
    } else if n == 1 {
        Ok(Some(records[0].duplicate()))
    } else if options.latest {
        Ok(Some(records[n - 1].duplicate()))
    } else {
        Err(Error::AmbiguousRecordedAssembly { entry: entry_filter(options) })
    }
}

/// The record consulted for an ejection: none for a raw handle; otherwise
/// the selection among the matching records (their loading may fail).
pub open spec fn selected_record_ok(
    options: EjectOptions,
    process: ProcessInfo,
    profile: Option<Profile>,
    handle: Option<(AssemblyHandle, bool)>,
    records: Result<Vec<InjectionRecord>, Error>,
    r: Result<Option<InjectionRecord>, Error>,
) -> bool {
    if handle matches Some((_, raw)) && raw {
        r == Ok::<Option<InjectionRecord>, Error>(None)
    } else {
        match records {
            Err(e) => r == Err::<Option<InjectionRecord>, Error>(e),
            Ok(rs) => select_record_ok(
                options,
                match handle { Some((h, _)) => Some(h), None => None },
                rs@.filter(matching_pred(process, opt_seq(filter_namespace(options, profile)), opt_seq(filter_class(options, profile)))),
                r,
            ),
        }
    }
}

/// Finds the remembered record that the ejection refers to.
pub fn selected_record(
    options: &EjectOptions,
    process: &ProcessInfo,
    profile: Option<&Profile>,
    handle: Option<(AssemblyHandle, bool)>,
    records: &Result<Vec<InjectionRecord>, Error>,
) -> (r: Result<Option<InjectionRecord>, Error>)
    ensures
        selected_record_ok(*options, *process, profile_of(profile), handle, *records, r),
{
    if let Some((_, raw)) = handle {
        if raw {
            return Ok(None);
        }
    }
    let rs = match records {
        Ok(rs) => rs,
        Err(e) => return Err(e.duplicate()),
    };
    let matches = matching_records(options, process, profile, rs);
    let h = match handle { Some((h, _)) => Some(h), None => None };
    select_record(options, h, matches)
}

/// A field of an optional record.
pub open spec fn from_record(record: Option<InjectionRecord>, field: spec_fn(InjectionRecord) -> String) -> Option<String> {
    match record {
        Some(r) => Some(field(r)),
        None => None,
    }
}

/// The copy of an optional record reference.
pub open spec fn record_of(record: Option<&InjectionRecord>) -> Option<InjectionRecord> {
    match record {
        Some(r) => Some(*r),
        None => None,
    }
}

/// Namespace: the option, the profile's, the record's, else empty.
pub open spec fn eject_namespace_spec(options: EjectOptions, profile: Option<Profile>, record: Option<InjectionRecord>) -> Seq<char> {
    match pick(filter_namespace(options, profile), from_record(record, |r: InjectionRecord| r.namespace)) {
        Some(n) => n@,
        None => Seq::empty(),
    }
}

/// Class: the option, the profile's, the record's.
pub open spec fn eject_class_spec(options: EjectOptions, profile: Option<Profile>, record: Option<InjectionRecord>) -> Option<String> {
    pick(filter_class(options, profile), from_record(record, |r: InjectionRecord| r.class_name))
}

/// Method: the option, the profile's eject method, the record's, else `Unload`.
pub open spec fn eject_method_spec(options: EjectOptions, profile: Option<Profile>, record: Option<InjectionRecord>) -> Seq<char> {
    match pick(pick(options.method_name, from_profile(profile, |p: Profile| p.eject_method)), from_record(record, |r: InjectionRecord| r.eject_method)) {
        Some(m) => m@,
        None => "Unload"@,
    }
}

/// Namespace of the entry point.
pub fn eject_namespace(options: &EjectOptions, profile: Option<&Profile>, record: Option<&InjectionRecord>) -> (r: String)
    ensures
        r@ == eject_namespace_spec(*options, profile_of(profile), record_of(record)),
{
    match option_or_profile(&options.namespace, match profile { Some(p) => Some(&p.namespace), None => None }) {
        Some(n) => n,
        None => match record {
            Some(rec) => rec.namespace.clone(),
            None => String::new(),
        },
    }
}

/// Class of the entry point, or the missing-argument failure.
pub fn eject_class_name(options: &EjectOptions, profile: Option<&Profile>, record: Option<&InjectionRecord>) -> (r: Result<String, Error>)
    ensures
        eject_class_spec(*options, profile_of(profile), record_of(record)) matches Some(c) ==> r == Ok::<String, Error>(c),
        eject_class_spec(*options, profile_of(profile), record_of(record)) is None ==> (r matches Err(Error::MissingArgument { name, flag })
            && name@ == "class"@ && flag@ == "-c"@),
{
    let value = match option_or_profile(&options.class_name, match profile { Some(p) => Some(&p.class_name), None => None }) {
        Some(c) => Some(c),
        None => match record {
            Some(rec) => Some(rec.class_name.clone()),
            None => None,
        },
    };
    required(value, "class", "-c")
}

/// Cleanup method of the entry point.
pub fn eject_method_name(options: &EjectOptions, profile: Option<&Profile>, record: Option<&InjectionRecord>) -> (r: String)
    ensures
        r@ == eject_method_spec(*options, profile_of(profile), record_of(record)),
{
    match option_or_profile(&options.method_name, match profile { Some(p) => Some(&p.eject_method), None => None }) {
        Some(m) => m,
        None => match record {
            Some(rec) => rec.eject_method.clone(),
            None => owned("Unload"),
        },
    }
}

/// The handle remembered in a record, as a checked (not raw) handle.
pub fn record_handle(record: Option<&InjectionRecord>) -> (r: Option<(AssemblyHandle, bool)>)
    ensures
        match record {
            None => r is None,
            Some(rec) => match handle_value_spec(*rec) {
                Some(v) => r matches Some((h, raw)) && h.value() == v && !raw,
                None => r is None,
            },
        },
{
    match record {
        Some(rec) => match rec.handle_value() {
            Some(h) => Some((h, false)),
            None => None,
        },
        None => None,
    }
}

/// The failure when no handle is given or remembered.
pub fn no_record(process: &ProcessInfo, options: &EjectOptions) -> (r: Error)
    ensures
        r matches Error::NoRecordedAssembly { process: p, pid, entry } && p == process.name && pid == process.pid
            && entry@ == entry_filter_spec(*options),
{
    Error::NoRecordedAssembly { process: process.name.clone(), pid: process.pid, entry: entry_filter(options) }
}

/// Process name to eject from, or the missing-argument failure.
pub fn eject_process_name(options: &EjectOptions, profile: Option<&Profile>) -> (r: Result<String, Error>)
    ensures
        pick(options.process, from_profile(profile_of(profile), |p: Profile| p.process)) matches Some(n) ==> r == Ok::<String, Error>(n),
        pick(options.process, from_profile(profile_of(profile), |p: Profile| p.process)) is None ==> (r matches Err(Error::MissingArgument { name, flag })
            && name@ == "process"@ && flag@ == "-p"@),
{
    let from_profile = profile_process(profile);
    let value = match &options.process {
        Some(p) => Some(p.clone()),
        None => from_profile,
    };
    required(value, "process", "-p")
}

/// The prepared ejection follows from the chosen handle and record.
pub open spec fn resolved_eject_ok(
    options: EjectOptions,
    profile: Option<Profile>,
    process: ProcessInfo,
    handle: Option<(AssemblyHandle, bool)>,
    record: Option<InjectionRecord>,
    r: Result<PreparedEject, Error>,
) -> bool {
    let chosen = match handle {
        Some((h, raw)) => Some((h.value(), raw)),
        None => match record {
            Some(rec) => match handle_value_spec(rec) {
                Some(v) => Some((v as u64, false)),
                None => None,
            },
            None => None,
        },
    };
    match chosen {
        None => r matches Err(Error::NoRecordedAssembly { process: p, pid, entry }) && p == process.name
            && pid == process.pid && entry@ == entry_filter_spec(options),
        Some((v, raw)) => match eject_class_spec(options, profile, record) {
            None => r matches Err(Error::MissingArgument { name, flag }) && name@ == "class"@ && flag@ == "-c"@,
            Some(c) => r matches Ok(p) && p.handle.value() == v && p.raw == raw && p.process == process
                && p.profile == profile && p.profile_name == options.profile_name
                && p.namespace@ == eject_namespace_spec(options, profile, record) && p.class_name == c
                && p.method_name@ == eject_method_spec(options, profile, record),
        },
    }
}

/// Completes the ejection's inputs from the chosen handle and record.
pub fn resolved_eject(
    options: &EjectOptions,
    profile: Option<Profile>,
    process: ProcessInfo,
    handle: Option<(AssemblyHandle, bool)>,
    record: Option<&InjectionRecord>,
) -> (r: Result<PreparedEject, Error>)
    ensures
        resolved_eject_ok(*options, profile, process, handle, record_of(record), r),
{
    let chosen = match handle {
        Some(h) => Some(h),
        None => record_handle(record),
    };
    let (handle, raw) = match chosen {
        Some(c) => c,
        None => return Err(no_record(&process, options)),
    };
    let namespace = eject_namespace(options, profile.as_ref(), record);
    let class_name = eject_class_name(options, profile.as_ref(), record)?;
    let method_name = eject_method_name(options, profile.as_ref(), record);
    Ok(PreparedEject {
        profile_name: clone_opt(&options.profile_name),
        profile,
        process,
        handle,
        namespace,
        class_name,
        method_name,
        raw,
    })
}

/// The ejection prepared from the profile document, a process snapshot and
/// the remembered records (or the failure to load them): the profile, the
/// target, the explicit handle and the remembered record, in that order,
/// each failure stopping the preparation.
pub open spec fn prepare_eject_ok(
    options: EjectOptions,
    profiles: ProfilesFile,
    processes: Seq<ProcessInfo>,
    records: Result<Vec<InjectionRecord>, Error>,
    r: Result<PreparedEject, Error>,
) -> bool {
    let profile = profile_for(profiles, opt_seq(options.profile_name));
    let missing = match options.profile_name {
        Some(n) => lookup(profiles.profiles@, n@) is None,
        None => false,
    };
    if missing {
        r matches Err(Error::ProfileNotFound(m)) && Some(m@) == opt_seq(options.profile_name)
    } else {
        match pick(options.process, from_profile(profile, |p: Profile| p.process)) {
            None => r matches Err(Error::MissingArgument { name, flag }) && name@ == "process"@ && flag@ == "-p"@,
            Some(target) => if !target_running(processes, target@) {
                r matches Err(Error::ProcessNotFound(t)) && t@ == target@
            } else {
                let process = processes[resolved_index(processes, target@)];
                exists|h: Result<Option<(AssemblyHandle, bool)>, Error>| #[trigger] explicit_handle_ok(options, h) && match h {
                    Err(e) => r == Err::<PreparedEject, Error>(e),
                    Ok(handle) => exists|sel: Result<Option<InjectionRecord>, Error>|
                        #[trigger] selected_record_ok(options, process, profile, handle, records, sel) && match sel {
                            Err(e) => r == Err::<PreparedEject, Error>(e),
                            Ok(record) => resolved_eject_ok(options, profile, process, handle, record, r),
                        },
                }
            },
        }
    }
}

/// A raw handle is never ejected without `force`: the preparation fails,
/// with the refusal itself once the profile and target have resolved.
pub proof fn lemma_raw_handle_needs_force(
    options: EjectOptions,
    profiles: ProfilesFile,
    processes: Seq<ProcessInfo>,
    records: Result<Vec<InjectionRecord>, Error>,
    r: Result<PreparedEject, Error>,
)
    requires
        prepare_eject_ok(options, profiles, processes, records, r),
        options.raw_handle is Some,
        !options.force,
    ensures
        r matches Err(e) && (e is RawHandleRequiresForce || e is ProfileNotFound || e is MissingArgument
            || e is ProcessNotFound),
{
    let profile = profile_for(profiles, opt_seq(options.profile_name));
    let missing = match options.profile_name {
        Some(n) => lookup(profiles.profiles@, n@) is None,
        None => false,
    };
    if !missing {
        if let Some(target) = pick(options.process, from_profile(profile, |p: Profile| p.process)) {
            if target_running(processes, target@) {
                let h = choose|h: Result<Option<(AssemblyHandle, bool)>, Error>| #[trigger] explicit_handle_ok(options, h) && match h {
                    Err(e) => r == Err::<PreparedEject, Error>(e),
                    Ok(handle) => exists|sel: Result<Option<InjectionRecord>, Error>|
                        #[trigger] selected_record_ok(options, processes[resolved_index(processes, target@)], profile, handle, records, sel) && match sel {
                            Err(e) => r == Err::<PreparedEject, Error>(e),
                            Ok(record) => resolved_eject_ok(options, profile, processes[resolved_index(processes, target@)], handle, record, r),
                        },
                };
                assert(h matches Err(Error::RawHandleRequiresForce));
            }
        }
    }
}

/// Resolves the profile, target process, handle and remembered record of an ejection.
pub fn prepare_eject(
    options: &EjectOptions,
    profiles: &ProfilesFile,
    processes: &Vec<ProcessInfo>,
    records: &Result<Vec<InjectionRecord>, Error>,
) -> (r: Result<PreparedEject, Error>)
    ensures
        prepare_eject_ok(*options, *profiles, processes@, *records, r),
{
    let profile = load_profile(profiles, options.profile_name.as_ref())?;
    let process_name = eject_process_name(options, profile.as_ref())?;
    let process = resolve_process(processes, process_name.as_str())?;
    let handle = explicit_handle(options);
    let handle = match handle {
        Ok(h) => h,
        Err(e) => {
            assert(explicit_handle_ok(*options, Err::<Option<(AssemblyHandle, bool)>, Error>(e)));
            return Err(e);
        },
    };
    assert(explicit_handle_ok(*options, Ok::<Option<(AssemblyHandle, bool)>, Error>(handle)));
    let record = selected_record(options, &process, profile.as_ref(), handle, records);
    let record = match record {
        Ok(rec) => rec,
        Err(e) => {
            assert(selected_record_ok(*options, process, profile, handle, *records, Err::<Option<InjectionRecord>, Error>(e)));
            return Err(e);
        },
    };
    assert(selected_record_ok(*options, process, profile, handle, *records, Ok::<Option<InjectionRecord>, Error>(record)));
    let rec_ref = record.as_ref();
    assert(record_of(rec_ref) == record);
    resolved_eject(options, profile, process, handle, rec_ref)
}

/// The record guard: without `force` and for a checked handle, the handle
/// must be remembered for the process instance, namespace and class (the
/// records' loading may fail).
pub open spec fn guard_ok(
    options: EjectOptions,
    prepared: PreparedEject,
    records: Result<Vec<InjectionRecord>, Error>,
    r: Result<(), Error>,
) -> bool {
    if options.force || prepared.raw {
        r is Ok
    } else {
        match records {
            Err(e) => r == Err::<(), Error>(e),
            Ok(rs) => {
                &&& (r is Ok <==> is_recorded_spec(rs@, prepared.process, prepared.handle, prepared.namespace@, prepared.class_name@))
                &&& (r matches Err(e) ==> e matches Error::UnrecordedAssemblyHandle { handle: h, process: p, pid }
                    && h@ == handle_text(prepared.handle.value()) && p == prepared.process.name && pid == prepared.process.pid)
            },
        }
    }
}

/// Refuses a checked handle that is not remembered, unless forced.
pub fn enforce_record_guard(
    options: &EjectOptions,
    prepared: &PreparedEject,
    records: &Result<Vec<InjectionRecord>, Error>,
) -> (r: Result<(), Error>)
    ensures
        guard_ok(*options, *prepared, *records, r),
{
    if options.force || prepared.raw {
        Ok(())
    } else {
        match records {
            Err(e) => Err(e.duplicate()),
            Ok(rs) => ensure_recorded(
                rs,
                &prepared.process,
                prepared.handle,
                prepared.namespace.as_str(),
                prepared.class_name.as_str(),
            ),
        }
    }
}

/// The plan shown for a prepared ejection.
pub open spec fn eject_plan_ok(prepared: PreparedEject, plan: ResolvedEjectPlan) -> bool {
    &&& plan.process == prepared.process
    &&& plan.handle@ == handle_text(prepared.handle.value())
    &&& plan.namespace == prepared.namespace
    &&& plan.class_name == prepared.class_name
    &&& plan.method_name == prepared.method_name
    &&& plan.entry@ == entry_name_spec(prepared.namespace@, prepared.class_name@, prepared.method_name@)
    &&& plan.profile == prepared.profile_name
    &&& plan.raw == prepared.raw
}

/// The dry-run plan of a prepared ejection.
pub fn eject_plan(prepared: &PreparedEject) -> (r: ResolvedEjectPlan)
    ensures
        eject_plan_ok(*prepared, r),
{
    ResolvedEjectPlan {
        entry: entry_name(prepared.namespace.as_str(), prepared.class_name.as_str(), prepared.method_name.as_str()),
        process: prepared.process.duplicate(),
        handle: prepared.handle.to_text(),
        namespace: prepared.namespace.clone(),
        class_name: prepared.class_name.clone(),
        method_name: prepared.method_name.clone(),
        profile: clone_opt(&prepared.profile_name),
        raw: prepared.raw,
    }
}

/// The output reported for a prepared ejection.
pub fn eject_output(status: &str, prepared: &PreparedEject) -> (r: EjectOutput)
    ensures
        r.status@ == status@,
        r.process == prepared.process,
        r.handle@ == handle_text(prepared.handle.value()),
        r.entry@ == entry_name_spec(prepared.namespace@, prepared.class_name@, prepared.method_name@),
        r.profile == prepared.profile_name,
{
    EjectOutput {
        status: owned(status),
        process: prepared.process.duplicate(),
        handle: prepared.handle.to_text(),
        entry: entry_name(prepared.namespace.as_str(), prepared.class_name.as_str(), prepared.method_name.as_str()),
        profile: clone_opt(&prepared.profile_name),
    }
}

/// The dry-run plan of an ejection: the plan of the guarded preparation, or
/// the failure of the preparation or of the guard. Without `force`, a plan
/// names a handle remembered for the same process instance, namespace and
/// class.
pub open spec fn resolve_eject_ok(
    options: EjectOptions,
    profiles: ProfilesFile,
    processes: Seq<ProcessInfo>,
    records: Result<Vec<InjectionRecord>, Error>,
    r: Result<ResolvedEjectPlan, Error>,
) -> bool {
    &&& r matches Ok(plan) ==> exists|p: PreparedEject|
        prepare_eject_ok(options, profiles, processes, records, Ok(p))
            && guard_ok(options, p, records, Ok(())) && #[trigger] eject_plan_ok(p, plan)
    &&& r matches Err(e) ==> prepare_eject_ok(options, profiles, processes, records, Err(e))
        || exists|p: PreparedEject|
            #[trigger] prepare_eject_ok(options, profiles, processes, records, Ok(p))
                && guard_ok(options, p, records, Err(e))
    &&& !options.force ==> match (r, records) {
        (Ok(plan), Ok(rs)) => !plan.raw && exists|h: AssemblyHandle|
            plan.handle@ == handle_text(h.value()) && #[trigger] is_recorded_spec(rs@, plan.process, h, plan.namespace@, plan.class_name@),
        (Ok(_), Err(_)) => false,
        _ => true,
    }
}

/// Resolves an ejection plan without changing the target process, from the
/// profile document, a process snapshot and the remembered records (or the
/// failure to load them). Without `force`, a plan is only given for a
/// handle remembered for the same process instance, namespace and class.
pub fn resolve_eject(
    options: &EjectOptions,
    profiles: &ProfilesFile,
    processes: &Vec<ProcessInfo>,
    records: &Result<Vec<InjectionRecord>, Error>,
) -> (r: Result<ResolvedEjectPlan, Error>)
    ensures
        resolve_eject_ok(*options, *profiles, processes@, *records, r),
{
    let prepared = prepare_eject(options, profiles, processes, records)?;
    let guard = enforce_record_guard(options, &prepared, records);
    match guard {
        Ok(()) => {},
        Err(e) => return Err(e),
    }
    let plan = eject_plan(&prepared);
    proof {
        if !options.force {
            lemma_checked_unless_forced(*options, *profiles, processes@, *records, prepared);
            assert(is_recorded_spec(records->Ok_0@, plan.process, prepared.handle, plan.namespace@, plan.class_name@));
        }
    }
    Ok(plan)
}

/// Without `force`, a prepared ejection never carries a raw handle.
proof fn lemma_checked_unless_forced(
    options: EjectOptions,
    profiles: ProfilesFile,
    processes: Seq<ProcessInfo>,
    records: Result<Vec<InjectionRecord>, Error>,
    prepared: PreparedEject,
)
    requires
        prepare_eject_ok(options, profiles, processes, records, Ok(prepared)),
        !options.force,
    ensures
        !prepared.raw,
{
}

/// The guarded preparation of an ejection: the preparation when the guard
/// lets it through, else the failure of either. Without `force`, the handle
/// it gives is remembered for the same process instance, namespace and class.
pub open spec fn guarded_eject_ok(
    options: EjectOptions,
    profiles: ProfilesFile,
    processes: Seq<ProcessInfo>,
    records: Result<Vec<InjectionRecord>, Error>,
    r: Result<PreparedEject, Error>,
) -> bool {
    &&& r matches Ok(p) ==> prepare_eject_ok(options, profiles, processes, records, Ok(p))
        && guard_ok(options, p, records, Ok(()))
    &&& r matches Err(e) ==> prepare_eject_ok(options, profiles, processes, records, Err(e))
        || exists|p: PreparedEject|
            #[trigger] prepare_eject_ok(options, profiles, processes, records, Ok(p))
                && guard_ok(options, p, records, Err(e))
    &&& !options.force ==> match (r, records) {
        (Ok(p), Ok(rs)) => !p.raw && is_recorded_spec(rs@, p.process, p.handle, p.namespace@, p.class_name@),
        (Ok(_), Err(_)) => false,
        _ => true,
    }
}

/// Prepares an ejection and applies the record guard: the ejection that
/// may be carried out, or why not. Without `force`, the handle it gives is
/// remembered for the same process instance, namespace and class.
pub fn prepare_guarded_eject(
    options: &EjectOptions,
    profiles: &ProfilesFile,
    processes: &Vec<ProcessInfo>,
    records: &Result<Vec<InjectionRecord>, Error>,
) -> (r: Result<PreparedEject, Error>)
    ensures
        guarded_eject_ok(*options, *profiles, processes@, *records, r),
{
    let prepared = prepare_eject(options, profiles, processes, records)?;
    match enforce_record_guard(options, &prepared, records) {
        Ok(()) => {},
        Err(e) => return Err(e),
    }
    proof {
        if !options.force {
            lemma_checked_unless_forced(*options, *profiles, processes@, *records, prepared);
        }
    }
    Ok(prepared)
}

/// The output of a carried-out ejection: status `ejected`, with the target,
/// handle, cleanup entry point and profile of the prepared ejection.
pub open spec fn ejected_output_ok(prepared: PreparedEject, out: EjectOutput) -> bool {
    &&& out.status@ == "ejected"@
    &&& out.process == prepared.process
    &&& out.handle@ == handle_text(prepared.handle.value())
    &&& out.entry@ == entry_name_spec(prepared.namespace@, prepared.class_name@, prepared.method_name@)
    &&& out.profile == prepared.profile_name
}

/// How an ejection finishes once the remote call returned: a failed call
/// is reported as is, as is a failure to load the records; otherwise the
/// records of the process instance naming the handle are forgotten and the
/// `ejected` output is given.
pub open spec fn ejection_finished_ok(
    prepared: PreparedEject,
    outcome: Result<(), InjectorError>,
    records: Result<Vec<InjectionRecord>, Error>,
    r: Result<(Vec<InjectionRecord>, EjectOutput), Error>,
) -> bool {
    &&& outcome matches Err(e) ==> r == Err::<(Vec<InjectionRecord>, EjectOutput), Error>(Error::Inject(e))
    &&& outcome is Ok ==> match records {
        Err(e) => r == Err::<(Vec<InjectionRecord>, EjectOutput), Error>(e),
        Ok(rs) => r matches Ok(pair) && pair.0@ == rs@.filter(
            |x: InjectionRecord| !record_matches_handle_spec(x, prepared.process, prepared.handle),
        ) && ejected_output_ok(prepared, pair.1)
            && forall|ns: Seq<char>, cls: Seq<char>| !#[trigger] is_recorded_spec(pair.0@, prepared.process, prepared.handle, ns, cls),
    }
}

/// Finishes an ejection once the remote call returned: a failed call is
/// reported as is; otherwise every record of the process instance naming
/// the handle is forgotten from the records (whose loading may have failed)
/// and the `ejected` output is returned with the records to store.
pub fn eject(
    prepared: &PreparedEject,
    outcome: Result<(), InjectorError>,
    records: Result<Vec<InjectionRecord>, Error>,
) -> (r: Result<(Vec<InjectionRecord>, EjectOutput), Error>)
    ensures
        ejection_finished_ok(*prepared, outcome, records, r),
{
    match outcome {
        Ok(()) => {},
        Err(e) => return Err(Error::Inject(e)),
    }
    let rs = records?;
    let kept = forget(rs, &prepared.process, prepared.handle);
    proof {
        assert forall|ns: Seq<char>, cls: Seq<char>| !#[trigger] is_recorded_spec(kept@, prepared.process, prepared.handle, ns, cls) by {
            lemma_forgotten_not_recorded(rs@, prepared.process, prepared.handle, ns, cls);
        }
    }
    Ok((kept, eject_output("ejected", prepared)))
}

/// The same inputs prepare the same ejection: where one preparation
/// succeeds, every preparation from those inputs succeeds, with one target,
/// handle, entry point and profile.
pub proof fn lemma_prepared_eject_unique(
    options: EjectOptions,
    profiles: ProfilesFile,
    processes: Seq<ProcessInfo>,
    records: Result<Vec<InjectionRecord>, Error>,
    p1: PreparedEject,
    r2: Result<PreparedEject, Error>,
)
    requires
        prepare_eject_ok(options, profiles, processes, records, Ok(p1)),
        prepare_eject_ok(options, profiles, processes, records, r2),
    ensures
        r2 matches Ok(p2) && p1.process == p2.process && p1.handle == p2.handle && p1.raw == p2.raw
            && p1.namespace@ == p2.namespace@ && p1.class_name == p2.class_name
            && p1.method_name@ == p2.method_name@ && p1.profile == p2.profile
            && p1.profile_name == p2.profile_name,
{
    let profile = profile_for(profiles, opt_seq(options.profile_name));
    let target = pick(options.process, from_profile(profile, |p: Profile| p.process))->Some_0;
    let process = processes[resolved_index(processes, target@)];
    let h1 = choose|h: Result<Option<(AssemblyHandle, bool)>, Error>| #[trigger] explicit_handle_ok(options, h) && match h {
        Err(e) => Ok::<PreparedEject, Error>(p1) == Err::<PreparedEject, Error>(e),
        Ok(handle) => exists|sel: Result<Option<InjectionRecord>, Error>|
            #[trigger] selected_record_ok(options, process, profile, handle, records, sel) && match sel {
                Err(e) => Ok::<PreparedEject, Error>(p1) == Err::<PreparedEject, Error>(e),
                Ok(record) => resolved_eject_ok(options, profile, process, handle, record, Ok(p1)),
            },
    };
    let h2 = choose|h: Result<Option<(AssemblyHandle, bool)>, Error>| #[trigger] explicit_handle_ok(options, h) && match h {
        Err(e) => r2 == Err::<PreparedEject, Error>(e),
        Ok(handle) => exists|sel: Result<Option<InjectionRecord>, Error>|
            #[trigger] selected_record_ok(options, process, profile, handle, records, sel) && match sel {
                Err(e) => r2 == Err::<PreparedEject, Error>(e),
                Ok(record) => resolved_eject_ok(options, profile, process, handle, record, r2),
            },
    };
    let handle1 = h1->Ok_0;
    let handle2 = h2->Ok_0;
    match (handle1, handle2) {
        (Some((a, _)), Some((b, _))) => a.lemma_value_injective(b),
        _ => {},
    }
    assert(handle1 == handle2);
    let sel1 = choose|sel: Result<Option<InjectionRecord>, Error>|
        #[trigger] selected_record_ok(options, process, profile, handle1, records, sel) && match sel {
            Err(e) => Ok::<PreparedEject, Error>(p1) == Err::<PreparedEject, Error>(e),
            Ok(record) => resolved_eject_ok(options, profile, process, handle1, record, Ok(p1)),
        };
    let sel2 = choose|sel: Result<Option<InjectionRecord>, Error>|
        #[trigger] selected_record_ok(options, process, profile, handle1, records, sel) && match sel {
            Err(e) => r2 == Err::<PreparedEject, Error>(e),
            Ok(record) => resolved_eject_ok(options, profile, process, handle1, record, r2),
        };
    let rec1 = sel1->Ok_0;
    let rec2 = sel2->Ok_0;
    if !(handle1 matches Some((_, raw)) && raw) {
        let rs = records->Ok_0@.filter(
            matching_pred(process, opt_seq(filter_namespace(options, profile)), opt_seq(filter_class(options, profile))),
        );
        match handle1 {
            Some((h, _)) => {
                let v = Some(h.value() as nat);
                match (rec1, rec2) {
                    (Some(x), Some(y)) => {
                        let i = choose|i: int|
                            0 <= i < rs.len() && rs[i] == x && handle_value_spec(x) == v
                                && forall|j: int| 0 <= j < i ==> handle_value_spec(#[trigger] rs[j]) != v;
                        let k = choose|k: int|
                            0 <= k < rs.len() && rs[k] == y && handle_value_spec(y) == v
                                && forall|j: int| 0 <= j < k ==> handle_value_spec(#[trigger] rs[j]) != v;
                        if i < k {
                            assert(handle_value_spec(rs[i]) != v);
                        } else if k < i {
                            assert(handle_value_spec(rs[k]) != v);
                        }
                    },
                    (Some(x), None) => {
                        let i = choose|i: int|
                            0 <= i < rs.len() && rs[i] == x && handle_value_spec(x) == v
                                && forall|j: int| 0 <= j < i ==> handle_value_spec(#[trigger] rs[j]) != v;
                        assert(handle_value_spec(rs[i]) != v);
                    },
                    (None, Some(y)) => {
                        let k = choose|k: int|
                            0 <= k < rs.len() && rs[k] == y && handle_value_spec(y) == v
                                && forall|j: int| 0 <= j < k ==> handle_value_spec(#[trigger] rs[j]) != v;
                        assert(handle_value_spec(rs[k]) != v);
                    },
                    (None, None) => {},
                }
            },
            None => {},
        }
    }
    assert(rec1 == rec2);
    p1.handle.lemma_value_injective(r2->Ok_0.handle);
}

/// Carrying out an ejection reports what its dry run showed: the output of
/// `eject` is the plan of `resolve_eject` on the same inputs, with the
/// status `ejected` in place of `dry-run`.
pub proof fn lemma_eject_reports_plan(
    options: EjectOptions,
    profiles: ProfilesFile,
    processes: Seq<ProcessInfo>,
    records: Result<Vec<InjectionRecord>, Error>,
    prepared: PreparedEject,
    plan: ResolvedEjectPlan,
    out: EjectOutput,
)
    requires
        prepare_eject_ok(options, profiles, processes, records, Ok(prepared)),
        exists|p: PreparedEject|
            prepare_eject_ok(options, profiles, processes, records, Ok(p)) && #[trigger] eject_plan_ok(p, plan),
        ejected_output_ok(prepared, out),
    ensures
        out.status@ == "ejected"@,
        out.process == plan.process,
        out.handle@ == plan.handle@,
        out.entry@ == plan.entry@,
        out.profile == plan.profile,
{
    let p = choose|p: PreparedEject|
        prepare_eject_ok(options, profiles, processes, records, Ok(p)) && #[trigger] eject_plan_ok(p, plan);
    lemma_prepared_eject_unique(options, profiles, processes, records, prepared, Ok(p));
}

/// An ejection that went through did what its dry run showed: the dry-run
/// plan from the same profiles, processes and records exists; the remote
/// call was made on the planned process with the planned handle, namespace,
/// class and method; the output is the plan's, with the status `ejected`;
/// and the records stored afterwards are those from before less every
/// record of that process instance naming that handle.
pub proof fn lemma_ejection_follows_plan(
    options: EjectOptions,
    profiles: ProfilesFile,
    processes: Seq<ProcessInfo>,
    records: Result<Vec<InjectionRecord>, Error>,
    prepared: PreparedEject,
    planned: Result<ResolvedEjectPlan, Error>,
    outcome: Result<(), InjectorError>,
    finished: Result<(Vec<InjectionRecord>, EjectOutput), Error>,
)
    requires
        guarded_eject_ok(options, profiles, processes, records, Ok(prepared)),
        resolve_eject_ok(options, profiles, processes, records, planned),
        ejection_finished_ok(prepared, outcome, records, finished),
        finished is Ok,
    ensures
        planned matches Ok(plan) && finished matches Ok(done) && {
            let (kept, out) = done;
            &&& prepared.process == plan.process
            &&& handle_text(prepared.handle.value()) == plan.handle@
            &&& prepared.namespace@ == plan.namespace@
            &&& prepared.class_name == plan.class_name
            &&& prepared.method_name@ == plan.method_name@
            &&& out.status@ == "ejected"@
            &&& out.process == plan.process
            &&& out.handle@ == plan.handle@
            &&& out.entry@ == plan.entry@
            &&& out.profile == plan.profile
            &&& outcome is Ok
            &&& records matches Ok(rs) && kept@ == rs@.filter(
                |x: InjectionRecord| !record_matches_handle_spec(x, plan.process, prepared.handle),
            )
        },
{
    match planned {
        Ok(plan) => {
            let p = choose|p: PreparedEject|
                prepare_eject_ok(options, profiles, processes, records, Ok(p))
                    && guard_ok(options, p, records, Ok(())) && #[trigger] eject_plan_ok(p, plan);
            lemma_prepared_eject_unique(options, profiles, processes, records, prepared, Ok(p));
        },
        Err(e) => {
            if prepare_eject_ok(options, profiles, processes, records, Err(e)) {
                lemma_prepared_eject_unique(options, profiles, processes, records, prepared, Err(e));
            } else {
                let p = choose|p: PreparedEject|
                    #[trigger] prepare_eject_ok(options, profiles, processes, records, Ok(p))
                        && guard_ok(options, p, records, Err(e));
                lemma_prepared_eject_unique(options, profiles, processes, records, prepared, Ok(p));
            }
        },
    }
}

} // verus!
