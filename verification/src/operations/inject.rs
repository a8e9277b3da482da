//! Injection planning: resolving the target, assembly, entry point and
//! readiness settings from options, a profile and remembered injections.
use vstd::prelude::*;

use crate::dotnet::{assembly_types, infer_namespace, inferred_namespace_ok, validate_assembly};
use crate::error::{Error, InjectorError};
use crate::handle::{handle_text, AssemblyHandle};
use crate::operations::{
    from_profile, load_profile, opt_ref_seq, opt_seq, option_or_profile, pick, profile_for, profile_process,
    required, InjectOptions, InjectOutput, ResolvedInjectPlan, DEFAULT_STEAM_SETTLE_MS,
};
use crate::process::{lemma_resolves_to_unique, resolve_process, resolved_index, resolves_to, target_running, ProcessInfo};
use crate::seqs::{lemma_filter_push, lemma_filter_within};
use crate::profiles::{Profile, ProfilesFile};
use crate::runtime::profile_of;
use crate::state::{
    clone_opt, entry_name, entry_name_spec, is_recorded_spec, lemma_remembered_is_recorded, matching, matching_pred,
    remember, remembered_spec, record_from_input_spec, same_injection_spec, InjectionInput, InjectionRecord,
};
use crate::text::owned;

verus! {

/// What is known before the assembly is read: the profile, the target
/// process name, the class, an explicitly given namespace, and the path.
#[derive(Debug, Clone)]
pub struct InjectSource {
    pub profile: Option<Profile>,
    pub process_name: String,
    pub class_name: String,
    pub namespace: Option<String>,
    pub assembly_path: String,
}

/// Everything an injection needs apart from the target process itself.
#[derive(Debug, Clone)]
pub struct PreparedInject {
    pub profile_name: Option<String>,
    pub profile: Option<Profile>,
    pub process_name: String,
    pub assembly_path: String,
    pub assembly: Vec<u8>,
    pub namespace: String,
    pub class_name: String,
    pub method_name: String,
    pub eject_method: String,
    pub wait_module: Option<String>,
    pub settle_ms: u64,
    pub steam_app: Option<u32>,
}

/// The value's characters, or `default` when it is absent.
pub open spec fn or_default(value: Option<String>, default: Seq<char>) -> Seq<char> {
    match value {
        Some(v) => v@,
        None => default,
    }
}

/// Target process name: the option, else the profile's.
pub open spec fn process_name_of(options: InjectOptions, profile: Option<Profile>) -> Option<String> {
    pick(options.process, from_profile(profile, |p: Profile| p.process))
}

/// Loader class: the option, else the profile's, else `Loader`.
pub open spec fn class_name_of(options: InjectOptions, profile: Option<Profile>) -> Seq<char> {
    or_default(pick(options.class_name, from_profile(profile, |p: Profile| p.class_name)), "Loader"@)
}

/// Explicit namespace: the option, else the profile's.
pub open spec fn namespace_of(options: InjectOptions, profile: Option<Profile>) -> Option<String> {
    pick(options.namespace, from_profile(profile, |p: Profile| p.namespace))
}

/// Inject method: the option, else the profile's, else `Init`.
pub open spec fn method_name_of(options: InjectOptions, profile: Option<Profile>) -> Seq<char> {
    or_default(pick(options.inject_method, from_profile(profile, |p: Profile| p.inject_method)), "Init"@)
}

/// Eject method recorded for later: the option, else the profile's, else `Unload`.
pub open spec fn eject_method_of(options: InjectOptions, profile: Option<Profile>) -> Seq<char> {
    or_default(pick(options.eject_method, from_profile(profile, |p: Profile| p.eject_method)), "Unload"@)
}

/// Steam app to launch: the option, else the profile's.
pub open spec fn steam_app_of(options: InjectOptions, profile: Option<Profile>) -> Option<u32> {
    pick(options.steam_app, from_profile(profile, |p: Profile| p.steam_app))
}

/// Readiness module: none when disabled; else the option, the profile's, or
/// `d3d11.dll` for a Steam launch.
pub open spec fn wait_module_of(options: InjectOptions, profile: Option<Profile>, steam_app: Option<u32>) -> Option<Seq<char>> {
    if options.disable_wait_module {
        None
    } else {
        match pick(options.wait_module, from_profile(profile, |p: Profile| p.wait_module)) {
            Some(m) => Some(m@),
            None => if steam_app is Some {
                Some("d3d11.dll"@)
            } else {
                None
            },
        }
    }
}

/// Settle delay: the option, the profile's, 8000 ms for a Steam launch, else 0.
pub open spec fn settle_ms_of(options: InjectOptions, profile: Option<Profile>, steam_app: Option<u32>) -> u64 {
    match options.settle_delay_ms {
        Some(ms) => ms,
        None => match from_profile(profile, |p: Profile| p.settle_ms) {
            Some(ms) => ms,
            None => if steam_app is Some {
                DEFAULT_STEAM_SETTLE_MS
            } else {
                0
            },
        },
    }
}

/// Process name to inject into, or the missing-argument failure.
pub fn inject_process_name(options: &InjectOptions, profile: Option<&Profile>) -> (r: Result<String, Error>)
    ensures
        process_name_of(*options, profile_of(profile)) matches Some(n) ==> r == Ok::<String, Error>(n),
        process_name_of(*options, profile_of(profile)) is None ==> (r matches Err(Error::MissingArgument { name, flag })
            && name@ == "process"@ && flag@ == "-p"@),
{
    let from_profile = profile_process(profile);
    let value = match &options.process {
        Some(p) => Some(p.clone()),
        None => from_profile,
    };
    required(value, "process", "-p")
}

/// Loader class name.
pub fn inject_class_name(options: &InjectOptions, profile: Option<&Profile>) -> (r: String)
    ensures
        r@ == class_name_of(*options, profile_of(profile)),
{
    match option_or_profile(&options.class_name, match profile { Some(p) => Some(&p.class_name), None => None }) {
        Some(c) => c,
        None => owned("Loader"),
    }
}

/// Explicit namespace, if any.
pub fn inject_namespace(options: &InjectOptions, profile: Option<&Profile>) -> (r: Option<String>)
    ensures
        r == namespace_of(*options, profile_of(profile)),
{
    option_or_profile(&options.namespace, match profile { Some(p) => Some(&p.namespace), None => None })
}

/// Inject method name.
pub fn inject_method_name(options: &InjectOptions, profile: Option<&Profile>) -> (r: String)
    ensures
        r@ == method_name_of(*options, profile_of(profile)),
{
    match option_or_profile(&options.inject_method, match profile { Some(p) => Some(&p.inject_method), None => None }) {
        Some(m) => m,
        None => owned("Init"),
    }
}

/// Eject method remembered for later default ejection.
pub fn inject_eject_method(options: &InjectOptions, profile: Option<&Profile>) -> (r: String)
    ensures
        r@ == eject_method_of(*options, profile_of(profile)),
{
    match option_or_profile(&options.eject_method, match profile { Some(p) => Some(&p.eject_method), None => None }) {
        Some(m) => m,
        None => owned("Unload"),
    }
}

/// Steam app to launch, if any.
pub fn inject_steam_app(options: &InjectOptions, profile: Option<&Profile>) -> (r: Option<u32>)
    ensures
        r == steam_app_of(*options, profile_of(profile)),
{
    match options.steam_app {
        Some(a) => Some(a),
        None => match profile {
            Some(p) => p.steam_app,
            None => None,
        },
    }
}

/// Module to wait for before injecting, if any.
pub fn inject_wait_module(options: &InjectOptions, profile: Option<&Profile>, steam_app: Option<u32>) -> (r: Option<String>)
    ensures
        opt_seq(r) == wait_module_of(*options, profile_of(profile), steam_app),
{
    if options.disable_wait_module {
        return None;
    }
    match option_or_profile(&options.wait_module, match profile { Some(p) => Some(&p.wait_module), None => None }) {
        Some(m) => Some(m),
        None => match steam_app {
            Some(_) => Some(owned("d3d11.dll")),
            None => None,
        },
    }
}

/// Delay after readiness before injecting, in milliseconds.
pub fn inject_settle_ms(options: &InjectOptions, profile: Option<&Profile>, steam_app: Option<u32>) -> (r: u64)
    ensures
        r == settle_ms_of(*options, profile_of(profile), steam_app),
{
    match options.settle_delay_ms {
        Some(ms) => ms,
        None => match profile {
            Some(p) => match p.settle_ms {
                Some(ms) => ms,
                None => if steam_app.is_some() { DEFAULT_STEAM_SETTLE_MS } else { 0 },
            },
            None => if steam_app.is_some() { DEFAULT_STEAM_SETTLE_MS } else { 0 },
        },
    }
}

/// The assembly path of the last remembered injection into the running
/// process with that name, for the class and (optional) namespace.
pub open spec fn remembered_assembly_spec(
    processes: Seq<ProcessInfo>,
    records: Result<Vec<InjectionRecord>, Error>,
    process_name: Seq<char>,
    namespace: Option<Seq<char>>,
    class_name: Seq<char>,
) -> Option<String> {
    if !target_running(processes, process_name) {
        None
    } else {
        match records {
            Err(_) => None,
            Ok(rs) => {
                let p = processes[resolved_index(processes, process_name)];
                let m = rs@.filter(matching_pred(p, namespace, Some(class_name)));
                if m.len() == 0 {
                    None
                } else {
                    m.last().assembly_path
                }
            },
        }
    }
}

/// The assembly path remembered for the process and entry, if any.
pub fn remembered_assembly(
    processes: &Vec<ProcessInfo>,
    records: &Result<Vec<InjectionRecord>, Error>,
    process_name: &str,
    namespace: Option<&String>,
    class_name: &str,
) -> (r: Option<String>)
    ensures
        r == remembered_assembly_spec(processes@, *records, process_name@, opt_ref_seq(namespace), class_name@),
{
    let process = match resolve_process(processes, process_name) {
        Ok(p) => p,
        Err(_) => return None,
    };
    let rs = match records {
        Ok(rs) => rs,
        Err(_) => return None,
    };
    let ns: Option<&str> = match namespace {
        Some(n) => Some(n.as_str()),
        None => None,
    };
    let mut m = matching(rs, &process, ns, Some(class_name));
    assert(crate::state::opt_view(ns) == opt_ref_seq(namespace));
    match m.pop() {
        Some(rec) => rec.assembly_path,
        None => None,
    }
}

/// The remembered assembly is that of the latest remembered injection: once
/// an injection into the running target's instance, for the class (and for
/// the namespace, where one is asked for), has been remembered, an injection
/// given no assembly by its options or profile takes that injection's
/// assembly path, whatever was remembered before it.
pub proof fn lemma_latest_remembered_assembly(
    processes: Seq<ProcessInfo>,
    process_name: Seq<char>,
    target: int,
    records: Seq<InjectionRecord>,
    input: InjectionInput,
    injected_at: u64,
    after: Vec<InjectionRecord>,
    options: InjectOptions,
    profile: Option<Profile>,
    class_name: Seq<char>,
)
    requires
        resolves_to(processes, process_name, target),
        input.process.pid == processes[target].pid,
        input.process.start_time == processes[target].start_time,
        input.class_name@ == class_name,
        options.namespace matches Some(n) ==> input.namespace@ == n@,
        options.assembly is None,
        from_profile(profile, |p: Profile| p.assembly) is None,
        after@.len() > 0,
        record_from_input_spec(after@.last(), input, injected_at),
        after@ == remembered_spec(records, after@.last()),
    ensures
        remembered_assembly_spec(processes, Ok(after), process_name, opt_seq(options.namespace), class_name)
            == input.assembly_path,
        assembly_path_of(options, profile, processes, Ok(after), process_name, class_name) == input.assembly_path,
{
    let i = resolved_index(processes, process_name);
    assert(resolves_to(processes, process_name, i));
    lemma_resolves_to_unique(processes, process_name, i, target);
    assert(target_running(processes, process_name)) by {
        let j = target;
        let _w = processes[j];
    }
    let rec = after@.last();
    let pred = matching_pred(processes[i], opt_seq(options.namespace), Some(class_name));
    let kept = records.filter(|x: InjectionRecord| !same_injection_spec(x, rec));
    assert(pred(rec));
    lemma_filter_push(kept, pred, rec);
    assert(after@.filter(pred) == kept.filter(pred).push(rec));
}

/// Remembering an injection into another process instance, or for another
/// class or namespace than the one asked for, leaves the remembered
/// assembly as it was.
pub proof fn lemma_unrelated_injection_keeps_assembly(
    processes: Seq<ProcessInfo>,
    process_name: Seq<char>,
    target: int,
    before: Vec<InjectionRecord>,
    input: InjectionInput,
    injected_at: u64,
    after: Vec<InjectionRecord>,
    namespace: Option<Seq<char>>,
    class_name: Seq<char>,
)
    requires
        resolves_to(processes, process_name, target),
        input.process.pid != processes[target].pid || input.process.start_time != processes[target].start_time
            || input.class_name@ != class_name || (namespace matches Some(n) && input.namespace@ != n),
        after@.len() > 0,
        record_from_input_spec(after@.last(), input, injected_at),
        after@ == remembered_spec(before@, after@.last()),
    ensures
        remembered_assembly_spec(processes, Ok(after), process_name, namespace, class_name)
            == remembered_assembly_spec(processes, Ok(before), process_name, namespace, class_name),
{
    let i = resolved_index(processes, process_name);
    assert(resolves_to(processes, process_name, i));
    lemma_resolves_to_unique(processes, process_name, i, target);
    let rec = after@.last();
    let pred = matching_pred(processes[i], namespace, Some(class_name));
    let keep = |x: InjectionRecord| !same_injection_spec(x, rec);
    assert(!pred(rec));
    assert forall|x: InjectionRecord| #[trigger] pred(x) implies keep(x) by {}
    lemma_filter_within(before@, keep, pred);
    lemma_filter_push(before@.filter(keep), pred, rec);
    assert(after@.filter(pred) == before@.filter(pred));
}

/// The assembly path: the option, the profile's, or the remembered one.
pub open spec fn assembly_path_of(
    options: InjectOptions,
    profile: Option<Profile>,
    processes: Seq<ProcessInfo>,
    records: Result<Vec<InjectionRecord>, Error>,
    process_name: Seq<char>,
    class_name: Seq<char>,
) -> Option<String> {
    pick(
        options.assembly,
        pick(
            from_profile(profile, |p: Profile| p.assembly),
            remembered_assembly_spec(processes, records, process_name, opt_seq(options.namespace), class_name),
        ),
    )
}

/// The assembly to inject, or the missing-argument failure.
pub fn inject_assembly_path(
    options: &InjectOptions,
    profile: Option<&Profile>,
    processes: &Vec<ProcessInfo>,
    records: &Result<Vec<InjectionRecord>, Error>,
    process_name: &str,
    class_name: &str,
) -> (r: Result<String, Error>)
    ensures
        assembly_path_of(*options, profile_of(profile), processes@, *records, process_name@, class_name@) matches Some(a)
            ==> r == Ok::<String, Error>(a),
        assembly_path_of(*options, profile_of(profile), processes@, *records, process_name@, class_name@) is None
            ==> (r matches Err(Error::MissingArgument { name, flag }) && name@ == "assembly"@ && flag@ == "-a"@),
{
    let value = match option_or_profile(&options.assembly, match profile { Some(p) => Some(&p.assembly), None => None }) {
        Some(a) => Some(a),
        None => remembered_assembly(processes, records, process_name, options.namespace.as_ref(), class_name),
    };
    required(value, "assembly", "-a")
}

/// The source of an injection as the options, profiles, processes and
/// records determine it.
pub open spec fn source_ok(
    options: InjectOptions,
    profiles: ProfilesFile,
    processes: Seq<ProcessInfo>,
    records: Result<Vec<InjectionRecord>, Error>,
    source: InjectSource,
) -> bool {
    let profile = profile_for(profiles, opt_seq(options.profile_name));
    &&& source.profile == profile
    &&& process_name_of(options, profile) == Some(source.process_name)
    &&& source.class_name@ == class_name_of(options, profile)
    &&& source.namespace == namespace_of(options, profile)
    &&& assembly_path_of(options, profile, processes, records, source.process_name@, source.class_name@)
        == Some(source.assembly_path)
}

/// Resolves the profile, target process name, class, namespace and assembly
/// path, in that order, failing at the first that is missing.
pub fn inject_source(
    options: &InjectOptions,
    profiles: &ProfilesFile,
    processes: &Vec<ProcessInfo>,
    records: &Result<Vec<InjectionRecord>, Error>,
) -> (r: Result<InjectSource, Error>)
    ensures
        r matches Ok(s) ==> source_ok(*options, *profiles, processes@, *records, s),
        r is Ok ==> profile_found(*profiles, opt_seq(options.profile_name)),
        r is Err ==> {
            let name = opt_seq(options.profile_name);
            ||| (name matches Some(n) && lookup_missing(*profiles, n) && (r matches Err(Error::ProfileNotFound(m)) && m@ == n))
            ||| (profile_found(*profiles, name) && process_name_of(*options, profile_for(*profiles, name)) is None
                && (r matches Err(Error::MissingArgument { name: a, flag: f }) && a@ == "process"@ && f@ == "-p"@))
            ||| (process_name_of(*options, profile_for(*profiles, name)) matches Some(p)
                && profile_found(*profiles, name) && assembly_path_of(*options, profile_for(*profiles, name), processes@, *records, p@,
                    class_name_of(*options, profile_for(*profiles, name))) is None
                && (r matches Err(Error::MissingArgument { name: a, flag: f }) && a@ == "assembly"@ && f@ == "-a"@))
        },
{
    let profile = load_profile(profiles, options.profile_name.as_ref())?;
    let process_name = inject_process_name(options, profile.as_ref())?;
    let class_name = inject_class_name(options, profile.as_ref());
    let namespace = inject_namespace(options, profile.as_ref());
    let assembly_path = inject_assembly_path(
        options,
        profile.as_ref(),
        processes,
        records,
        process_name.as_str(),
        class_name.as_str(),
    )?;
    Ok(InjectSource { profile, process_name, class_name, namespace, assembly_path })
}

/// No profile with that name exists.
pub open spec fn lookup_missing(profiles: ProfilesFile, name: Seq<char>) -> bool {
    crate::names::lookup(profiles.profiles@, name) is None
}

/// The named profile exists, or no profile is named.
pub open spec fn profile_found(profiles: ProfilesFile, name: Option<Seq<char>>) -> bool {
    match name {
        Some(n) => !lookup_missing(profiles, n),
        None => true,
    }
}


/// The namespace used for an injection: the explicit one once the metadata
/// reads, else the inferred one (empty when nothing can be inferred).
pub open spec fn namespace_resolved_ok(
    assembly: Seq<u8>,
    explicit: Option<String>,
    class_name: Seq<char>,
    namespace: Seq<char>,
) -> bool {
    match assembly_types(assembly) {
        Err(_) => false,
        Ok(defs) => match explicit {
            Some(n) => namespace == n@,
            None => exists|o: Option<Seq<char>>|
                inferred_namespace_ok(defs, class_name, o) && namespace == match o {
                    Some(k) => k,
                    None => Seq::<char>::empty(),
                },
        },
    }
}

/// Resolves the namespace: an explicit one is kept after checking the
/// metadata; otherwise it is inferred from the metadata.
pub fn resolved_namespace(assembly: &[u8], namespace: Option<String>, class_name: &str) -> (r: Result<String, Error>)
    ensures
        r matches Ok(n) ==> namespace_resolved_ok(assembly@, namespace, class_name@, n@),
        namespace matches Some(n) ==> (r matches Ok(m) ==> m == n),
        r is Err <==> assembly_types(assembly@) is Err,
        r matches Err(e) ==> (e matches Error::AssemblyMetadata(m) && assembly_types(assembly@) == Err::<Seq<crate::dotnet::TypeDefView>, Seq<char>>(m@)),
{
    match namespace {
        Some(n) => {
            validate_assembly(assembly)?;
            Ok(n)
        },
        None => {
            let inferred = infer_namespace(assembly, class_name)?;
            let r = match inferred {
                Some(k) => k,
                None => String::new(),
            };
            proof {
                let o = crate::dotnet::opt_chars(inferred);
                assert(r@ == match o {
                    Some(k) => k,
                    None => Seq::<char>::empty(),
                });
            }
            Ok(r)
        },
    }
}

/// The prepared injection follows from the options and source.
pub open spec fn prepared_ok(options: InjectOptions, source: InjectSource, assembly: Seq<u8>, prepared: PreparedInject) -> bool {
    let profile = source.profile;
    let steam = steam_app_of(options, profile);
    &&& prepared.profile_name == options.profile_name
    &&& prepared.profile == profile
    &&& prepared.process_name == source.process_name
    &&& prepared.assembly_path == source.assembly_path
    &&& prepared.assembly@ == assembly
    &&& namespace_resolved_ok(assembly, source.namespace, class_name_of(options, profile), prepared.namespace@)
    &&& prepared.class_name@ == class_name_of(options, profile)
    &&& prepared.method_name@ == method_name_of(options, profile)
    &&& prepared.eject_method@ == eject_method_of(options, profile)
    &&& prepared.steam_app == steam
    &&& opt_seq(prepared.wait_module) == wait_module_of(options, profile, steam)
    &&& prepared.settle_ms == settle_ms_of(options, profile, steam)
}

/// Completes the preparation once the assembly bytes are read (or failed to
/// read, with the I/O error's message).
pub fn prepare_inject(options: &InjectOptions, source: InjectSource, assembly: Result<Vec<u8>, String>) -> (r: Result<PreparedInject, Error>)
    ensures
        assembly matches Err(m) ==> (r matches Err(Error::AssemblyRead(e)) && e == m),
        assembly matches Ok(bytes) ==> match assembly_types(bytes@) {
            Err(m) => r matches Err(Error::AssemblyMetadata(e)) && e@ == m,
            Ok(_) => r matches Ok(p) && prepared_ok(*options, source, bytes@, p),
        },
{
    let bytes = match assembly {
        Ok(b) => b,
        Err(m) => return Err(Error::AssemblyRead(m)),
    };
    let profile = source.profile;
    let class_name = inject_class_name(options, profile.as_ref());
    let namespace = resolved_namespace(bytes.as_slice(), clone_opt(&source.namespace), class_name.as_str())?;
    let steam_app = inject_steam_app(options, profile.as_ref());
    let method_name = inject_method_name(options, profile.as_ref());
    let eject_method = inject_eject_method(options, profile.as_ref());
    let wait_module = inject_wait_module(options, profile.as_ref(), steam_app);
    let settle_ms = inject_settle_ms(options, profile.as_ref(), steam_app);
    Ok(PreparedInject {
        profile_name: clone_opt(&options.profile_name),
        profile,
        process_name: source.process_name,
        assembly_path: source.assembly_path,
        assembly: bytes,
        namespace,
        class_name,
        method_name,
        eject_method,
        wait_module,
        settle_ms,
        steam_app,
    })
}

/// The plan shown for a prepared injection into a process.
pub open spec fn plan_ok(process: ProcessInfo, prepared: PreparedInject, plan: ResolvedInjectPlan) -> bool {
    &&& plan.process == process
    &&& plan.assembly == prepared.assembly_path
    &&& plan.namespace == prepared.namespace
    &&& plan.class_name == prepared.class_name
    &&& plan.method_name == prepared.method_name
    &&& plan.eject_method == prepared.eject_method
    &&& plan.entry@ == entry_name_spec(prepared.namespace@, prepared.class_name@, prepared.method_name@)
    &&& plan.wait_module == prepared.wait_module
    &&& plan.settle_ms == prepared.settle_ms
    &&& plan.steam_app == prepared.steam_app
    &&& plan.profile == prepared.profile_name
}

/// The plan for a prepared injection into a resolved process.
pub fn inject_plan(process: ProcessInfo, prepared: &PreparedInject) -> (r: ResolvedInjectPlan)
    ensures
        plan_ok(process, *prepared, r),
{
    ResolvedInjectPlan {
        entry: entry_name(prepared.namespace.as_str(), prepared.class_name.as_str(), prepared.method_name.as_str()),
        process,
        assembly: prepared.assembly_path.clone(),
        namespace: prepared.namespace.clone(),
        class_name: prepared.class_name.clone(),
        method_name: prepared.method_name.clone(),
        eject_method: prepared.eject_method.clone(),
        wait_module: clone_opt(&prepared.wait_module),
        settle_ms: prepared.settle_ms,
        steam_app: prepared.steam_app,
        profile: clone_opt(&prepared.profile_name),
    }
}

/// The outcome of resolving an injection: the first missing input (the
/// profile, the target, the assembly), the failure to read the assembly or
/// its metadata, a target that is not running, or the plan.
pub open spec fn resolve_inject_ok(
    options: InjectOptions,
    profiles: ProfilesFile,
    processes: Seq<ProcessInfo>,
    records: Result<Vec<InjectionRecord>, Error>,
    assembly: Result<Vec<u8>, String>,
    r: Result<ResolvedInjectPlan, Error>,
) -> bool {
    let name = opt_seq(options.profile_name);
    let profile = profile_for(profiles, name);
    if !profile_found(profiles, name) {
        r matches Err(Error::ProfileNotFound(m)) && Some(m@) == name
    } else {
        match process_name_of(options, profile) {
            None => r matches Err(Error::MissingArgument { name: a, flag: f }) && a@ == "process"@ && f@ == "-p"@,
            Some(target) => match assembly_path_of(options, profile, processes, records, target@, class_name_of(options, profile)) {
                None => r matches Err(Error::MissingArgument { name: a, flag: f }) && a@ == "assembly"@ && f@ == "-a"@,
                Some(_) => match assembly {
                    Err(m) => r == Err::<ResolvedInjectPlan, Error>(Error::AssemblyRead(m)),
                    Ok(bytes) => match assembly_types(bytes@) {
                        Err(m) => r matches Err(Error::AssemblyMetadata(e)) && e@ == m,
                        Ok(_) => if !target_running(processes, target@) {
                            r matches Err(Error::ProcessNotFound(t)) && t@ == target@
                        } else {
                            r matches Ok(plan) && exists|source: InjectSource, prepared: PreparedInject|
                                source_ok(options, profiles, processes, records, source)
                                    && #[trigger] prepared_ok(options, source, bytes@, prepared)
                                    && plan_ok(processes[resolved_index(processes, target@)], prepared, plan)
                        },
                    },
                },
            },
        }
    }
}

/// Resolves an injection plan without changing the target process, from the
/// profile document, a process snapshot, the remembered records (or the
/// failure to load them), and the assembly bytes read from the path that
/// [`inject_source`] gives (or the failure to read them).
pub fn resolve_inject(
    options: &InjectOptions,
    profiles: &ProfilesFile,
    processes: &Vec<ProcessInfo>,
    records: &Result<Vec<InjectionRecord>, Error>,
    assembly: Result<Vec<u8>, String>,
) -> (r: Result<ResolvedInjectPlan, Error>)
    ensures
        resolve_inject_ok(*options, *profiles, processes@, *records, assembly, r),
{
    let ghost bytes_in = assembly;
    let source = match inject_source(options, profiles, processes, records) {
        Ok(s) => s,
        Err(e) => return Err(e),
    };
    let ghost src = source;
    let prepared = match prepare_inject(options, source, assembly) {
        Ok(p) => p,
        Err(e) => return Err(e),
    };
    let process = match resolve_process(processes, prepared.process_name.as_str()) {
        Ok(p) => p,
        Err(e) => return Err(e),
    };
    let plan = inject_plan(process, &prepared);
    proof {
        let bytes = bytes_in->Ok_0;
        assert(source_ok(*options, *profiles, processes@, *records, src) && prepared_ok(*options, src, bytes@, prepared)
            && plan_ok(processes@[resolved_index(processes@, prepared.process_name@)], prepared, plan));
    }
    Ok(plan)
}

/// A Steam launch is needed: an app is configured and its process is not
/// running yet. Gives the app to launch.
pub fn maybe_launch(prepared: &PreparedInject, processes: &Vec<ProcessInfo>) -> (r: Option<u32>)
    ensures
        r == if prepared.steam_app is Some && !target_running(processes@, prepared.process_name@) {
            prepared.steam_app
        } else {
            None
        },
{
    match prepared.steam_app {
        Some(app_id) => match resolve_process(processes, prepared.process_name.as_str()) {
            Ok(_) => None,
            Err(_) => Some(app_id),
        },
        None => None,
    }
}

/// The `steam://rungameid/<APP_ID>` link that launches a Steam app.
pub fn steam_uri(app_id: u32) -> (r: String)
    ensures
        r@ == "steam://rungameid/"@ + crate::text::decimal(app_id as nat),
{
    let digits = crate::text::u64_to_decimal(app_id as u64);
    crate::text::concat2("steam://rungameid/", digits.as_str())
}

/// The target is waited for (rather than resolved once) when asked to or
/// when a Steam app is launched.
pub fn waits_for_process(options: &InjectOptions, prepared: &PreparedInject) -> (r: bool)
    ensures
        r == (options.wait_for_process || prepared.steam_app is Some),
{
    options.wait_for_process || prepared.steam_app.is_some()
}

/// One poll while waiting for a process: the process once it runs, a
/// timeout failure once the deadline has passed, else `None` to poll again.
pub fn poll_process(target: &str, processes: &Vec<ProcessInfo>, deadline_passed: bool) -> (r: Option<Result<ProcessInfo, Error>>)
    ensures
        target_running(processes@, target@) ==> r == Some(Ok::<ProcessInfo, Error>(
            processes@[resolved_index(processes@, target@)],
        )),
        !target_running(processes@, target@) && deadline_passed ==> (r matches Some(
            Err(Error::ProcessWaitTimeout(t)),
        ) && t@ == target@),
        !target_running(processes@, target@) && !deadline_passed ==> r is None,
{
    match resolve_process(processes, target) {
        Ok(p) => Some(Ok(p)),
        Err(_) => if deadline_passed {
            Some(Err(Error::ProcessWaitTimeout(owned(target))))
        } else {
            None
        },
    }
}

/// One poll while waiting for a module: done once a loaded module contains
/// the name (up to ASCII case), a timeout failure once the deadline has
/// passed, else `None` to poll again.
pub fn poll_module(process: &ProcessInfo, module: &str, modules: &Vec<String>, deadline_passed: bool) -> (r: Option<Result<(), Error>>)
    ensures
        crate::process::any_contains_spec(modules@, module@) ==> r == Some(Ok::<(), Error>(())),
        !crate::process::any_contains_spec(modules@, module@) && deadline_passed ==> (r matches Some(
            Err(Error::ModuleWaitTimeout { process: p, pid, module: m }),
        ) && p == process.name && pid == process.pid && m@ == module@),
        !crate::process::any_contains_spec(modules@, module@) && !deadline_passed ==> r is None,
{
    if crate::process::module_matches(modules, module) {
        Some(Ok(()))
    } else if deadline_passed {
        Some(Err(Error::ModuleWaitTimeout {
            process: process.name.clone(),
            pid: process.pid,
            module: owned(module),
        }))
    } else {
        None
    }
}

/// The record input for a successful injection.
pub fn remember_input(prepared: &PreparedInject, process: &ProcessInfo, handle: AssemblyHandle) -> (r: InjectionInput)
    ensures
        r.process == *process,
        r.handle == handle,
        r.assembly_path == Some(prepared.assembly_path),
        r.namespace == prepared.namespace,
        r.class_name == prepared.class_name,
        r.inject_method == prepared.method_name,
        r.eject_method == prepared.eject_method,
        r.profile == prepared.profile_name,
{
    InjectionInput {
        process: process.duplicate(),
        handle,
        assembly_path: Some(prepared.assembly_path.clone()),
        namespace: prepared.namespace.clone(),
        class_name: prepared.class_name.clone(),
        inject_method: prepared.method_name.clone(),
        eject_method: prepared.eject_method.clone(),
        profile: clone_opt(&prepared.profile_name),
    }
}

/// The output reported for an injection.
pub fn inject_output(status: &str, process: ProcessInfo, prepared: &PreparedInject, handle: Option<AssemblyHandle>) -> (r: InjectOutput)
    ensures
        r.status@ == status@,
        r.process == process,
        r.assembly == prepared.assembly_path,
        r.entry@ == entry_name_spec(prepared.namespace@, prepared.class_name@, prepared.method_name@),
        handle is None ==> r.handle is None,
        handle matches Some(h) ==> (r.handle matches Some(t) && t@ == handle_text(h.value())),
        r.profile == prepared.profile_name,
{
    InjectOutput {
        status: owned(status),
        process,
        assembly: prepared.assembly_path.clone(),
        entry: entry_name(prepared.namespace.as_str(), prepared.class_name.as_str(), prepared.method_name.as_str()),
        handle: match handle {
            Some(h) => Some(h.to_text()),
            None => None,
        },
        profile: clone_opt(&prepared.profile_name),
    }
}

/// The result of finishing an injection: a failed call as is; otherwise the
/// records with the injection remembered (their loading may have failed)
/// and the `injected` output.
pub open spec fn injected_ok(
    prepared: PreparedInject,
    process: ProcessInfo,
    outcome: Result<AssemblyHandle, InjectorError>,
    records: Result<Vec<InjectionRecord>, Error>,
    r: Result<(Vec<InjectionRecord>, InjectOutput), Error>,
) -> bool {
    match (outcome, records) {
        (Err(e), _) => r == Err::<(Vec<InjectionRecord>, InjectOutput), Error>(Error::Inject(e)),
        (Ok(_), Err(e)) => r == Err::<(Vec<InjectionRecord>, InjectOutput), Error>(e),
        (Ok(h), Ok(rs)) => r matches Ok(pair) && {
            let saved = pair.0@;
            let out = pair.1;
            &&& saved.len() > 0
            &&& saved == remembered_spec(rs@, saved.last())
            &&& (exists|t: u64| record_from_input_spec(saved.last(), InjectionInput {
                process,
                handle: h,
                assembly_path: Some(prepared.assembly_path),
                namespace: prepared.namespace,
                class_name: prepared.class_name,
                inject_method: prepared.method_name,
                eject_method: prepared.eject_method,
                profile: prepared.profile_name,
            }, t))
            &&& out.status@ == "injected"@
            &&& out.process == process
            &&& out.assembly == prepared.assembly_path
            &&& out.entry@ == entry_name_spec(prepared.namespace@, prepared.class_name@, prepared.method_name@)
            &&& (out.handle matches Some(t) && t@ == handle_text(h.value()))
            &&& out.profile == prepared.profile_name
            &&& is_recorded_spec(saved, process, h, prepared.namespace@, prepared.class_name@)
        },
    }
}

/// Finishes an injection once the remote call returned: a failed call is
/// reported as is; otherwise the handle is remembered in the records (whose
/// loading may have failed) and the `injected` output is returned with the
/// records to store.
pub fn inject(
    prepared: &PreparedInject,
    process: ProcessInfo,
    outcome: Result<AssemblyHandle, InjectorError>,
    records: Result<Vec<InjectionRecord>, Error>,
) -> (r: Result<(Vec<InjectionRecord>, InjectOutput), Error>)
    ensures
        injected_ok(*prepared, process, outcome, records, r),
{
    let handle = match outcome {
        Ok(h) => h,
        Err(e) => return Err(Error::Inject(e)),
    };
    let rs = records?;
    proof {
        use_type_invariant(&handle);
        handle.lemma_nonzero();
    }
    let input = remember_input(prepared, &process, handle);
    let ghost given = input;
    let saved = remember(rs, input);
    proof {
        let t = choose|t: u64| record_from_input_spec(saved@.last(), given, t);
        lemma_remembered_is_recorded(rs@, given, t, saved@);
    }
    Ok((saved, inject_output("injected", process, prepared, Some(handle))))
}

} // verus!
