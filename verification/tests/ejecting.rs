use mono_injector_core::error::{Error, InjectorError, InjectorErrorKind};
use mono_injector_core::handle::AssemblyHandle;
use mono_injector_core::operations::eject::{
    eject, enforce_record_guard, explicit_handle, prepare_eject, prepare_guarded_eject, resolve_eject,
};
use mono_injector_core::operations::EjectOptions;
use mono_injector_core::process::ProcessInfo;
use mono_injector_core::profiles::{Profile, ProfilesFile};
use mono_injector_core::runtime::RuntimeOptions;
use mono_injector_core::state::{remember_at, InjectionInput, InjectionRecord};

fn game() -> ProcessInfo {
    ProcessInfo { pid: 42, name: "Game.exe".into(), start_time: 1000 }
}

fn snapshot() -> Vec<ProcessInfo> {
    vec![ProcessInfo { pid: 1, name: "System".into(), start_time: 1 }, game()]
}

fn options() -> EjectOptions {
    EjectOptions {
        profile_name: None,
        process: Some("Game.exe".into()),
        handle: None,
        raw_handle: None,
        namespace: None,
        class_name: None,
        method_name: None,
        latest: false,
        force: false,
        runtime: RuntimeOptions::default(),
    }
}

fn record(raw: u64, namespace: &str, class: &str, at: u64, records: Vec<InjectionRecord>) -> Vec<InjectionRecord> {
    remember_at(
        records,
        InjectionInput {
            process: game(),
            handle: AssemblyHandle::from_raw(raw).unwrap(),
            assembly_path: Some("C:\\mods\\MyMod.dll".into()),
            namespace: namespace.into(),
            class_name: class.into(),
            inject_method: "Init".into(),
            eject_method: "Shutdown".into(),
            profile: None,
        },
        at,
    )
}

#[test]
fn single_remembered_injection_is_selected() {
    let records = record(0x1234, "MyMod", "Loader", 1, Vec::new());
    let plan = resolve_eject(&options(), &ProfilesFile::new(), &snapshot(), &Ok(records)).unwrap();
    assert_eq!(plan.handle, "0x1234");
    assert_eq!(plan.process, game());
    assert_eq!(plan.namespace, "MyMod");
    assert_eq!(plan.class_name, "Loader");
    assert_eq!(plan.method_name, "Shutdown");
    assert_eq!(plan.entry, "MyMod.Loader::Shutdown");
    assert!(!plan.raw);
    let out = plan.dry_run_output();
    assert_eq!(out.status, "dry-run");
    assert_eq!(out.handle, "0x1234");
}

#[test]
fn several_matches_need_latest_or_handle() {
    let records = record(0x1, "MyMod", "Loader", 1, Vec::new());
    let records = record(0x2, "MyMod", "Loader", 2, records);
    match resolve_eject(&options(), &ProfilesFile::new(), &snapshot(), &Ok(records.clone())) {
        Err(Error::AmbiguousRecordedAssembly { entry }) => assert_eq!(entry, "*.*::Unload"),
        other => panic!("unexpected {other:?}"),
    }
    let latest = EjectOptions { latest: true, ..options() };
    let plan = resolve_eject(&latest, &ProfilesFile::new(), &snapshot(), &Ok(records.clone())).unwrap();
    assert_eq!(plan.handle, "0x2");
    let chosen = EjectOptions { handle: Some("0x1".into()), ..options() };
    let plan = resolve_eject(&chosen, &ProfilesFile::new(), &snapshot(), &Ok(records)).unwrap();
    assert_eq!(plan.handle, "0x1");
}

#[test]
fn no_remembered_injection() {
    let opts = EjectOptions { namespace: Some("MyMod".into()), class_name: Some("Loader".into()), ..options() };
    match resolve_eject(&opts, &ProfilesFile::new(), &snapshot(), &Ok(Vec::new())) {
        Err(Error::NoRecordedAssembly { process, pid, entry }) => {
            assert_eq!(process, "Game.exe");
            assert_eq!(pid, 42);
            assert_eq!(entry, "MyMod.Loader::Unload");
        }
        other => panic!("unexpected {other:?}"),
    }
}

#[test]
fn guard_refuses_unremembered_handles_without_force() {
    let records = record(0x1234, "MyMod", "Loader", 1, Vec::new());
    let opts = EjectOptions {
        handle: Some("0x9999".into()),
        namespace: Some("MyMod".into()),
        class_name: Some("Loader".into()),
        ..options()
    };
    match resolve_eject(&opts, &ProfilesFile::new(), &snapshot(), &Ok(records.clone())) {
        Err(Error::UnrecordedAssemblyHandle { handle, process, pid }) => {
            assert_eq!(handle, "0x9999");
            assert_eq!(process, "Game.exe");
            assert_eq!(pid, 42);
        }
        other => panic!("unexpected {other:?}"),
    }
    let forced = EjectOptions { force: true, ..opts };
    let plan = resolve_eject(&forced, &ProfilesFile::new(), &snapshot(), &Ok(records)).unwrap();
    assert_eq!(plan.handle, "0x9999");
    assert_eq!(plan.method_name, "Unload");
}

#[test]
fn raw_handles_require_force() {
    let raw = EjectOptions { raw_handle: Some("0xabc".into()), class_name: Some("Loader".into()), ..options() };
    assert!(matches!(explicit_handle(&raw), Err(Error::RawHandleRequiresForce)));
    assert!(matches!(
        resolve_eject(&raw, &ProfilesFile::new(), &snapshot(), &Ok(Vec::new())),
        Err(Error::RawHandleRequiresForce)
    ));
    let forced = EjectOptions { force: true, ..raw };
    let plan = resolve_eject(&forced, &ProfilesFile::new(), &snapshot(), &Ok(Vec::new())).unwrap();
    assert!(plan.raw);
    assert_eq!(plan.handle, "0xabc");
    assert_eq!(plan.entry, "Loader::Unload");
    let bad = EjectOptions { raw_handle: Some("0x0".into()), ..forced };
    match explicit_handle(&bad) {
        Err(Error::InvalidHandle(t)) => assert_eq!(t, "0x0"),
        other => panic!("unexpected {other:?}"),
    }
}

#[test]
fn invalid_and_missing_inputs() {
    let bad = EjectOptions { handle: Some("zz".into()), ..options() };
    match resolve_eject(&bad, &ProfilesFile::new(), &snapshot(), &Ok(Vec::new())) {
        Err(Error::InvalidHandle(t)) => assert_eq!(t, "zz"),
        other => panic!("unexpected {other:?}"),
    }
    let none = EjectOptions { process: None, ..options() };
    match resolve_eject(&none, &ProfilesFile::new(), &snapshot(), &Ok(Vec::new())) {
        Err(Error::MissingArgument { name, flag }) => {
            assert_eq!(name, "process");
            assert_eq!(flag, "-p");
        }
        other => panic!("unexpected {other:?}"),
    }
    let gone = EjectOptions { process: Some("Gone.exe".into()), ..options() };
    assert!(matches!(
        resolve_eject(&gone, &ProfilesFile::new(), &snapshot(), &Ok(Vec::new())),
        Err(Error::ProcessNotFound(_))
    ));
    let unknown = EjectOptions { profile_name: Some("nope".into()), ..options() };
    match resolve_eject(&unknown, &ProfilesFile::new(), &snapshot(), &Ok(Vec::new())) {
        Err(Error::ProfileNotFound(n)) => assert_eq!(n, "nope"),
        other => panic!("unexpected {other:?}"),
    }
    let forced_raw_no_class = EjectOptions { raw_handle: Some("0x5".into()), force: true, ..options() };
    match resolve_eject(&forced_raw_no_class, &ProfilesFile::new(), &snapshot(), &Ok(Vec::new())) {
        Err(Error::MissingArgument { name, flag }) => {
            assert_eq!(name, "class");
            assert_eq!(flag, "-c");
        }
        other => panic!("unexpected {other:?}"),
    }
    let failed_load = resolve_eject(&options(), &ProfilesFile::new(), &snapshot(), &Err(Error::InjectionRecords("denied".into())));
    match failed_load {
        Err(Error::InjectionRecords(m)) => assert_eq!(m, "denied"),
        other => panic!("unexpected {other:?}"),
    }
}

#[test]
fn profile_values_fill_the_plan() {
    let mut profiles = ProfilesFile::new();
    profiles.insert(
        "game".into(),
        Profile {
            process: Some("game.exe".into()),
            namespace: Some("MyMod".into()),
            class_name: Some("Loader".into()),
            eject_method: Some("Stop".into()),
            ..Profile::default()
        },
    );
    let records = record(0x77, "MyMod", "Loader", 1, Vec::new());
    let opts = EjectOptions { profile_name: Some("game".into()), process: None, ..options() };
    let plan = resolve_eject(&opts, &profiles, &snapshot(), &Ok(records)).unwrap();
    assert_eq!(plan.handle, "0x77");
    assert_eq!(plan.method_name, "Stop");
    assert_eq!(plan.profile.as_deref(), Some("game"));
    assert_eq!(plan.process.pid, 42);
}

#[test]
fn ejecting_forgets_the_handle() {
    let records = record(0x1234, "MyMod", "Loader", 1, Vec::new());
    let records = record(0x5678, "Other", "Loader", 2, records);
    let opts = EjectOptions { handle: Some("0x1234".into()), ..options() };
    let prepared = prepare_eject(&opts, &ProfilesFile::new(), &snapshot(), &Ok(records.clone())).unwrap();
    assert!(enforce_record_guard(&opts, &prepared, &Ok(records.clone())).is_ok());
    let (kept, out) = eject(&prepared, Ok(()), Ok(records.clone())).unwrap();
    assert_eq!(kept.len(), 1);
    assert_eq!(kept[0].handle, "0x5678");
    assert_eq!(out.status, "ejected");
    assert_eq!(out.handle, "0x1234");
    assert_eq!(out.entry, "MyMod.Loader::Shutdown");
    let failure = InjectorError { kind: InjectorErrorKind::InvalidAssemblyHandle, message: "bad handle".into() };
    match eject(&prepared, Err(failure), Ok(records)) {
        Err(Error::Inject(e)) => assert_eq!(e.message, "bad handle"),
        other => panic!("unexpected {other:?}"),
    }
}

#[test]
fn guarded_preparation() {
    let records = record(0x1234, "MyMod", "Loader", 1, Vec::new());
    let ok = prepare_guarded_eject(&options(), &ProfilesFile::new(), &snapshot(), &Ok(records.clone())).unwrap();
    assert_eq!(ok.handle.get(), 0x1234);
    assert!(!ok.raw);
    let other = EjectOptions {
        handle: Some("0x99".into()),
        namespace: Some("MyMod".into()),
        class_name: Some("Loader".into()),
        ..options()
    };
    assert!(matches!(
        prepare_guarded_eject(&other, &ProfilesFile::new(), &snapshot(), &Ok(records.clone())),
        Err(Error::UnrecordedAssemblyHandle { .. })
    ));
    let forced = EjectOptions { force: true, ..other };
    let p = prepare_guarded_eject(&forced, &ProfilesFile::new(), &snapshot(), &Ok(records)).unwrap();
    assert_eq!(p.handle.get(), 0x99);
}

#[test]
fn ejecting_reports_the_dry_run_plan() {
    let records = record(0x1234, "MyMod", "Loader", 1, Vec::new());
    let plan = resolve_eject(&options(), &ProfilesFile::new(), &snapshot(), &Ok(records.clone())).unwrap();
    let prepared = prepare_guarded_eject(&options(), &ProfilesFile::new(), &snapshot(), &Ok(records.clone())).unwrap();
    let (_, out) = eject(&prepared, Ok(()), Ok(records)).unwrap();
    let dry = plan.dry_run_output();
    assert_eq!(dry.status, "dry-run");
    assert_eq!(out.status, "ejected");
    assert_eq!(out.process, dry.process);
    assert_eq!(out.handle, dry.handle);
    assert_eq!(out.entry, dry.entry);
    assert_eq!(out.profile, dry.profile);
}

#[test]
fn ejection_follows_the_plan() {
    let records = record(0x1234, "MyMod", "Loader", 1, Vec::new());
    let records = record(0x5678, "Other", "Boot", 2, records);
    let opts = EjectOptions { handle: Some("0x1234".into()), ..options() };
    let plan = resolve_eject(&opts, &ProfilesFile::new(), &snapshot(), &Ok(records.clone())).unwrap();
    let prepared = prepare_guarded_eject(&opts, &ProfilesFile::new(), &snapshot(), &Ok(records.clone())).unwrap();
    assert_eq!(prepared.process, plan.process);
    assert_eq!(prepared.handle.to_text(), plan.handle);
    assert_eq!(prepared.namespace, plan.namespace);
    assert_eq!(prepared.class_name, plan.class_name);
    assert_eq!(prepared.method_name, plan.method_name);
    let (kept, out) = eject(&prepared, Ok(()), Ok(records.clone())).unwrap();
    assert_eq!(out.status, "ejected");
    assert_eq!(out.handle, plan.handle);
    assert_eq!(out.entry, plan.entry);
    let expected: Vec<InjectionRecord> = records.into_iter().filter(|r| r.handle != "0x1234").collect();
    assert_eq!(kept, expected);
    assert_eq!(kept.len(), 1);
}
