use dotnetdll::prelude::{Assembly, Module, Resolution, TypeDefinition, WriteOptions};
use mono_injector_core::dotnet::{
    add_namespace_count, infer_namespace, most_common_namespace, namespace_counts, namespace_for_class,
    validate_assembly, TypeDef,
};
use mono_injector_core::error::{Error, InjectorError, InjectorErrorKind};
use mono_injector_core::handle::AssemblyHandle;
use mono_injector_core::names::NameMap;
use mono_injector_core::operations::inject::{
    inject, inject_source, maybe_launch, poll_module, poll_process, prepare_inject, resolve_inject, steam_uri,
    waits_for_process,
};
use mono_injector_core::operations::{duration_ms, InjectOptions};
use mono_injector_core::process::ProcessInfo;
use mono_injector_core::profiles::{Profile, ProfilesFile};
use mono_injector_core::runtime::RuntimeOptions;
use mono_injector_core::state::{is_recorded, remember_at, InjectionInput};

fn assembly(types: &[(Option<&str>, &str)]) -> Vec<u8> {
    let mut res = Resolution::new(Module::new("Test.dll"));
    res.assembly = Some(Assembly::new("Test"));
    for (namespace, name) in types {
        res.push_type_definition(TypeDefinition::new(namespace.map(|n| n.into()), *name));
    }
    res.write(WriteOptions { is_32_bit: false, is_executable: false }).unwrap()
}

fn game() -> ProcessInfo {
    ProcessInfo { pid: 42, name: "Game.exe".into(), start_time: 1000 }
}

fn options() -> InjectOptions {
    InjectOptions {
        profile_name: None,
        process: Some("Game.exe".into()),
        assembly: Some("C:\\mods\\MyMod.dll".into()),
        namespace: None,
        class_name: None,
        inject_method: None,
        eject_method: None,
        wait_for_process: false,
        wait_timeout_ms: 120_000,
        poll_interval_ms: 1000,
        wait_module: None,
        disable_wait_module: false,
        settle_delay_ms: None,
        steam_app: None,
        runtime: RuntimeOptions::default(),
    }
}

fn def(namespace: Option<&str>, name: &str) -> TypeDef {
    TypeDef { name: name.into(), namespace: namespace.map(|n| n.into()) }
}

#[test]
fn namespace_inference_from_definitions() {
    let defs = vec![def(None, "<Module>"), def(Some("MyMod"), "Loader"), def(Some("Util"), "A"), def(Some("Util"), "B")];
    assert_eq!(namespace_for_class(&defs, "Loader").as_deref(), Some("MyMod"));
    assert_eq!(namespace_for_class(&defs, "Missing"), None);
    let dup = vec![def(Some("A"), "Loader"), def(Some("B"), "Loader")];
    assert_eq!(namespace_for_class(&dup, "Loader"), None);
    let counts = namespace_counts(&defs);
    assert_eq!(*counts.get("Util").unwrap(), 2);
    assert_eq!(*counts.get("MyMod").unwrap(), 1);
    assert!(counts.get("").is_none());
    assert_eq!(most_common_namespace(counts).as_deref(), Some("Util"));
    let mut tie: NameMap<usize> = NameMap::new();
    add_namespace_count(&mut tie, Some("B"));
    add_namespace_count(&mut tie, Some("A"));
    add_namespace_count(&mut tie, Some(""));
    add_namespace_count(&mut tie, None);
    assert_eq!(tie.len(), 2);
    assert_eq!(most_common_namespace(tie).as_deref(), Some("B"));
    assert_eq!(most_common_namespace(NameMap::new()), None);
}

#[test]
fn metadata_of_real_assemblies() {
    let bytes = assembly(&[(Some("MyMod"), "Loader"), (Some("Helpers"), "A"), (Some("Helpers"), "B")]);
    assert!(validate_assembly(&bytes).is_ok());
    assert_eq!(infer_namespace(&bytes, "Loader").unwrap().as_deref(), Some("MyMod"));
    assert_eq!(infer_namespace(&bytes, "Other").unwrap().as_deref(), Some("Helpers"));
    let bare = assembly(&[(None, "Loader")]);
    assert_eq!(infer_namespace(&bare, "Loader").unwrap(), None);
    match validate_assembly(b"not a dll") {
        Err(Error::AssemblyMetadata(m)) => assert!(!m.is_empty()),
        other => panic!("unexpected {other:?}"),
    }
    assert!(matches!(infer_namespace(b"MZ", "Loader"), Err(Error::AssemblyMetadata(_))));
}

#[test]
fn dry_run_plan_with_defaults() {
    let bytes = assembly(&[(Some("MyMod"), "Loader")]);
    let plan = resolve_inject(&options(), &ProfilesFile::new(), &vec![game()], &Ok(Vec::new()), Ok(bytes)).unwrap();
    assert_eq!(plan.process, game());
    assert_eq!(plan.assembly, "C:\\mods\\MyMod.dll");
    assert_eq!(plan.namespace, "MyMod");
    assert_eq!(plan.class_name, "Loader");
    assert_eq!(plan.method_name, "Init");
    assert_eq!(plan.eject_method, "Unload");
    assert_eq!(plan.entry, "MyMod.Loader::Init");
    assert_eq!(plan.wait_module, None);
    assert_eq!(plan.settle_ms, 0);
    assert_eq!(plan.steam_app, None);
    let out = plan.dry_run_output();
    assert_eq!(out.status, "dry-run");
    assert_eq!(out.handle, None);
}

#[test]
fn steam_defaults_and_overrides() {
    let bytes = assembly(&[(Some("MyMod"), "Loader")]);
    let steam = InjectOptions { steam_app: Some(480), ..options() };
    let plan = resolve_inject(&steam, &ProfilesFile::new(), &vec![game()], &Ok(Vec::new()), Ok(bytes.clone())).unwrap();
    assert_eq!(plan.wait_module.as_deref(), Some("d3d11.dll"));
    assert_eq!(plan.settle_ms, 8000);
    assert_eq!(plan.steam_app, Some(480));
    let overridden = InjectOptions {
        steam_app: Some(480),
        wait_module: Some("UnityPlayer.dll".into()),
        settle_delay_ms: Some(3000),
        ..options()
    };
    let plan = resolve_inject(&overridden, &ProfilesFile::new(), &vec![game()], &Ok(Vec::new()), Ok(bytes.clone())).unwrap();
    assert_eq!(plan.wait_module.as_deref(), Some("UnityPlayer.dll"));
    assert_eq!(plan.settle_ms, 3000);
    let disabled = InjectOptions { steam_app: Some(480), disable_wait_module: true, ..options() };
    let plan = resolve_inject(&disabled, &ProfilesFile::new(), &vec![game()], &Ok(Vec::new()), Ok(bytes)).unwrap();
    assert_eq!(plan.wait_module, None);
    assert_eq!(steam_uri(480), "steam://rungameid/480");
}

#[test]
fn profile_and_flags() {
    let bytes = assembly(&[(Some("MyMod"), "Boot")]);
    let mut profiles = ProfilesFile::new();
    profiles.insert(
        "game".into(),
        Profile {
            process: Some("Game.exe".into()),
            assembly: Some("D:\\p.dll".into()),
            class_name: Some("Boot".into()),
            inject_method: Some("Start".into()),
            ..Profile::default()
        },
    );
    let opts = InjectOptions { profile_name: Some("game".into()), process: None, assembly: None, ..options() };
    let plan = resolve_inject(&opts, &profiles, &vec![game()], &Ok(Vec::new()), Ok(bytes.clone())).unwrap();
    assert_eq!(plan.assembly, "D:\\p.dll");
    assert_eq!(plan.entry, "MyMod.Boot::Start");
    assert_eq!(plan.profile.as_deref(), Some("game"));
    let flags = InjectOptions { inject_method: Some("Go".into()), namespace: Some("Explicit".into()), ..opts };
    let plan = resolve_inject(&flags, &profiles, &vec![game()], &Ok(Vec::new()), Ok(bytes)).unwrap();
    assert_eq!(plan.entry, "Explicit.Boot::Go");
}

#[test]
fn remembered_assembly_path_is_reused() {
    let records = remember_at(
        Vec::new(),
        InjectionInput {
            process: game(),
            handle: AssemblyHandle::from_raw(0x10).unwrap(),
            assembly_path: Some("E:\\old.dll".into()),
            namespace: "MyMod".into(),
            class_name: "Loader".into(),
            inject_method: "Init".into(),
            eject_method: "Unload".into(),
            profile: None,
        },
        5,
    );
    let opts = InjectOptions { assembly: None, ..options() };
    let source = inject_source(&opts, &ProfilesFile::new(), &vec![game()], &Ok(records)).unwrap();
    assert_eq!(source.assembly_path, "E:\\old.dll");
    match inject_source(&opts, &ProfilesFile::new(), &vec![game()], &Ok(Vec::new())) {
        Err(Error::MissingArgument { name, flag }) => {
            assert_eq!(name, "assembly");
            assert_eq!(flag, "-a");
        }
        other => panic!("unexpected {other:?}"),
    }
}

#[test]
fn inject_failures() {
    let bytes = assembly(&[(Some("MyMod"), "Loader")]);
    match resolve_inject(&options(), &ProfilesFile::new(), &Vec::new(), &Ok(Vec::new()), Ok(bytes.clone())) {
        Err(Error::ProcessNotFound(t)) => assert_eq!(t, "Game.exe"),
        other => panic!("unexpected {other:?}"),
    }
    match resolve_inject(&options(), &ProfilesFile::new(), &vec![game()], &Ok(Vec::new()), Err("missing file".into())) {
        Err(Error::AssemblyRead(m)) => assert_eq!(m, "missing file"),
        other => panic!("unexpected {other:?}"),
    }
    assert!(matches!(
        resolve_inject(&options(), &ProfilesFile::new(), &vec![game()], &Ok(Vec::new()), Ok(b"junk".to_vec())),
        Err(Error::AssemblyMetadata(_))
    ));
    let explicit = InjectOptions { namespace: Some("N".into()), ..options() };
    assert!(matches!(
        resolve_inject(&explicit, &ProfilesFile::new(), &vec![game()], &Ok(Vec::new()), Ok(b"junk".to_vec())),
        Err(Error::AssemblyMetadata(_))
    ));
    let no_process = InjectOptions { process: None, ..options() };
    match resolve_inject(&no_process, &ProfilesFile::new(), &vec![game()], &Ok(Vec::new()), Ok(bytes.clone())) {
        Err(Error::MissingArgument { name, flag }) => {
            assert_eq!(name, "process");
            assert_eq!(flag, "-p");
        }
        other => panic!("unexpected {other:?}"),
    }
    let no_assembly = InjectOptions { assembly: None, ..options() };
    match resolve_inject(&no_assembly, &ProfilesFile::new(), &vec![game()], &Ok(Vec::new()), Ok(bytes)) {
        Err(Error::MissingArgument { name, flag }) => {
            assert_eq!(name, "assembly");
            assert_eq!(flag, "-a");
        }
        other => panic!("unexpected {other:?}"),
    }
}

#[test]
fn injecting_remembers_the_handle() {
    let bytes = assembly(&[(Some("MyMod"), "Loader")]);
    let source = inject_source(&options(), &ProfilesFile::new(), &vec![game()], &Ok(Vec::new())).unwrap();
    let prepared = prepare_inject(&options(), source, Ok(bytes)).unwrap();
    let h = AssemblyHandle::from_raw(0xbeef).unwrap();
    let (records, out) = inject(&prepared, game(), Ok(h), Ok(Vec::new())).unwrap();
    assert_eq!(out.status, "injected");
    assert_eq!(out.handle.as_deref(), Some("0xbeef"));
    assert_eq!(out.entry, "MyMod.Loader::Init");
    assert_eq!(records.len(), 1);
    assert!(is_recorded(&records, &game(), h, "MyMod", "Loader"));
    let failure = InjectorError { kind: InjectorErrorKind::MonoModuleNotFound, message: "no mono".into() };
    match inject(&prepared, game(), Err(failure), Ok(Vec::new())) {
        Err(e) => assert_eq!(e.exit_code(), 11),
        Ok(_) => panic!("expected a failure"),
    }
}

#[test]
fn readiness_steps() {
    let bytes = assembly(&[(Some("MyMod"), "Loader")]);
    let steam = InjectOptions { steam_app: Some(480), ..options() };
    let source = inject_source(&steam, &ProfilesFile::new(), &vec![game()], &Ok(Vec::new())).unwrap();
    let prepared = prepare_inject(&steam, source, Ok(bytes)).unwrap();
    assert_eq!(maybe_launch(&prepared, &Vec::new()), Some(480));
    assert_eq!(maybe_launch(&prepared, &vec![game()]), None);
    assert!(waits_for_process(&options(), &prepared));
    assert!(poll_process("Game.exe", &Vec::new(), false).is_none());
    assert!(matches!(poll_process("Game.exe", &Vec::new(), true), Some(Err(Error::ProcessWaitTimeout(_)))));
    assert!(matches!(poll_process("42", &vec![game()], true), Some(Ok(_))));
    let mods = vec!["KERNEL32.dll".to_string(), "D3D11.dll".to_string()];
    assert!(matches!(poll_module(&game(), "d3d11.dll", &mods, false), Some(Ok(()))));
    assert!(poll_module(&game(), "UnityPlayer.dll", &mods, false).is_none());
    match poll_module(&game(), "UnityPlayer.dll", &mods, true) {
        Some(Err(e)) => assert_eq!(e.message(), "timed out waiting for module 'UnityPlayer.dll' in Game.exe (42)"),
        other => panic!("unexpected {other:?}"),
    }
    assert_eq!(duration_ms(1500), 1500);
    assert_eq!(duration_ms(u128::MAX), u64::MAX);
}

#[test]
fn runtime_settings_combine_flags_and_profile() {
    let runtime = RuntimeOptions { timeout_ms: 1000, mono_module_hint: None, base_dir: Some("D:\\game".into()) };
    let profile = Profile {
        timeout_ms: Some(9000),
        mono_module: Some("mono-2.0-bdwgc".into()),
        base_dir: Some("E:\\other".into()),
        ..Profile::default()
    };
    assert_eq!(runtime.timeout_ms(Some(&profile)), 9000);
    assert_eq!(runtime.timeout_ms(None), 1000);
    assert_eq!(runtime.timeout_ms(Some(&Profile::default())), 1000);
    let config = runtime.to_config(Some(&profile));
    assert_eq!(config.timeout_ms, 9000);
    assert_eq!(config.mono_module_hint.as_deref(), Some("mono-2.0-bdwgc"));
    assert_eq!(config.base_dir.as_deref(), Some("D:\\game"));
    assert_eq!(RuntimeOptions::default().to_config(None).timeout_ms, 5000);
}

fn metadata_root(bytes: &[u8]) -> usize {
    bytes.windows(4).position(|w| w == b"BSJB").unwrap()
}

/// File offsets of the stream headers' offset fields, with the stream names.
fn stream_headers(bytes: &[u8]) -> Vec<(usize, String)> {
    let root = metadata_root(bytes);
    let version_len = u32::from_le_bytes(bytes[root + 12..root + 16].try_into().unwrap()) as usize;
    let count_at = root + 16 + version_len + 2;
    let count = u16::from_le_bytes(bytes[count_at..count_at + 2].try_into().unwrap()) as usize;
    let mut at = count_at + 2;
    let mut out = Vec::new();
    for _ in 0..count {
        let name_start = at + 8;
        let name_end = name_start + bytes[name_start..].iter().position(|b| *b == 0).unwrap();
        out.push((at, String::from_utf8(bytes[name_start..name_end].to_vec()).unwrap()));
        at = (name_end + 1 + 3) / 4 * 4;
    }
    out
}

#[test]
fn stream_past_its_section_is_refused() {
    let mut bytes = assembly(&[(Some("MyMod"), "Loader")]);
    let headers = stream_headers(&bytes);
    assert!(headers.iter().any(|(_, n)| n == "#~"));
    let (at, _) = headers[0];
    bytes[at + 4..at + 8].copy_from_slice(&0x7FFF_FFF0u32.to_le_bytes());
    match validate_assembly(&bytes) {
        Err(Error::AssemblyMetadata(m)) => assert_eq!(m, "a metadata stream, table or resource runs past its section"),
        other => panic!("unexpected {other:?}"),
    }
    assert!(matches!(infer_namespace(&bytes, "Loader"), Err(Error::AssemblyMetadata(_))));
}

#[test]
fn table_rows_past_the_tables_stream_are_refused() {
    let mut bytes = assembly(&[(Some("MyMod"), "Loader")]);
    let root = metadata_root(&bytes);
    let headers = stream_headers(&bytes);
    let (at, _) = headers.iter().find(|(_, n)| n == "#~").unwrap().clone();
    let offset = u32::from_le_bytes(bytes[at..at + 4].try_into().unwrap()) as usize;
    let rows = root + offset + 24;
    bytes[rows..rows + 4].copy_from_slice(&0xFFFF_FFF0u32.to_le_bytes());
    match validate_assembly(&bytes) {
        Err(Error::AssemblyMetadata(m)) => assert_eq!(m, "a metadata stream, table or resource runs past its section"),
        other => panic!("unexpected {other:?}"),
    }
}
