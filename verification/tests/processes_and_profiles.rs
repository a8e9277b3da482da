use mono_injector_core::error::Error;
use mono_injector_core::process::{
    find_by_name, find_by_pid, list_processes, listing, module_matches, needs_modules, resolve_process,
    selected_modules, ListOptions, ModuleFilter, ProcessInfo,
};
use mono_injector_core::profiles::{get_profile, list_profiles, Profile, ProfilesFile};

fn proc(pid: u32, name: &str) -> ProcessInfo {
    ProcessInfo { pid, name: name.into(), start_time: pid as u64 * 10 }
}

fn modules(names: &[&str]) -> Vec<String> {
    names.iter().map(|s| s.to_string()).collect()
}

#[test]
fn resolving_by_pid_and_name() {
    let ps = vec![proc(30, "Game.exe"), proc(10, "game.exe"), proc(20, "Other.exe")];
    assert_eq!(resolve_process(&ps, "20").unwrap().name, "Other.exe");
    assert_eq!(resolve_process(&ps, "GAME.EXE").unwrap().pid, 30);
    match resolve_process(&ps, "99") {
        Err(Error::ProcessNotFound(t)) => assert_eq!(t, "99"),
        other => panic!("unexpected {other:?}"),
    }
    match resolve_process(&ps, "Missing.exe") {
        Err(Error::ProcessNotFound(t)) => assert_eq!(t, "Missing.exe"),
        other => panic!("unexpected {other:?}"),
    }
    assert_eq!(find_by_pid(&ps, 10).map(|p| p.name), Some("game.exe".to_string()));
    assert!(find_by_pid(&ps, 11).is_none());
    assert_eq!(find_by_name(&ps, "other.EXE").map(|p| p.pid), Some(20));
}

#[test]
fn module_selection_rules() {
    let opts = ListOptions { filter: None, module_filter: ModuleFilter::Any, include_modules: false };
    assert!(!needs_modules(&opts));
    let mods = modules(&["kernel32.dll", "mono-2.0-bdwgc.dll", "UnityPlayer.dll"]);
    let mono = ListOptions { filter: None, module_filter: ModuleFilter::Mono, include_modules: false };
    assert!(needs_modules(&mono));
    assert_eq!(selected_modules(&mods, &mono), modules(&["mono-2.0-bdwgc.dll"]));
    let all = ListOptions { filter: None, module_filter: ModuleFilter::Any, include_modules: true };
    assert_eq!(selected_modules(&mods, &all), mods);
    let filt = ListOptions { filter: Some("KERNEL".into()), module_filter: ModuleFilter::Any, include_modules: false };
    assert_eq!(selected_modules(&mods, &filt), modules(&["kernel32.dll"]));
    assert!(module_matches(&mods, "unityplayer"));
    assert!(!module_matches(&mods, "d3d11"));
}

#[test]
fn listing_rows() {
    let mono = ListOptions { filter: None, module_filter: ModuleFilter::Mono, include_modules: false };
    let with_mono = listing(&proc(5, "Game.exe"), &modules(&["mono.dll"]), &mono).unwrap();
    assert_eq!(with_mono.pid, 5);
    assert_eq!(with_mono.matched_modules, modules(&["mono.dll"]));
    assert!(listing(&proc(6, "Tool.exe"), &modules(&["kernel32.dll"]), &mono).is_none());
    let unity = ListOptions { filter: None, module_filter: ModuleFilter::Unity, include_modules: false };
    assert!(listing(&proc(7, "Unity.exe"), &modules(&[]), &unity).is_some());
    let both = ListOptions { filter: None, module_filter: ModuleFilter::MonoAndUnity, include_modules: false };
    assert!(listing(&proc(8, "Game.exe"), &modules(&["mono.dll"]), &both).is_none());
    assert!(listing(&proc(8, "Game.exe"), &modules(&["mono.dll", "UnityPlayer.dll"]), &both).is_some());
    let filt = ListOptions { filter: Some("gam".into()), module_filter: ModuleFilter::Any, include_modules: false };
    assert!(listing(&proc(9, "GAME.exe"), &modules(&[]), &filt).is_some());
    assert!(listing(&proc(9, "Tool.exe"), &modules(&[]), &filt).is_none());
}

#[test]
fn listing_is_sorted_by_pid() {
    let entries = vec![
        (proc(30, "C.exe"), modules(&["mono.dll"])),
        (proc(10, "A.exe"), modules(&["kernel32.dll"])),
        (proc(20, "B.exe"), modules(&["mono.dll"])),
        (proc(20, "B2.exe"), modules(&["mono.dll"])),
    ];
    let all = ListOptions { filter: None, module_filter: ModuleFilter::Any, include_modules: false };
    let r = list_processes(&entries, &all);
    let pids: Vec<u32> = r.iter().map(|l| l.pid).collect();
    assert_eq!(pids, vec![10, 20, 20, 30]);
    assert_eq!(r[1].name, "B.exe");
    assert_eq!(r[2].name, "B2.exe");
    assert!(r.iter().all(|l| l.matched_modules.is_empty()));
    let mono = ListOptions { filter: None, module_filter: ModuleFilter::Mono, include_modules: false };
    let r = list_processes(&entries, &mono);
    let pids: Vec<u32> = r.iter().map(|l| l.pid).collect();
    assert_eq!(pids, vec![20, 20, 30]);
}

fn profile_for(process: &str) -> Profile {
    Profile { process: Some(process.into()), ..Profile::default() }
}

#[test]
fn profiles_in_file_order() {
    let file = ProfilesFile::from_entries(vec![
        ("zeta".into(), profile_for("Z.exe")),
        ("alpha".into(), profile_for("A.exe")),
        ("zeta".into(), profile_for("Z2.exe")),
    ]);
    assert_eq!(get_profile(&file, "zeta").unwrap().process.as_deref(), Some("Z2.exe"));
    match get_profile(&file, "missing") {
        Err(Error::ProfileNotFound(n)) => assert_eq!(n, "missing"),
        other => panic!("unexpected {other:?}"),
    }
    let list = list_profiles(file);
    let names: Vec<&str> = list.iter().map(|s| s.name.as_str()).collect();
    assert_eq!(names, vec!["zeta", "alpha"]);
    assert_eq!(list[0].profile.process.as_deref(), Some("Z2.exe"));
    let mut file = ProfilesFile::from_entries(vec![("b".into(), profile_for("B.exe")), ("a".into(), profile_for("A.exe"))]);
    file.insert("c".into(), profile_for("C.exe"));
    file.insert("b".into(), profile_for("B2.exe"));
    let names: Vec<String> = list_profiles(file).into_iter().map(|s| s.name).collect();
    assert_eq!(names, vec!["b", "a", "c"]);
}

#[test]
fn saved_profile_loads_and_deleted_profile_is_gone() {
    let mut file = ProfilesFile::new();
    file.insert("game".into(), profile_for("Game.exe"));
    file.insert("tool".into(), profile_for("Tool.exe"));
    assert_eq!(get_profile(&file, "game").unwrap(), profile_for("Game.exe"));
    file.insert("game".into(), profile_for("Game2.exe"));
    assert_eq!(get_profile(&file, "game").unwrap(), profile_for("Game2.exe"));
    assert_eq!(file.remove("game"), Some(profile_for("Game2.exe")));
    assert!(get_profile(&file, "game").is_err());
    assert_eq!(get_profile(&file, "tool").unwrap(), profile_for("Tool.exe"));
    assert_eq!(file.remove("game"), None);
    assert_eq!(Profile::default(), Profile {
        process: None,
        assembly: None,
        namespace: None,
        class_name: None,
        inject_method: None,
        eject_method: None,
        mono_module: None,
        base_dir: None,
        timeout_ms: None,
        wait_module: None,
        settle_ms: None,
        steam_app: None,
    });
}
