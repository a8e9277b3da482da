use mono_injector_core::error::Error;
use mono_injector_core::handle::AssemblyHandle;
use mono_injector_core::process::ProcessInfo;
use mono_injector_core::state::{
    all, clean, default_state, ensure_recorded, entry_name, forget, is_live, is_recorded, legacy_state, matching,
    remember, remember_at, same_injection, CleanMode, InjectionInput, InjectionRecord, StateFile, STATE_VERSION,
};

fn game(pid: u32, start: u64) -> ProcessInfo {
    ProcessInfo { pid, name: "Game.exe".into(), start_time: start }
}

fn input(process: ProcessInfo, raw: u64, namespace: &str, class: &str) -> InjectionInput {
    InjectionInput {
        process,
        handle: AssemblyHandle::from_raw(raw).unwrap(),
        assembly_path: Some("C:\\mods\\MyMod.dll".into()),
        namespace: namespace.into(),
        class_name: class.into(),
        inject_method: "Init".into(),
        eject_method: "Unload".into(),
        profile: None,
    }
}

#[test]
fn entry_names() {
    assert_eq!(entry_name("MyMod", "Loader", "Init"), "MyMod.Loader::Init");
    assert_eq!(entry_name("", "Loader", "Unload"), "Loader::Unload");
}

#[test]
fn remembered_record_fields() {
    let records = remember_at(Vec::new(), input(game(7, 100), 0x1234, "MyMod", "Loader"), 55);
    assert_eq!(records.len(), 1);
    let r = &records[0];
    assert_eq!(r.process_name, "Game.exe");
    assert_eq!(r.pid, 7);
    assert_eq!(r.start_time, 100);
    assert_eq!(r.handle, "0x1234");
    assert_eq!(r.assembly_path.as_deref(), Some("C:\\mods\\MyMod.dll"));
    assert_eq!(r.injected_at, 55);
    assert_eq!(r.entry(), "MyMod.Loader::Unload");
    assert_eq!(r.handle_value().map(|h| h.get()), Some(0x1234));
}

#[test]
fn remembered_handle_passes_the_guard() {
    let records = remember(Vec::new(), input(game(7, 100), 0x1234, "MyMod", "Loader"));
    let h = AssemblyHandle::from_raw(0x1234).unwrap();
    assert!(is_recorded(&records, &game(7, 100), h, "MyMod", "Loader"));
    assert!(ensure_recorded(&records, &game(7, 100), h, "MyMod", "Loader").is_ok());
    assert!(!is_recorded(&records, &game(7, 100), h, "Other", "Loader"));
    assert!(!is_recorded(&records, &game(7, 100), h, "MyMod", "Other"));
}

#[test]
fn pid_reuse_is_not_matched() {
    let records = remember_at(Vec::new(), input(game(7, 100), 0x1234, "MyMod", "Loader"), 1);
    let h = AssemblyHandle::from_raw(0x1234).unwrap();
    let reused = game(7, 200);
    assert!(!records[0].matches_process(&reused));
    assert!(matching(&records, &reused, None, None).is_empty());
    match ensure_recorded(&records, &reused, h, "MyMod", "Loader") {
        Err(Error::UnrecordedAssemblyHandle { handle, process, pid }) => {
            assert_eq!(handle, "0x1234");
            assert_eq!(process, "Game.exe");
            assert_eq!(pid, 7);
        }
        other => panic!("unexpected {other:?}"),
    }
}

#[test]
fn remembering_again_replaces_the_record() {
    let first = remember_at(Vec::new(), input(game(7, 100), 0x1234, "MyMod", "Loader"), 1);
    let second = remember_at(first, input(game(7, 100), 0x1234, "MyMod", "Loader"), 2);
    assert_eq!(second.len(), 1);
    assert_eq!(second[0].injected_at, 2);
    let third = remember_at(second, input(game(7, 100), 0x5678, "MyMod", "Loader"), 3);
    assert_eq!(third.len(), 2);
    assert_eq!(third[1].handle, "0x5678");
    assert!(!same_injection(&third[0], &third[1]));
}

#[test]
fn forgetting_removes_only_that_handle_of_that_instance() {
    let mut records = remember_at(Vec::new(), input(game(7, 100), 0x1234, "MyMod", "Loader"), 1);
    records = remember_at(records, input(game(7, 100), 0x5678, "MyMod", "Loader"), 2);
    records = remember_at(records, input(game(8, 100), 0x1234, "MyMod", "Loader"), 3);
    let h = AssemblyHandle::from_raw(0x1234).unwrap();
    let kept = forget(records, &game(7, 100), h);
    assert_eq!(kept.len(), 2);
    assert_eq!(kept[0].handle, "0x5678");
    assert_eq!(kept[1].pid, 8);
    assert!(!is_recorded(&kept, &game(7, 100), h, "MyMod", "Loader"));
}

#[test]
fn matching_filters_by_instance_and_entry() {
    let mut records = remember_at(Vec::new(), input(game(7, 100), 0x1, "A", "Loader"), 1);
    records = remember_at(records, input(game(7, 100), 0x2, "B", "Loader"), 2);
    records = remember_at(records, input(game(9, 100), 0x3, "A", "Loader"), 3);
    assert_eq!(matching(&records, &game(7, 100), None, None).len(), 2);
    let a = matching(&records, &game(7, 100), Some("A"), None);
    assert_eq!(a.len(), 1);
    assert_eq!(a[0].handle, "0x1");
    assert!(matching(&records, &game(7, 100), Some("A"), Some("Other")).is_empty());
}

#[test]
fn cleaning_stale_and_all() {
    let mut records = remember_at(Vec::new(), input(game(7, 100), 0x1, "A", "Loader"), 1);
    records = remember_at(records, input(game(8, 100), 0x2, "A", "Loader"), 2);
    let live = vec![game(7, 100), game(8, 999)];
    assert!(is_live(&records[0], &live));
    assert!(!is_live(&records[1], &live));
    let (kept, removed) = clean(records.clone(), &live, CleanMode::Stale);
    assert_eq!(removed, 1);
    assert_eq!(kept.len(), 1);
    assert_eq!(kept[0].pid, 7);
    let (again, removed_again) = clean(kept, &live, CleanMode::Stale);
    assert_eq!(removed_again, 0);
    assert_eq!(again.len(), 1);
    let (none, removed_all) = clean(records, &live, CleanMode::All);
    assert!(none.is_empty());
    assert_eq!(removed_all, 2);
}

#[test]
fn default_and_all() {
    let s = default_state();
    assert_eq!(s.version, STATE_VERSION);
    assert_eq!(STATE_VERSION, 2);
    assert!(s.injections.is_empty());
    let records = remember_at(Vec::new(), input(game(7, 100), 0x1, "A", "Loader"), 1);
    let state = StateFile { version: 2, injections: records };
    assert_eq!(all(state).len(), 1);
}

#[test]
fn legacy_state_lines() {
    let s = legacy_state("12\t345\t0xabc\tMyMod\tLoader\nbad line\n13\tx\t0x1\tA\tB\r\n14\t5\t0x2\tN\tC\textra");
    assert_eq!(s.version, STATE_VERSION);
    assert_eq!(s.injections.len(), 2);
    let r: &InjectionRecord = &s.injections[0];
    assert_eq!(r.process_name, "pid:12");
    assert_eq!(r.pid, 12);
    assert_eq!(r.start_time, 345);
    assert_eq!(r.handle, "0xabc");
    assert_eq!(r.namespace, "MyMod");
    assert_eq!(r.class_name, "Loader");
    assert_eq!(r.inject_method, "Init");
    assert_eq!(r.eject_method, "Unload");
    assert_eq!(r.assembly_path, None);
    assert_eq!(r.profile, None);
    assert_eq!(r.injected_at, 0);
    assert_eq!(s.injections[1].pid, 14);
    assert_eq!(s.injections[1].class_name, "C");
}
