use mono_injector_core::cli::{list_processes, module_filter, profile_name, resolve_pid, status_records, status_target};
use mono_injector_core::clock::Stamp;
use mono_injector_core::error::Error;
use mono_injector_core::gui::log_strip::{format_timestamp, level_label, log_line, pad_decimal, LogEntry, LogLevel};
use mono_injector_core::gui::{count_digits, count_significant_digits, file_name, format_process_label, non_empty, parse_dur, parse_number, relative_time, relative_time_at};
use mono_injector_core::handle::AssemblyHandle;
use mono_injector_core::process::{ModuleFilter, ProcessInfo};
use mono_injector_core::profiles::{Profile, ProfilesFile};
use mono_injector_core::state::{remember_at, InjectionInput};

#[test]
fn field_helpers() {
    assert_eq!(non_empty(""), None);
    assert_eq!(non_empty("x").as_deref(), Some("x"));
    assert_eq!(format_process_label("Game.exe", 1234), "Game.exe (1234)");
    assert_eq!(parse_number("42", u64::MAX), Some(42));
    assert_eq!(parse_number("", u64::MAX), None);
    assert_eq!(parse_number("70000", u16::MAX as u64), None);
}

#[test]
fn relative_times() {
    assert_eq!(relative_time_at(100, 100), "0s ago");
    assert_eq!(relative_time_at(159, 100), "59s ago");
    assert_eq!(relative_time_at(160, 100), "1m ago");
    assert_eq!(relative_time_at(100 + 3599, 100), "59m ago");
    assert_eq!(relative_time_at(100 + 7200, 100), "2h ago");
    assert_eq!(relative_time_at(50, 100), "0s ago");
    assert!(relative_time(0).ends_with("h ago"));
}

#[test]
fn durations_typed_into_fields() {
    assert_eq!(parse_dur("120s", 1), 120_000);
    assert_eq!(parse_dur("2m", 1), 120_000);
    assert_eq!(parse_dur("1000ms", 1), 1000);
    assert_eq!(parse_dur("1s 500ms", 1), 1500);
    assert_eq!(parse_dur("0", 7), 0);
    assert_eq!(parse_dur("soon", 7), 7);
    assert_eq!(parse_dur("", 9), 9);
    assert_eq!(parse_dur("99999999999ms", 1), 99_999_999_999);
    assert_eq!(parse_dur("18446744073709551615s 1000ms", 3), 3);
    assert_eq!(count_digits("1h 30min 15s"), 5);
    assert_eq!(count_significant_digits("00 120s"), 3);
    assert_eq!(count_significant_digits("0s"), 0);
    assert_eq!(parse_dur("000000000001s", 5), 1000);
    assert_eq!(parse_dur("100000000000ms", 5), 5);
    assert_eq!(file_name("C:\\mods\\MyMod.dll").as_deref(), Some("MyMod.dll"));
    assert_eq!(file_name("mods/sub/").as_deref(), Some("sub"));
    assert_eq!(file_name("Plain.dll").as_deref(), Some("Plain.dll"));
    assert_eq!(file_name("a\\.."), None);
    assert_eq!(file_name(""), None);
    assert_eq!(file_name("foo.txt/.").as_deref(), Some("foo.txt"));
    assert_eq!(file_name("mods\\.\\MyMod.dll\\.\\").as_deref(), Some("MyMod.dll"));
    assert_eq!(file_name("C:foo.dll").as_deref(), Some("foo.dll"));
    assert_eq!(file_name("C:"), None);
    assert_eq!(file_name("."), None);
    assert_eq!(file_name("/."), None);
}

#[test]
fn log_lines() {
    assert_eq!(pad_decimal(7, 2), "07");
    assert_eq!(pad_decimal(123, 2), "123");
    assert_eq!(pad_decimal(5, 3), "005");
    let t = Stamp { secs: 3600 * 25 + 62, millis: 7 };
    assert_eq!(format_timestamp(t), "01:01:02.007");
    assert_eq!(level_label(LogLevel::Success), "[OK]");
    assert_eq!(level_label(LogLevel::Error), "[ERROR]");
    let e = LogEntry::at(LogLevel::Warn, "careful".into(), Stamp { secs: 59, millis: 999 });
    assert_eq!(log_line(&e), "00:00:59.999 [WARN] careful");
    let now = LogEntry::info("hello".into());
    assert_eq!(now.level, LogLevel::Info);
    assert_eq!(now.message, "hello");
    assert!(now.timestamp.millis < 1000);
}

#[test]
fn cli_pid_resolution() {
    let snap = vec![(30, "Game.exe".to_string()), (10, "game.exe".to_string())];
    assert_eq!(resolve_pid("77", &snap).unwrap(), 77);
    assert_eq!(resolve_pid("GAME.EXE", &snap).unwrap(), 30);
    match resolve_pid("Other.exe", &snap) {
        Err(Error::ProcessNotFound(t)) => assert_eq!(t, "Other.exe"),
        other => panic!("unexpected {other:?}"),
    }
}

#[test]
fn cli_process_listing() {
    let snap = vec![
        (30, "Game.exe".to_string()),
        (10, "Tool.exe".to_string()),
        (20, "Notepad.exe".to_string()),
    ];
    let all = list_processes(&snap, None);
    assert_eq!(all, vec![(10, "Tool.exe".to_string()), (20, "Notepad.exe".to_string()), (30, "Game.exe".to_string())]);
    assert_eq!(list_processes(&snap, Some("GAME")), vec![(30, "Game.exe".to_string())]);
    assert_eq!(list_processes(&snap, Some("EXE")).len(), 3);
    assert!(list_processes(&snap, Some("mono")).is_empty());
    assert!(list_processes(&snap, Some("missing")).is_empty());
    assert_eq!(module_filter(true, true), ModuleFilter::MonoAndUnity);
    assert_eq!(module_filter(true, false), ModuleFilter::Mono);
    assert_eq!(module_filter(false, true), ModuleFilter::Unity);
    assert_eq!(module_filter(false, false), ModuleFilter::Any);
}

#[test]
fn cli_status_selection() {
    let pos = "a".to_string();
    let alias = "b".to_string();
    assert_eq!(profile_name(Some(&pos), Some(&alias)).as_deref(), Some("b"));
    assert_eq!(profile_name(Some(&pos), None).as_deref(), Some("a"));
    assert_eq!(profile_name(None, None), None);
    let mut profiles = ProfilesFile::new();
    profiles.insert("p".into(), Profile { process: Some("Game.exe".into()), ..Profile::default() });
    let given = "Tool.exe".to_string();
    assert_eq!(status_target(Some(&given), Some("p".into()), &profiles).unwrap().as_deref(), Some("Tool.exe"));
    assert_eq!(status_target(None, Some("p".into()), &profiles).unwrap().as_deref(), Some("Game.exe"));
    assert_eq!(status_target(None, None, &profiles).unwrap(), None);
    assert!(matches!(status_target(None, Some("q".into()), &profiles), Err(Error::ProfileNotFound(_))));
    let game = ProcessInfo { pid: 4, name: "Game.exe".into(), start_time: 9 };
    let other = ProcessInfo { pid: 5, name: "Other.exe".into(), start_time: 9 };
    let mut records = Vec::new();
    for (p, raw) in [(game.clone(), 1u64), (other.clone(), 2u64)] {
        records = remember_at(
            records,
            InjectionInput {
                process: p,
                handle: AssemblyHandle::from_raw(raw).unwrap(),
                assembly_path: None,
                namespace: String::new(),
                class_name: "Loader".into(),
                inject_method: "Init".into(),
                eject_method: "Unload".into(),
                profile: None,
            },
            1,
        );
    }
    let procs = vec![game, other];
    assert_eq!(status_records(None, &procs, &records).unwrap().len(), 2);
    let only = status_records(Some("game.exe"), &procs, &records).unwrap();
    assert_eq!(only.len(), 1);
    assert_eq!(only[0].handle, "0x1");
    assert!(matches!(status_records(Some("Gone"), &procs, &records), Err(Error::ProcessNotFound(_))));
}
