use mono_injector_core::clock::Stamp;
use mono_injector_core::gui::app::{App, AppTask, Message, Work, MAX_LOG_ENTRIES};
use mono_injector_core::gui::eject::{self, EjectMsg, EjectState, EjectTask};
use mono_injector_core::gui::inject::{self, InjectMsg, InjectState, InjectTask};
use mono_injector_core::gui::log_strip::{LogEntry, LogLevel};
use mono_injector_core::gui::nav;
use mono_injector_core::gui::processes::{
    self, matches_runtime_filter, process_row, runtime_type, visible_processes, ProcessesMsg, ProcessesState, RowShade,
    RuntimeFilter,
};
use mono_injector_core::gui::profiles::{self, draft_to_profile, DraftField, ProfileDraft, ProfilesMsg, ProfilesState, ProfilesTask};
use mono_injector_core::gui::status::{
    self, build_record_rows, record_row, visible_rows, RecordRow, StatusMsg, StatusState, StatusTask,
};
use mono_injector_core::handle::AssemblyHandle;
use mono_injector_core::operations::EjectOutput;
use mono_injector_core::process::{ModuleFilter, ProcessInfo, ProcessListing};
use mono_injector_core::profiles::{Profile, ProfileSummary};
use mono_injector_core::state::{remember_at, CleanMode, InjectionInput, InjectionRecord};

fn record(pid: u32, name: &str, raw: u64) -> InjectionRecord {
    remember_at(
        Vec::new(),
        InjectionInput {
            process: ProcessInfo { pid, name: name.into(), start_time: 5 },
            handle: AssemblyHandle::from_raw(raw).unwrap(),
            assembly_path: None,
            namespace: "MyMod".into(),
            class_name: "Loader".into(),
            inject_method: "Init".into(),
            eject_method: "Stop".into(),
            profile: None,
        },
        1,
    )
    .pop()
    .unwrap()
}

fn listing(pid: u32, name: &str, modules: &[&str]) -> ProcessListing {
    ProcessListing { pid, name: name.into(), matched_modules: modules.iter().map(|m| m.to_string()).collect() }
}

#[test]
fn eject_panel_flow() {
    let mut s = EjectState::default();
    assert_eq!(s.method_input, "Unload");
    assert!(s.latest_enabled && s.danger_expanded);
    assert!(matches!(eject::update(&mut s, EjectMsg::LoadRecords), EjectTask::LoadRecords));
    eject::update(&mut s, EjectMsg::RecordsLoaded(Ok(vec![record(7, "Game.exe", 0x10), record(7, "Game.exe", 0x20)])));
    assert_eq!(s.active_records.len(), 2);
    eject::update(&mut s, EjectMsg::HandleChanged("0x20".into()));
    assert_eq!(s.handle_input, "0x20");
    assert_eq!(s.resolved_record.as_ref().map(|r| r.handle.as_str()), Some("0x20"));
    eject::update(&mut s, EjectMsg::HandleChanged("0x30".into()));
    assert!(s.resolved_record.is_none());
    eject::update(&mut s, EjectMsg::PickRecord(record(7, "Game.exe", 0x10)));
    assert_eq!(s.handle_input, "0x10");
    assert_eq!(s.method_input, "Stop");
    assert_eq!(s.namespace_input, "MyMod");
    eject::update(&mut s, EjectMsg::ProcessChanged("Game.exe".into()));
    eject::update(&mut s, EjectMsg::RawHandleChanged("0xdead".into()));
    match eject::update(&mut s, EjectMsg::EjectClicked) {
        EjectTask::Eject(o) => {
            assert_eq!(o.process.as_deref(), Some("Game.exe"));
            assert_eq!(o.handle.as_deref(), Some("0x10"));
            assert_eq!(o.raw_handle, None);
            assert!(o.latest && !o.force);
            assert_eq!(o.runtime.timeout_ms, 5000);
        }
        other => panic!("unexpected {other:?}"),
    }
    assert!(s.eject_running);
    eject::update(&mut s, EjectMsg::ForceToggled(true));
    match eject::update(&mut s, EjectMsg::EjectClicked) {
        EjectTask::Eject(o) => assert_eq!(o.raw_handle.as_deref(), Some("0xdead")),
        other => panic!("unexpected {other:?}"),
    }
    eject::update(&mut s, EjectMsg::EjectDone(Err("boom".into())));
    assert!(!s.eject_running);
    assert_eq!(s.last_error.as_deref(), Some("boom"));
    assert_eq!(s.handle_input, "0x10");
    let out = EjectOutput {
        status: "ejected".into(),
        process: ProcessInfo { pid: 7, name: "Game.exe".into(), start_time: 5 },
        handle: "0x10".into(),
        entry: "MyMod.Loader::Stop".into(),
        profile: None,
    };
    let msg = EjectMsg::EjectDone(Ok(out));
    let entry = msg.log_entry().unwrap();
    assert_eq!(entry.level, LogLevel::Success);
    assert_eq!(entry.message, "Ejected MyMod.Loader::Stop from Game.exe");
    eject::update(&mut s, msg);
    assert!(s.last_error.is_none());
    assert_eq!(s.handle_input, "");
    assert!(s.resolved_record.is_none());
    eject::update(&mut s, EjectMsg::RecordsLoaded(Err("denied".into())));
    assert!(s.active_records.is_empty());
    assert_eq!(EjectMsg::EjectDone(Err("x".into())).log_entry().unwrap().message, "Eject failed: x");
    assert!(EjectMsg::DangerToggled.log_entry().is_none());
}

#[test]
fn inject_panel_flow() {
    let mut s = InjectState::default();
    assert_eq!(s.class_input, "Loader");
    assert_eq!(s.wait_timeout, "120s");
    match inject::update(&mut s, InjectMsg::RefreshProcesses) {
        InjectTask::RefreshProcesses(o) => {
            assert_eq!(o.module_filter, ModuleFilter::MonoAndUnity);
            assert!(o.include_modules);
        }
        other => panic!("unexpected {other:?}"),
    }
    inject::update(&mut s, InjectMsg::ProcessSelected("Game.exe (42)".into()));
    inject::update(&mut s, InjectMsg::AssemblyPathChanged("C:\\m.dll".into()));
    inject::update(&mut s, InjectMsg::WaitTimeoutChanged("2m".into()));
    inject::update(&mut s, InjectMsg::PollIntervalChanged("oops".into()));
    inject::update(&mut s, InjectMsg::SettleChanged("250".into()));
    inject::update(&mut s, InjectMsg::SteamToggled(true));
    inject::update(&mut s, InjectMsg::SteamAppIdChanged("480".into()));
    inject::update(&mut s, InjectMsg::TimeoutChanged("abc".into()));
    inject::update(&mut s, InjectMsg::WaitModuleChanged("UnityPlayer.dll".into()));
    inject::update(&mut s, InjectMsg::TimingToggled);
    assert!(!s.timing_expanded);
    match inject::update(&mut s, InjectMsg::DryRunClicked) {
        InjectTask::Inject { options, dry_run } => {
            assert!(dry_run);
            assert_eq!(options.process.as_deref(), Some("Game.exe (42)"));
            assert_eq!(options.assembly.as_deref(), Some("C:\\m.dll"));
            assert_eq!(options.namespace, None);
            assert_eq!(options.class_name.as_deref(), Some("Loader"));
            assert_eq!(options.wait_timeout_ms, 120_000);
            assert_eq!(options.poll_interval_ms, 1000);
            assert_eq!(options.settle_delay_ms, Some(250));
            assert_eq!(options.steam_app, Some(480));
            assert_eq!(options.wait_module, None);
            assert_eq!(options.runtime.timeout_ms, 5000);
            assert_eq!(options.runtime.mono_module_hint.as_deref(), Some("mono"));
        }
        other => panic!("unexpected {other:?}"),
    }
    assert!(s.inject_running);
    inject::update(&mut s, InjectMsg::InjectDone(Err("nope".into())));
    assert!(!s.inject_running);
    assert_eq!(s.last_error.as_deref(), Some("nope"));
    inject::update(&mut s, InjectMsg::SettleChanged("0".into()));
    inject::update(&mut s, InjectMsg::WaitForModuleToggled(true));
    match inject::update(&mut s, InjectMsg::InjectClicked) {
        InjectTask::Inject { options, dry_run } => {
            assert!(!dry_run);
            assert_eq!(options.settle_delay_ms, None);
            assert_eq!(options.wait_module.as_deref(), Some("UnityPlayer.dll"));
        }
        other => panic!("unexpected {other:?}"),
    }
    let profile = Profile {
        process: Some("Other.exe".into()),
        timeout_ms: Some(9000),
        steam_app: Some(12),
        ..Profile::default()
    };
    inject::update(&mut s, InjectMsg::ProfileLoaded(Ok(profile)));
    assert_eq!(s.process_input, "Other.exe");
    assert_eq!(s.timeout_ms, "9000");
    assert_eq!(s.steam_app_id, "12");
    assert_eq!(s.assembly_path, "C:\\m.dll");
    inject::update(&mut s, InjectMsg::ProfileLoaded(Err("x".into())));
    assert_eq!(s.process_input, "Other.exe");
    inject::update(&mut s, InjectMsg::BrowseResult(Some("D:\\n.dll".into())));
    assert_eq!(s.assembly_path, "D:\\n.dll");
    inject::update(&mut s, InjectMsg::BrowseResult(None));
    assert_eq!(s.assembly_path, "D:\\n.dll");
    assert!(matches!(inject::update(&mut s, InjectMsg::BrowseAssembly), InjectTask::BrowseAssembly));
    match inject::update(&mut s, InjectMsg::ProfileSelected("p".into())) {
        InjectTask::LoadProfile(n) => assert_eq!(n, "p"),
        other => panic!("unexpected {other:?}"),
    }
}

#[test]
fn process_browser() {
    let unity = listing(3, "Game.exe", &["UnityPlayer.dll", "mono-2.0.dll"]);
    let mono = listing(1, "Tool.exe", &["MONO.dll"]);
    let plain = listing(2, "Notepad.exe", &[]);
    assert_eq!(runtime_type(&unity), Some(RuntimeFilter::Unity));
    assert_eq!(runtime_type(&mono), Some(RuntimeFilter::Mono));
    assert_eq!(runtime_type(&plain), None);
    assert!(matches_runtime_filter(&plain, RuntimeFilter::All));
    assert!(!matches_runtime_filter(&plain, RuntimeFilter::Mono));
    assert!(!matches_runtime_filter(&unity, RuntimeFilter::Mono));
    assert_eq!(RuntimeFilter::Unity.as_str(), "Unity");
    let mut s = ProcessesState::default();
    processes::update(&mut s, ProcessesMsg::Load);
    assert!(s.loading);
    processes::update(&mut s, ProcessesMsg::Loaded(vec![unity, mono, plain]));
    assert!(!s.loading);
    processes::update(&mut s, ProcessesMsg::RuntimeFilterChanged(RuntimeFilter::Mono));
    let shown: Vec<u32> = visible_processes(&s).iter().map(|p| p.pid).collect();
    assert_eq!(shown, vec![1]);
    processes::update(&mut s, ProcessesMsg::RuntimeFilterChanged(RuntimeFilter::All));
    processes::update(&mut s, ProcessesMsg::FilterChanged("GAME".into()));
    let shown: Vec<u32> = visible_processes(&s).iter().map(|p| p.pid).collect();
    assert_eq!(shown, vec![3]);
    processes::update(&mut s, ProcessesMsg::SelectPid(3));
    assert_eq!(s.selected_pid, Some(3));
}

#[test]
fn profile_manager() {
    let p = Profile {
        process: Some("Game.exe".into()),
        timeout_ms: Some(250),
        settle_ms: Some(3000),
        ..Profile::default()
    };
    let draft = ProfileDraft::from_named("game", &p);
    assert_eq!(draft.name, "game");
    assert_eq!(draft.timeout_ms, "250");
    assert_eq!(draft.settle_ms, "3000");
    assert_eq!(draft.steam_app, "");
    assert_eq!(draft_to_profile(&draft), p);
    let mut s = ProfilesState::default();
    profiles::update(&mut s, ProfilesMsg::Loaded(Ok(vec![ProfileSummary { name: "game".into(), profile: p.clone() }])));
    profiles::update(&mut s, ProfilesMsg::Select(0));
    profiles::update(&mut s, ProfilesMsg::EditClicked);
    assert!(s.editing);
    assert_eq!(s.draft.process, "Game.exe");
    profiles::update(&mut s, ProfilesMsg::DraftChanged(DraftField::SteamApp, "480".into()));
    profiles::update(&mut s, ProfilesMsg::DraftChanged(DraftField::TimeoutMs, "x".into()));
    match profiles::update(&mut s, ProfilesMsg::SaveClicked) {
        ProfilesTask::Save { name, profile } => {
            assert_eq!(name, "game");
            assert_eq!(profile.steam_app, Some(480));
            assert_eq!(profile.timeout_ms, None);
        }
        other => panic!("unexpected {other:?}"),
    }
    assert!(matches!(profiles::update(&mut s, ProfilesMsg::Saved(Ok(()))), ProfilesTask::LoadProfiles));
    assert!(!s.editing);
    profiles::update(&mut s, ProfilesMsg::DeleteClicked);
    assert!(s.confirm_delete);
    match profiles::update(&mut s, ProfilesMsg::ConfirmDelete) {
        ProfilesTask::Delete(n) => assert_eq!(n, "game"),
        other => panic!("unexpected {other:?}"),
    }
    profiles::update(&mut s, ProfilesMsg::Deleted(Ok(())));
    assert_eq!(s.selected_index, None);
    assert!(matches!(profiles::update(&mut s, ProfilesMsg::ConfirmDelete), ProfilesTask::Idle));
    assert_eq!(ProfilesMsg::Saved(Err("disk".into())).log_entry().unwrap().message, "Save failed: disk");
    assert_eq!(ProfilesMsg::DeleteClicked.log_entry().unwrap().level, LogLevel::Warn);
    profiles::update(&mut s, ProfilesMsg::NewProfile);
    assert!(s.editing);
    assert_eq!(s.draft.name, "");
}

#[test]
fn status_panel() {
    let live = vec![ProcessInfo { pid: 7, name: "Game.exe".into(), start_time: 5 }];
    let rows = build_record_rows(vec![record(7, "Game.exe", 0x1), record(8, "Tool.exe", 0x2)], &live);
    assert!(!rows[0].is_stale);
    assert!(rows[1].is_stale);
    let mut s = StatusState::default();
    assert!(matches!(status::update(&mut s, StatusMsg::Load), StatusTask::LoadRecords));
    status::update(&mut s, StatusMsg::Loaded(Ok(rows)));
    assert!(!s.loading);
    status::update(&mut s, StatusMsg::FilterChanged("TOOL".into()));
    assert_eq!(visible_rows(&s), vec![1]);
    status::update(&mut s, StatusMsg::FilterChanged(String::new()));
    assert_eq!(visible_rows(&s), vec![0, 1]);
    assert!(matches!(status::update(&mut s, StatusMsg::CleanStale), StatusTask::Clean(CleanMode::Stale)));
    assert!(matches!(status::update(&mut s, StatusMsg::CleanAll), StatusTask::Idle));
    assert!(s.confirm_clean_all);
    assert!(matches!(status::update(&mut s, StatusMsg::ConfirmCleanAll), StatusTask::Clean(CleanMode::All)));
    assert!(!s.confirm_clean_all);
    assert_eq!(StatusMsg::Cleaned(Ok(3)).log_entry().unwrap().message, "Cleaned 3 injection record(s)");
    assert!(matches!(status::update(&mut s, StatusMsg::Cleaned(Ok(3))), StatusTask::LoadRecords));
    assert!(matches!(status::update(&mut s, StatusMsg::Cleaned(Err("e".into()))), StatusTask::Idle));
}

fn next_kinds(t: &AppTask) -> Vec<String> {
    t.next.iter().map(|m| format!("{m:?}")).collect()
}

#[test]
fn app_routing_and_log() {
    let mut app = App::default();
    assert_eq!(app.active_view, nav::View::Inject);
    let t = app.update(Message::Navigate(nav::View::Status));
    assert_eq!(app.active_view, nav::View::Status);
    assert!(next_kinds(&t)[0].contains("Load"));
    for i in 0..(MAX_LOG_ENTRIES + 5) {
        app.update(Message::Log(LogEntry::at(LogLevel::Info, format!("m{i}"), Stamp { secs: 0, millis: 0 })));
    }
    assert_eq!(app.log_entries.len(), MAX_LOG_ENTRIES);
    assert_eq!(app.log_entries[0].message, "m5");
    app.update(Message::Error("bad".into()));
    assert_eq!(app.log_entries.len(), MAX_LOG_ENTRIES);
    assert_eq!(app.log_entries.last().unwrap().level, LogLevel::Error);
    app.update(Message::Eject(EjectMsg::EjectDone(Err("full".into()))));
    assert_eq!(app.log_entries.len(), MAX_LOG_ENTRIES);
    assert_eq!(app.log_entries[0].message, "m7");
    assert_eq!(app.log_entries.last().unwrap().level, LogLevel::Error);
    app.update(Message::ClearLogs);
    assert!(app.log_entries.is_empty());
    let t = app.update(Message::Processes(ProcessesMsg::SendToInject(listing(9, "Game.exe", &[]))));
    assert_eq!(app.inject.process_input, "Game.exe (9)");
    assert_eq!(t.next.len(), 2);
    match &t.next[1] {
        Message::Log(e) => assert_eq!(e.message, "Process Game.exe selected from browser"),
        other => panic!("unexpected {other:?}"),
    }
    let t = app.update(Message::Status(StatusMsg::EjectRecord(record(7, "Game.exe", 0x44))));
    assert!(matches!(t.work, Work::Idle));
    assert_eq!(app.eject.handle_input, "0x44");
    assert_eq!(app.eject.method_input, "Stop");
    assert_eq!(app.eject.process_input, "Game.exe");
    let t = app.update(Message::Eject(EjectMsg::EjectDone(Err("no".into()))));
    assert!(t.next.is_empty());
    assert_eq!(app.log_entries.len(), 1);
    assert_eq!(app.subscription(), None);
    app.update(Message::Navigate(nav::View::Processes));
    assert_eq!(app.subscription(), Some(5000));
    app.profiles.profiles = vec![ProfileSummary { name: "p".into(), profile: Profile::default() }];
    app.profiles.selected_index = Some(0);
    let t = app.update(Message::Profiles(ProfilesMsg::InjectWithProfile));
    assert_eq!(app.inject.profile_selection.as_deref(), Some("p"));
    assert!(next_kinds(&t)[0].contains("Inject"));
}

#[test]
fn picker_and_read_only_values() {
    let mut s = InjectState::default();
    inject::update(&mut s, InjectMsg::ProcessesLoaded(vec![
        listing(1, "Game.exe", &["mono.dll"]),
        listing(2, "Tool.exe", &[]),
        listing(3, "MyGAME2.exe", &[]),
    ]));
    let all: Vec<u32> = inject::picker_processes(&s).iter().map(|p| p.pid).collect();
    assert_eq!(all, vec![1, 2, 3]);
    inject::update(&mut s, InjectMsg::ProcessFilterChanged("game".into()));
    let some: Vec<u32> = inject::picker_processes(&s).iter().map(|p| p.pid).collect();
    assert_eq!(some, vec![1, 3]);
    assert_eq!(profiles::str_or_dash(Some("x")), "x");
    assert_eq!(profiles::str_or_dash(None), "\u{2014}");
    assert_eq!(profiles::num_or_dash(Some(42)), "42");
    assert_eq!(profiles::num_or_dash(None), "\u{2014}");
}

#[test]
fn table_rows_and_buttons() {
    let p = listing(255, "Game.exe", &["UnityPlayer.dll", "mono.dll"]);
    let row = process_row(&p, true, false, true);
    assert_eq!(row.shade, RowShade::Odd);
    assert_eq!(row.pid_text, "0xFF");
    assert_eq!(row.runtime, Some(RuntimeFilter::Unity));
    assert_eq!(row.modules_text.as_deref(), Some("UnityPlayer.dll, mono.dll"));
    assert!(!row.send_to_inject);
    let row = process_row(&p, false, true, false);
    assert_eq!(row.shade, RowShade::Highlighted);
    assert_eq!(row.modules_text, None);
    assert!(row.send_to_inject);
    let rec = RecordRow { record: record(12, "Game.exe", 0xab), is_stale: true };
    let v = record_row(&rec, false, 1 + 125);
    assert_eq!(v.shade, RowShade::Highlighted);
    assert!(v.stale);
    assert_eq!(v.pid_text, "12");
    assert_eq!(v.entry, "MyMod.Loader::Stop");
    assert_eq!(v.handle, "0xab");
    assert_eq!(v.injected, "2m ago");
    assert_eq!(v.assembly, "\u{2014}");
    let mut with_path = record(13, "Game.exe", 0xac);
    with_path.assembly_path = Some("C:\\mods\\MyMod.dll".into());
    let v = record_row(&RecordRow { record: with_path, is_stale: false }, true, 1);
    assert_eq!(v.assembly, "MyMod.dll");
    assert_eq!(v.shade, RowShade::Odd);
    let mut s = InjectState::default();
    assert_eq!(inject::assembly_hint(&s), None);
    s.assembly_path = "D:/games/mods/Trainer.dll".into();
    assert_eq!(inject::assembly_hint(&s).as_deref(), Some("Trainer.dll"));
    s.assembly_path = "C:\\".into();
    assert_eq!(inject::assembly_hint(&s).as_deref(), Some(""));
    s.assembly_path = "C:\\Games\\".into();
    assert_eq!(inject::assembly_hint(&s).as_deref(), Some("Games"));
    s.assembly_path = String::new();
    assert_eq!(inject::inject_button(&s), ("INJECT", true));
    s.inject_running = true;
    assert_eq!(inject::inject_button(&s), ("INJECTING...", false));
    let mut e = EjectState::default();
    assert_eq!(eject::eject_button(&e), ("EJECT ASSEMBLY", true));
    assert_eq!(eject::attached_process(&e), "\u{2014}");
    e.process_input = "Game.exe".into();
    assert_eq!(eject::attached_process(&e), "Game.exe");
}
