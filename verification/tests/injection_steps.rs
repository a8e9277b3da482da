use mono_injector_core::error::Error;
use mono_injector_core::handle::AssemblyHandle;
use mono_injector_core::operations::inject::PreparedInject;
use mono_injector_core::operations::steps::{inject_step, start_injection, InjectAction, InjectEvent, InjectStage};
use mono_injector_core::operations::InjectOptions;
use mono_injector_core::process::ProcessInfo;
use mono_injector_core::runtime::RuntimeOptions;
use mono_injector_core::state::is_recorded;

fn game() -> ProcessInfo {
    ProcessInfo { pid: 42, name: "Game.exe".into(), start_time: 1000 }
}

fn options(wait_for_process: bool) -> InjectOptions {
    InjectOptions {
        profile_name: None,
        process: Some("Game.exe".into()),
        assembly: Some("C:\\mods\\MyMod.dll".into()),
        namespace: None,
        class_name: None,
        inject_method: None,
        eject_method: None,
        wait_for_process,
        wait_timeout_ms: 120_000,
        poll_interval_ms: 250,
        wait_module: None,
        disable_wait_module: false,
        settle_delay_ms: None,
        steam_app: None,
        runtime: RuntimeOptions::default(),
    }
}

fn prepared(steam_app: Option<u32>, wait_module: Option<&str>, settle_ms: u64) -> PreparedInject {
    PreparedInject {
        profile_name: None,
        profile: None,
        process_name: "Game.exe".into(),
        assembly_path: "C:\\mods\\MyMod.dll".into(),
        assembly: vec![0x4d, 0x5a],
        namespace: "MyMod".into(),
        class_name: "Loader".into(),
        method_name: "Init".into(),
        eject_method: "Unload".into(),
        wait_module: wait_module.map(|m| m.to_string()),
        settle_ms,
        steam_app,
    }
}

fn snapshot(processes: Vec<ProcessInfo>, deadline_passed: bool) -> InjectEvent {
    InjectEvent::Processes { snapshot: processes, deadline_passed }
}

fn modules(names: &[&str], deadline_passed: bool) -> InjectEvent {
    InjectEvent::Modules { names: names.iter().map(|n| n.to_string()).collect(), deadline_passed }
}

#[test]
fn steam_launch_walks_every_stage() {
    let opts = options(false);
    let prep = prepared(Some(480), Some("d3d11.dll"), 8000);
    let (stage, action) = start_injection();
    assert!(matches!(stage, InjectStage::Start));
    assert!(matches!(action, InjectAction::Snapshot { after_ms: 0 }));

    let (stage, action) = inject_step(&opts, &prep, stage, snapshot(Vec::new(), false));
    assert!(matches!(stage, InjectStage::Launching(480)));
    match action {
        InjectAction::LaunchSteam { app_id, uri } => {
            assert_eq!(app_id, 480);
            assert_eq!(uri, "steam://rungameid/480");
        }
        other => panic!("unexpected {other:?}"),
    }

    let (stage, action) = inject_step(&opts, &prep, stage, InjectEvent::Launched(Ok(())));
    assert!(matches!(stage, InjectStage::Locating));
    assert!(matches!(action, InjectAction::Snapshot { after_ms: 0 }));

    let (stage, action) = inject_step(&opts, &prep, stage, snapshot(Vec::new(), false));
    assert!(matches!(stage, InjectStage::Locating));
    assert!(matches!(action, InjectAction::Snapshot { after_ms: 250 }));

    let (stage, action) = inject_step(&opts, &prep, stage, snapshot(vec![game()], false));
    match &stage {
        InjectStage::AwaitModule(p) => assert_eq!(*p, game()),
        other => panic!("unexpected {other:?}"),
    }
    assert!(matches!(action, InjectAction::ListModules { pid: 42, after_ms: 0 }));

    let (stage, action) = inject_step(&opts, &prep, stage, modules(&["KERNEL32.dll"], false));
    assert!(matches!(stage, InjectStage::AwaitModule(_)));
    assert!(matches!(action, InjectAction::ListModules { pid: 42, after_ms: 250 }));

    let (stage, action) = inject_step(&opts, &prep, stage, modules(&["KERNEL32.dll", "C:\\Windows\\D3D11.dll"], false));
    assert!(matches!(stage, InjectStage::Settling(_)));
    assert!(matches!(action, InjectAction::Sleep(8000)));

    let (stage, action) = inject_step(&opts, &prep, stage, InjectEvent::Slept);
    assert!(matches!(stage, InjectStage::Calling(_)));
    match &action {
        InjectAction::Call(p) => assert_eq!(*p, game()),
        other => panic!("unexpected {other:?}"),
    }

    let h = AssemblyHandle::from_raw(0xbeef).unwrap();
    let called = InjectEvent::Called { outcome: Ok(h), records: Ok(Vec::new()) };
    let (stage, action) = inject_step(&opts, &prep, stage, called);
    assert!(matches!(stage, InjectStage::Finished));
    match action {
        InjectAction::Finish(Ok((records, out))) => {
            assert_eq!(records.len(), 1);
            assert!(is_recorded(&records, &game(), h, "MyMod", "Loader"));
            assert_eq!(out.status, "injected");
            assert_eq!(out.handle.as_deref(), Some("0xbeef"));
            assert_eq!(out.entry, "MyMod.Loader::Init");
        }
        other => panic!("unexpected {other:?}"),
    }

    let (stage, action) = inject_step(&opts, &prep, stage, InjectEvent::Slept);
    assert!(matches!(stage, InjectStage::Finished));
    assert!(matches!(action, InjectAction::Done));
}

#[test]
fn running_target_skips_launch_and_waits() {
    let opts = options(false);
    let prep = prepared(None, None, 0);
    let (stage, _) = start_injection();
    let (stage, action) = inject_step(&opts, &prep, stage, snapshot(vec![game()], false));
    assert!(matches!(stage, InjectStage::Locating));
    assert!(matches!(action, InjectAction::Snapshot { after_ms: 0 }));
    let (stage, action) = inject_step(&opts, &prep, stage, snapshot(vec![game()], false));
    assert!(matches!(stage, InjectStage::Calling(_)));
    assert!(matches!(action, InjectAction::Call(_)));

    let running_steam = prepared(Some(480), None, 1500);
    let (stage, _) = start_injection();
    let (stage, action) = inject_step(&opts, &running_steam, stage, snapshot(vec![game()], false));
    assert!(matches!(stage, InjectStage::Locating));
    assert!(matches!(action, InjectAction::Snapshot { after_ms: 0 }));
    let (stage, action) = inject_step(&opts, &running_steam, stage, snapshot(vec![game()], false));
    assert!(matches!(stage, InjectStage::Settling(_)));
    assert!(matches!(action, InjectAction::Sleep(1500)));
}

#[test]
fn step_failures() {
    let prep = prepared(Some(480), Some("UnityPlayer.dll"), 0);
    let opts = options(false);
    let (_, action) = inject_step(&opts, &prep, InjectStage::Launching(480), InjectEvent::Launched(Err("denied".into())));
    match action {
        InjectAction::Finish(Err(Error::SteamLaunch { app_id, source })) => {
            assert_eq!(app_id, 480);
            assert_eq!(source, "denied");
        }
        other => panic!("unexpected {other:?}"),
    }

    let (stage, action) = inject_step(&opts, &prep, InjectStage::Locating, snapshot(Vec::new(), true));
    assert!(matches!(stage, InjectStage::Finished));
    match action {
        InjectAction::Finish(Err(Error::ProcessWaitTimeout(t))) => assert_eq!(t, "Game.exe"),
        other => panic!("unexpected {other:?}"),
    }

    let once = prepared(None, None, 0);
    let (_, action) = inject_step(&opts, &once, InjectStage::Locating, snapshot(Vec::new(), false));
    match action {
        InjectAction::Finish(Err(Error::ProcessNotFound(t))) => assert_eq!(t, "Game.exe"),
        other => panic!("unexpected {other:?}"),
    }
    let (_, action) = inject_step(&options(true), &once, InjectStage::Locating, snapshot(Vec::new(), false));
    assert!(matches!(action, InjectAction::Snapshot { after_ms: 250 }));

    let (_, action) = inject_step(&opts, &prep, InjectStage::AwaitModule(game()), modules(&["d3d11.dll"], true));
    match action {
        InjectAction::Finish(Err(e)) => {
            assert_eq!(e.message(), "timed out waiting for module 'UnityPlayer.dll' in Game.exe (42)")
        }
        other => panic!("unexpected {other:?}"),
    }

    let (_, action) = inject_step(&opts, &prep, InjectStage::Calling(game()), InjectEvent::Called {
        outcome: Ok(AssemblyHandle::from_raw(7).unwrap()),
        records: Err(Error::InjectionRecords("unreadable".into())),
    });
    assert!(matches!(action, InjectAction::Finish(Err(Error::InjectionRecords(_)))));
}

#[test]
fn unrelated_events_repeat_the_pending_step() {
    let opts = options(false);
    let prep = prepared(Some(480), Some("d3d11.dll"), 8000);
    let (stage, action) = inject_step(&opts, &prep, InjectStage::Start, InjectEvent::Slept);
    assert!(matches!(stage, InjectStage::Start));
    assert!(matches!(action, InjectAction::Snapshot { after_ms: 0 }));
    let (stage, action) = inject_step(&opts, &prep, InjectStage::Settling(game()), snapshot(Vec::new(), false));
    assert!(matches!(stage, InjectStage::Settling(_)));
    assert!(matches!(action, InjectAction::Sleep(8000)));
    let (stage, action) = inject_step(&opts, &prep, InjectStage::AwaitModule(game()), InjectEvent::Slept);
    assert!(matches!(stage, InjectStage::AwaitModule(_)));
    assert!(matches!(action, InjectAction::ListModules { pid: 42, after_ms: 0 }));
    let (stage, action) = inject_step(&opts, &prep, InjectStage::Launching(480), InjectEvent::Slept);
    assert!(matches!(stage, InjectStage::Launching(480)));
    assert!(matches!(action, InjectAction::LaunchSteam { app_id: 480, .. }));
}
