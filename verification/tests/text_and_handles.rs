use mono_injector_core::error::{injector_exit_code, Error, InjectorError, InjectorErrorKind};
use mono_injector_core::handle::{parse_handle, AssemblyHandle};
use mono_injector_core::text::{
    chars_of, concat2, contains, contains_ci, eq_ignore_ascii_case, join, lines, owned, parse_radix, split_chars,
    str_eq, u64_to_decimal, u64_to_hex, u64_to_upper_hex,
};

#[test]
fn decimal_and_hex_text() {
    assert_eq!(u64_to_decimal(0), "0");
    assert_eq!(u64_to_decimal(4096), "4096");
    assert_eq!(u64_to_decimal(u64::MAX), "18446744073709551615");
    assert_eq!(u64_to_hex(0), "0");
    assert_eq!(u64_to_hex(0x7fff00001234), "7fff00001234");
    assert_eq!(u64_to_hex(255), "ff");
}

#[test]
fn radix_parsing_follows_from_str_radix() {
    let c = |s: &str| chars_of(s);
    assert_eq!(parse_radix(&c("123"), 10, u64::MAX), Some(123));
    assert_eq!(parse_radix(&c("+7"), 10, u64::MAX), Some(7));
    assert_eq!(parse_radix(&c("+"), 10, u64::MAX), None);
    assert_eq!(parse_radix(&c(""), 10, u64::MAX), None);
    assert_eq!(parse_radix(&c("-1"), 10, u64::MAX), None);
    assert_eq!(parse_radix(&c("12a"), 10, u64::MAX), None);
    assert_eq!(parse_radix(&c("4294967295"), 10, u32::MAX as u64), Some(4294967295));
    assert_eq!(parse_radix(&c("4294967296"), 10, u32::MAX as u64), None);
    assert_eq!(parse_radix(&c("fF"), 16, u64::MAX), Some(255));
    assert_eq!(parse_radix(&c("ffffffffffffffff"), 16, u64::MAX), Some(u64::MAX));
    assert_eq!(parse_radix(&c("10000000000000000"), 16, u64::MAX), None);
}

#[test]
fn string_helpers() {
    assert_eq!(owned("abc"), "abc");
    assert_eq!(concat2("ab", "cd"), "abcd");
    assert!(str_eq("x", "x"));
    assert!(!str_eq("x", "X"));
    assert!(eq_ignore_ascii_case("Game.EXE", "game.exe"));
    assert!(!eq_ignore_ascii_case("Game.exe", "Game.ex"));
    assert!(contains_ci("C:\\Mono\\MONO-2.0-BDWGC.dll", "mono-2.0"));
    assert!(contains_ci("anything", ""));
    assert!(!contains_ci("unity", "mono"));
    assert!(contains("UnityPlayer", "Player"));
    assert!(!contains("UnityPlayer", "player"));
    assert!(contains("", ""));
    assert!(!contains("ab", "abc"));
}

#[test]
fn splitting_and_lines() {
    let parts = split_chars(&chars_of("a\tb\t\tc"), '\t');
    let texts: Vec<String> = parts.iter().map(|p| p.iter().collect()).collect();
    assert_eq!(texts, vec!["a", "b", "", "c"]);
    let ls = lines("one\r\ntwo\nthree");
    let texts: Vec<String> = ls.iter().map(|p| p.iter().collect()).collect();
    assert_eq!(texts, vec!["one", "two", "three"]);
    let ls = lines("x\n");
    assert_eq!(ls.len(), 1);
}

#[test]
fn handles_parse_and_print() {
    assert_eq!(parse_handle("0x7fff00001234"), Some(0x7fff00001234));
    assert_eq!(parse_handle("0X10"), Some(16));
    assert_eq!(parse_handle("abc"), Some(0xabc));
    assert_eq!(parse_handle("0xzz"), None);
    assert_eq!(parse_handle(""), None);
    assert!(AssemblyHandle::from_raw(0).is_none());
    let h = AssemblyHandle::from_raw(0x1234).unwrap();
    assert_eq!(h.get(), 0x1234);
    assert_eq!(h.to_text(), "0x1234");
}

#[test]
fn handle_text_round_trips() {
    for raw in [1u64, 0x10, 0xdead_beef, 0x7fff00001234, u64::MAX] {
        let h = AssemblyHandle::from_raw(raw).unwrap();
        assert_eq!(parse_handle(&h.to_text()), Some(raw));
    }
}

#[test]
fn exit_codes_of_failures() {
    assert_eq!(Error::ProcessNotFound("x".into()).exit_code(), 10);
    assert_eq!(Error::ProcessWaitTimeout("x".into()).exit_code(), 10);
    assert_eq!(Error::AssemblyRead("io".into()).exit_code(), 12);
    assert_eq!(Error::AssemblyMetadata("bad".into()).exit_code(), 12);
    assert_eq!(Error::RawHandleRequiresForce.exit_code(), 16);
    assert_eq!(Error::InvalidHandle("q".into()).exit_code(), 16);
    assert_eq!(
        Error::ModuleWaitTimeout { process: "g".into(), pid: 1, module: "m".into() }.exit_code(),
        17
    );
    assert_eq!(Error::ProfileNotFound("p".into()).exit_code(), 1);
    let e = InjectorError { kind: InjectorErrorKind::ClassNotFound, message: "no class".into() };
    assert_eq!(injector_exit_code(&e), 13);
    assert_eq!(Error::Inject(e).exit_code(), 13);
    let e = InjectorError { kind: InjectorErrorKind::RemoteThreadTimeout, message: "slow".into() };
    assert_eq!(Error::Inject(e).exit_code(), 17);
    let e = InjectorError { kind: InjectorErrorKind::Other, message: "other".into() };
    assert_eq!(Error::Inject(e).exit_code(), 1);
}

#[test]
fn messages_of_failures() {
    assert_eq!(Error::ProcessNotFound("Game.exe".into()).message(), "process 'Game.exe' not found");
    assert_eq!(
        Error::InvalidHandle("0xzz".into()).message(),
        "invalid assembly handle '0xzz': expected a hex integer like 0x7fff00001234"
    );
    assert_eq!(
        Error::MissingArgument { name: "process".into(), flag: "-p".into() }.message(),
        "missing process; pass -p or use a profile that defines it"
    );
    assert_eq!(
        Error::AmbiguousRecordedAssembly { entry: "MyMod.Loader::Unload".into() }.message(),
        "multiple recorded assemblies match MyMod.Loader::Unload; pass --latest or --assembly"
    );
    assert_eq!(
        Error::NoRecordedAssembly { process: "Game.exe".into(), pid: 42, entry: "*.*::Unload".into() }.message(),
        "no recorded assembly handle for Game.exe (42) and *.*::Unload"
    );
    assert_eq!(
        Error::UnrecordedAssemblyHandle { handle: "0x10".into(), process: "Game.exe".into(), pid: 7 }.message(),
        "refusing to eject unrecorded assembly handle 0x10 from Game.exe (7); pass --force to bypass this guard"
    );
    assert_eq!(Error::RawHandleRequiresForce.message(), "--raw-handle requires force");
    assert_eq!(
        Error::ModuleWaitTimeout { process: "Game.exe".into(), pid: 9, module: "d3d11.dll".into() }.message(),
        "timed out waiting for module 'd3d11.dll' in Game.exe (9)"
    );
    assert_eq!(
        Error::SteamLaunch { app_id: 480, source: "denied".into() }.message(),
        "failed to launch Steam app 480: denied"
    );
    assert_eq!(
        Error::UserDirectoryUnavailable { kind: "local data".into() }.message(),
        "could not determine the current user's local data directory"
    );
    let e = InjectorError { kind: InjectorErrorKind::MethodNotFound, message: "method Init not found".into() };
    assert_eq!(Error::Inject(e).message(), "method Init not found");
}

#[test]
fn joining_and_upper_hex() {
    assert_eq!(join(&vec![], ", "), "");
    assert_eq!(join(&vec!["a".to_string()], ", "), "a");
    assert_eq!(join(&vec!["a".to_string(), "b".to_string(), "c".to_string()], ", "), "a, b, c");
    assert_eq!(u64_to_upper_hex(0xbeef), "BEEF");
    assert_eq!(u64_to_upper_hex(10), "A");
    assert_eq!(u64_to_upper_hex(0), "0");
}

#[test]
fn decimal_text_round_trips() {
    for n in [0u64, 7, 10, 99, 12345, u32::MAX as u64, u64::MAX] {
        assert_eq!(parse_radix(&chars_of(&u64_to_decimal(n)), 10, u64::MAX), Some(n));
    }
}
