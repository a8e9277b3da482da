//! Failures that frontends map to user-facing messages and exit codes.
use vstd::prelude::*;

use crate::text::{concat2, decimal, u64_to_decimal};

verus! {

/// Which failure the low-level remote Mono caller reported.
#[derive(Debug, Clone, Copy, PartialEq, Eq, Structural)]
pub enum InjectorErrorKind {
    MonoModuleNotFound,
    ClassNotFound,
    MethodNotFound,
    ManagedException,
    InvalidAssemblyHandle,
    RemoteThreadTimeout,
    Other,
}

/// A failure of the low-level remote Mono caller, with its message.
#[derive(Debug, Clone)]
pub struct InjectorError {
    pub kind: InjectorErrorKind,
    pub message: String,
}

/// Failures that a frontend can map to user-facing messages or exit codes.
#[derive(Debug, Clone)]
pub enum Error {
    ProcessNotFound(String),
    InvalidHandle(String),
    AssemblyRead(String),
    AssemblyMetadata(String),
    InjectionRecords(String),
    InjectionRecordsParse(String),
    Profiles(String),
    UserDirectoryUnavailable { kind: String },
    ProfilesParse(String),
    ProfileNotFound(String),
    MissingArgument { name: String, flag: String },
    AmbiguousRecordedAssembly { entry: String },
    NoRecordedAssembly { process: String, pid: u32, entry: String },
    UnrecordedAssemblyHandle { handle: String, process: String, pid: u32 },
    RawHandleRequiresForce,
    ProcessWaitTimeout(String),
    ModuleWaitTimeout { process: String, pid: u32, module: String },
    SteamLaunch { app_id: u32, source: String },
    ProfilesSerialize(String),
    Inject(InjectorError),
}

/// Exit code that the low-level failure maps to.
pub open spec fn injector_exit_code_spec(kind: InjectorErrorKind) -> i32 {
    match kind {
        InjectorErrorKind::MonoModuleNotFound => 11,
        InjectorErrorKind::ClassNotFound => 13,
        InjectorErrorKind::MethodNotFound => 14,
        InjectorErrorKind::ManagedException => 15,
        InjectorErrorKind::InvalidAssemblyHandle => 16,
        InjectorErrorKind::RemoteThreadTimeout => 17,
        InjectorErrorKind::Other => 1,
    }
}

/// Process exit code of the CLI contract for each failure.
pub open spec fn exit_code_spec(e: Error) -> i32 {
    match e {
        Error::ProcessNotFound(_) | Error::ProcessWaitTimeout(_) => 10,
        Error::AssemblyRead(_) | Error::AssemblyMetadata(_) => 12,
        Error::NoRecordedAssembly { .. }
        | Error::UnrecordedAssemblyHandle { .. }
        | Error::InvalidHandle(_)
        | Error::RawHandleRequiresForce => 16,
        Error::ModuleWaitTimeout { .. } => 17,
        Error::Inject(e) => injector_exit_code_spec(e.kind),
        _ => 1,
    }
}

/// Display text of each failure.
pub open spec fn message_spec(e: Error) -> Seq<char> {
    match e {
        Error::ProcessNotFound(t) => "process '"@ + t@ + "' not found"@,
        Error::InvalidHandle(h) => "invalid assembly handle '"@ + h@
            + "': expected a hex integer like 0x7fff00001234"@,
        Error::AssemblyRead(m) => "failed to read assembly file: "@ + m@,
        Error::AssemblyMetadata(m) => "failed to inspect .NET metadata: "@ + m@,
        Error::InjectionRecords(m) => "failed to access injection records: "@ + m@,
        Error::InjectionRecordsParse(m) => "failed to parse injection records: "@ + m@,
        Error::Profiles(m) => "failed to access profiles: "@ + m@,
        Error::UserDirectoryUnavailable { kind } => "could not determine the current user's "@
            + kind@ + " directory"@,
        Error::ProfilesParse(m) => "failed to parse profiles: "@ + m@,
        Error::ProfileNotFound(n) => "profile '"@ + n@ + "' not found"@,
        Error::MissingArgument { name, flag } => "missing "@ + name@ + "; pass "@ + flag@
            + " or use a profile that defines it"@,
        Error::AmbiguousRecordedAssembly { entry } => "multiple recorded assemblies match "@
            + entry@ + "; pass --latest or --assembly"@,
        Error::NoRecordedAssembly { process, pid, entry } => "no recorded assembly handle for "@
            + process@ + " ("@ + decimal(pid as nat) + ") and "@ + entry@,
        Error::UnrecordedAssemblyHandle { handle, process, pid } =>
            "refusing to eject unrecorded assembly handle "@ + handle@ + " from "@ + process@
            + " ("@ + decimal(pid as nat) + "); pass --force to bypass this guard"@,
        Error::RawHandleRequiresForce => "--raw-handle requires force"@,
        Error::ProcessWaitTimeout(t) => "timed out waiting for process '"@ + t@ + "'"@,
        Error::ModuleWaitTimeout { process, pid, module } => "timed out waiting for module '"@
            + module@ + "' in "@ + process@ + " ("@ + decimal(pid as nat) + ")"@,
        Error::SteamLaunch { app_id, source } => "failed to launch Steam app "@ + decimal(
            app_id as nat,
        ) + ": "@ + source@,
        Error::ProfilesSerialize(m) => "failed to serialize profiles: "@ + m@,
        Error::Inject(e) => e.message@,
    }
}

impl InjectorError {
    /// A copy of the failure.
    pub fn duplicate(&self) -> (r: InjectorError)
        ensures
            r == *self,
    {
        InjectorError { kind: self.kind, message: self.message.clone() }
    }
}

impl Error {
    /// A copy of the failure.
    pub fn duplicate(&self) -> (r: Error)
        ensures
            r == *self,
    {
        match self {
            Error::ProcessNotFound(t) => Error::ProcessNotFound(t.clone()),
            Error::InvalidHandle(h) => Error::InvalidHandle(h.clone()),
            Error::AssemblyRead(m) => Error::AssemblyRead(m.clone()),
            Error::AssemblyMetadata(m) => Error::AssemblyMetadata(m.clone()),
            Error::InjectionRecords(m) => Error::InjectionRecords(m.clone()),
            Error::InjectionRecordsParse(m) => Error::InjectionRecordsParse(m.clone()),
            Error::Profiles(m) => Error::Profiles(m.clone()),
            Error::UserDirectoryUnavailable { kind } => Error::UserDirectoryUnavailable {
                kind: kind.clone(),
            },
            Error::ProfilesParse(m) => Error::ProfilesParse(m.clone()),
            Error::ProfileNotFound(n) => Error::ProfileNotFound(n.clone()),
            Error::MissingArgument { name, flag } => Error::MissingArgument {
                name: name.clone(),
                flag: flag.clone(),
            },
            Error::AmbiguousRecordedAssembly { entry } => Error::AmbiguousRecordedAssembly {
                entry: entry.clone(),
            },
            Error::NoRecordedAssembly { process, pid, entry } => Error::NoRecordedAssembly {
                process: process.clone(),
                pid: *pid,
                entry: entry.clone(),
            },
            Error::UnrecordedAssemblyHandle { handle, process, pid } =>
                Error::UnrecordedAssemblyHandle {
                handle: handle.clone(),
                process: process.clone(),
                pid: *pid,
            },
            Error::RawHandleRequiresForce => Error::RawHandleRequiresForce,
            Error::ProcessWaitTimeout(t) => Error::ProcessWaitTimeout(t.clone()),
            Error::ModuleWaitTimeout { process, pid, module } => Error::ModuleWaitTimeout {
                process: process.clone(),
                pid: *pid,
                module: module.clone(),
            },
            Error::SteamLaunch { app_id, source } => Error::SteamLaunch {
                app_id: *app_id,
                source: source.clone(),
            },
            Error::ProfilesSerialize(m) => Error::ProfilesSerialize(m.clone()),
            Error::Inject(e) => Error::Inject(e.duplicate()),
        }
    }

    /// Returns the process exit code used by the CLI contract.
    pub fn exit_code(&self) -> (r: i32)
        ensures
            r == exit_code_spec(*self),
    {
        match self {
            Error::ProcessNotFound(_) | Error::ProcessWaitTimeout(_) => 10,
            Error::AssemblyRead(_) | Error::AssemblyMetadata(_) => 12,
            Error::NoRecordedAssembly { .. }
            | Error::UnrecordedAssemblyHandle { .. }
            | Error::InvalidHandle(_)
            | Error::RawHandleRequiresForce => 16,
            Error::ModuleWaitTimeout { .. } => 17,
            Error::Inject(e) => injector_exit_code(e),
            _ => 1,
        }
    }

    /// The message shown for the failure.
    pub fn message(&self) -> (r: String)
        ensures
            r@ == message_spec(*self),
    {
        match self {
            Error::ProcessNotFound(t) => wrap("process '", t, "' not found"),
            Error::InvalidHandle(h) => wrap(
                "invalid assembly handle '",
                h,
                "': expected a hex integer like 0x7fff00001234",
            ),
            Error::AssemblyRead(m) => concat2("failed to read assembly file: ", m.as_str()),
            Error::AssemblyMetadata(m) => concat2("failed to inspect .NET metadata: ", m.as_str()),
            Error::InjectionRecords(m) => concat2(
                "failed to access injection records: ",
                m.as_str(),
            ),
            Error::InjectionRecordsParse(m) => concat2(
                "failed to parse injection records: ",
                m.as_str(),
            ),
            Error::Profiles(m) => concat2("failed to access profiles: ", m.as_str()),
            Error::UserDirectoryUnavailable { kind } => wrap(
                "could not determine the current user's ",
                kind,
                " directory",
            ),
            Error::ProfilesParse(m) => concat2("failed to parse profiles: ", m.as_str()),
            Error::ProfileNotFound(n) => wrap("profile '", n, "' not found"),
            Error::MissingArgument { name, flag } => {
                let a = wrap("missing ", name, "; pass ");
                let b = concat2(a.as_str(), flag.as_str());
                concat2(b.as_str(), " or use a profile that defines it")
            },
            Error::AmbiguousRecordedAssembly { entry } => wrap(
                "multiple recorded assemblies match ",
                entry,
                "; pass --latest or --assembly",
            ),
            Error::NoRecordedAssembly { process, pid, entry } => {
                let a = wrap("no recorded assembly handle for ", process, " (");
                let p = u64_to_decimal(*pid as u64);
                let b = concat2(a.as_str(), p.as_str());
                let c = concat2(b.as_str(), ") and ");
                concat2(c.as_str(), entry.as_str())
            },
            Error::UnrecordedAssemblyHandle { handle, process, pid } => {
                let a = wrap("refusing to eject unrecorded assembly handle ", handle, " from ");
                let b = concat2(a.as_str(), process.as_str());
                let c = concat2(b.as_str(), " (");
                let p = u64_to_decimal(*pid as u64);
                let d = concat2(c.as_str(), p.as_str());
                concat2(d.as_str(), "); pass --force to bypass this guard")
            },
            Error::RawHandleRequiresForce => crate::text::owned("--raw-handle requires force"),
            Error::ProcessWaitTimeout(t) => wrap("timed out waiting for process '", t, "'"),
            Error::ModuleWaitTimeout { process, pid, module } => {
                let a = wrap("timed out waiting for module '", module, "' in ");
                let b = concat2(a.as_str(), process.as_str());
                let c = concat2(b.as_str(), " (");
                let p = u64_to_decimal(*pid as u64);
                let d = concat2(c.as_str(), p.as_str());
                concat2(d.as_str(), ")")
            },
            Error::SteamLaunch { app_id, source } => {
                let p = u64_to_decimal(*app_id as u64);
                let a = concat2("failed to launch Steam app ", p.as_str());
                let b = concat2(a.as_str(), ": ");
                concat2(b.as_str(), source.as_str())
            },
            Error::ProfilesSerialize(m) => concat2("failed to serialize profiles: ", m.as_str()),
            Error::Inject(e) => crate::text::owned(e.message.as_str()),
        }
    }
}

fn wrap(before: &str, middle: &String, after: &str) -> (r: String)
    ensures
        r@ == before@ + middle@ + after@,
{
    let a = concat2(before, middle.as_str());
    concat2(a.as_str(), after)
}

/// Exit code for a failure of the low-level remote Mono caller.
pub fn injector_exit_code(error: &InjectorError) -> (r: i32)
    ensures
        r == injector_exit_code_spec(error.kind),
{
    match error.kind {
        InjectorErrorKind::MonoModuleNotFound => 11,
        InjectorErrorKind::ClassNotFound => 13,
        InjectorErrorKind::MethodNotFound => 14,
        InjectorErrorKind::ManagedException => 15,
        InjectorErrorKind::InvalidAssemblyHandle => 16,
        InjectorErrorKind::RemoteThreadTimeout => 17,
        InjectorErrorKind::Other => 1,
    }
}

} // verus!
