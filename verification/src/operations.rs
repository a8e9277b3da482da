//! Profile-aware planning of injections and ejections, and the results that
//! frontends show.
use vstd::prelude::*;

use crate::error::Error;
use crate::names::lookup;
use crate::process::ProcessInfo;
use crate::profiles::{Profile, ProfilesFile};
use crate::runtime::RuntimeOptions;
use crate::state::clone_opt;
use crate::text::owned;

pub mod eject;
pub mod inject;
pub mod steps;

verus! {

/// Post-readiness delay used for Steam launches, in milliseconds.
pub const DEFAULT_STEAM_SETTLE_MS: u64 = 8000;

/// Profile-aware options for resolving or executing an injection. Durations
/// are in milliseconds.
#[derive(Debug, Clone)]
pub struct InjectOptions {
    pub profile_name: Option<String>,
    pub process: Option<String>,
    pub assembly: Option<String>,
    pub namespace: Option<String>,
    pub class_name: Option<String>,
    pub inject_method: Option<String>,
    pub eject_method: Option<String>,
    pub wait_for_process: bool,
    pub wait_timeout_ms: u64,
    pub poll_interval_ms: u64,
    pub wait_module: Option<String>,
    pub disable_wait_module: bool,
    pub settle_delay_ms: Option<u64>,
    pub steam_app: Option<u32>,
    pub runtime: RuntimeOptions,
}

/// Profile-aware options for resolving or executing an ejection.
#[derive(Debug, Clone)]
pub struct EjectOptions {
    pub profile_name: Option<String>,
    pub process: Option<String>,
    pub handle: Option<String>,
    pub raw_handle: Option<String>,
    pub namespace: Option<String>,
    pub class_name: Option<String>,
    pub method_name: Option<String>,
    pub latest: bool,
    pub force: bool,
    pub runtime: RuntimeOptions,
}

/// Fully resolved injection plan suitable for dry-run output.
#[derive(Debug, Clone, PartialEq, Eq)]
pub struct ResolvedInjectPlan {
    pub process: ProcessInfo,
    pub assembly: String,
    pub namespace: String,
    pub class_name: String,
    pub method_name: String,
    pub eject_method: String,
    pub entry: String,
    pub wait_module: Option<String>,
    pub settle_ms: u64,
    pub steam_app: Option<u32>,
    pub profile: Option<String>,
}

/// Result returned after injection or dry-run planning.
#[derive(Debug, Clone, PartialEq, Eq)]
pub struct InjectOutput {
    pub status: String,
    pub process: ProcessInfo,
    pub assembly: String,
    pub entry: String,
    pub handle: Option<String>,
    pub profile: Option<String>,
}

/// Fully resolved ejection plan suitable for dry-run output.
#[derive(Debug, Clone, PartialEq, Eq)]
pub struct ResolvedEjectPlan {
    pub process: ProcessInfo,
    pub handle: String,
    pub namespace: String,
    pub class_name: String,
    pub method_name: String,
    pub entry: String,
    pub profile: Option<String>,
    pub raw: bool,
}

/// Result returned after ejection or dry-run planning.
#[derive(Debug, Clone, PartialEq, Eq)]
pub struct EjectOutput {
    pub status: String,
    pub process: ProcessInfo,
    pub handle: String,
    pub entry: String,
    pub profile: Option<String>,
}

impl ResolvedInjectPlan {
    /// Converts the plan into the dry-run output shape used by frontends.
    pub fn dry_run_output(self) -> (r: InjectOutput)
        ensures
            r.status@ == "dry-run"@,
            r.process == self.process,
            r.assembly == self.assembly,
            r.entry == self.entry,
            r.handle is None,
            r.profile == self.profile,
    {
        InjectOutput {
            status: owned("dry-run"),
            process: self.process,
            assembly: self.assembly,
            entry: self.entry,
            handle: None,
            profile: self.profile,
        }
    }
}

impl ResolvedEjectPlan {
    /// Converts the plan into the dry-run output shape used by frontends.
    pub fn dry_run_output(self) -> (r: EjectOutput)
        ensures
            r.status@ == "dry-run"@,
            r.process == self.process,
            r.handle == self.handle,
            r.entry == self.entry,
            r.profile == self.profile,
    {
        EjectOutput {
            status: owned("dry-run"),
            process: self.process,
            handle: self.handle,
            entry: self.entry,
            profile: self.profile,
        }
    }
}

/// The first of two optional values that is present.
pub open spec fn pick<T>(first: Option<T>, second: Option<T>) -> Option<T> {
    match first {
        Some(x) => Some(x),
        None => second,
    }
}

/// A field of an optional profile.
pub open spec fn from_profile<T>(profile: Option<Profile>, field: spec_fn(Profile) -> Option<T>) -> Option<T> {
    match profile {
        Some(p) => field(p),
        None => None,
    }
}

/// The profile that a name selects: none without a name.
pub open spec fn profile_for(profiles: ProfilesFile, name: Option<Seq<char>>) -> Option<Profile> {
    match name {
        Some(n) => lookup(profiles.profiles@, n),
        None => None,
    }
}

/// The characters of an optional string.
pub open spec fn opt_seq(o: Option<String>) -> Option<Seq<char>> {
    match o {
        Some(s) => Some(s@),
        None => None,
    }
}

/// The characters of an optional string reference.
pub open spec fn opt_ref_seq(o: Option<&String>) -> Option<Seq<char>> {
    match o {
        Some(s) => Some(s@),
        None => None,
    }
}

/// Loads the named profile, if a name is given.
pub fn load_profile(profiles: &ProfilesFile, name: Option<&String>) -> (r: Result<Option<Profile>, Error>)
    ensures
        name is None ==> r == Ok::<Option<Profile>, Error>(None),
        name matches Some(n) ==> match lookup(profiles.profiles@, n@) {
            Some(p) => r == Ok::<Option<Profile>, Error>(Some(p)),
            None => r matches Err(Error::ProfileNotFound(m)) && m@ == n@,
        },
{
    match name {
        None => Ok(None),
        Some(n) => match crate::profiles::get_profile(profiles, n.as_str()) {
            Ok(p) => Ok(Some(p)),
            Err(e) => Err(e),
        },
    }
}

/// The process named by an optional profile.
pub fn profile_process(profile: Option<&Profile>) -> (r: Option<String>)
    ensures
        r == from_profile(crate::runtime::profile_of(profile), |p: Profile| p.process),
{
    match profile {
        Some(p) => clone_opt(&p.process),
        None => None,
    }
}

/// A value that must be given, or the failure naming the missing argument and its flag.
pub fn required(value: Option<String>, name: &str, flag: &str) -> (r: Result<String, Error>)
    ensures
        value matches Some(v) ==> r == Ok::<String, Error>(v),
        value is None ==> (r matches Err(Error::MissingArgument { name: n, flag: f }) && n@ == name@
            && f@ == flag@),
{
    match value {
        Some(v) => Ok(v),
        None => Err(Error::MissingArgument { name: owned(name), flag: owned(flag) }),
    }
}

/// Milliseconds of a duration, saturating at the largest `u64`.
pub fn duration_ms(millis: u128) -> (r: u64)
    ensures
        r == if millis <= u64::MAX as u128 {
            millis as u64
        } else {
            u64::MAX
        },
{
    if millis <= u64::MAX as u128 {
        millis as u64
    } else {
        u64::MAX
    }
}

/// Either the option's own value or the profile's, when the option is unset.
pub fn option_or_profile(option: &Option<String>, profile_value: Option<&Option<String>>) -> (r:
    Option<String>)
    ensures
        r == pick(
            *option,
            match profile_value {
                Some(v) => *v,
                None => None,
            },
        ),
{
    match option {
        Some(v) => Some(v.clone()),
        None => match profile_value {
            Some(v) => clone_opt(v),
            None => None,
        },
    }
}

} // verus!
