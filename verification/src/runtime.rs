//! Runtime settings for finding Mono in the target and waiting on remote calls.
use vstd::prelude::*;

use crate::profiles::Profile;
use crate::state::clone_opt;

verus! {

/// Runtime settings that affect how the low-level injector finds Mono and waits.
#[derive(Debug, Clone, PartialEq, Eq)]
pub struct RuntimeOptions {
    pub timeout_ms: u32,
    pub mono_module_hint: Option<String>,
    pub base_dir: Option<String>,
}

/// The settings handed to the remote Mono caller.
#[derive(Debug, Clone, PartialEq, Eq)]
pub struct InjectorConfig {
    pub timeout_ms: u32,
    pub mono_module_hint: Option<String>,
    pub base_dir: Option<String>,
}

/// Remote-thread timeout used when nothing else is configured.
pub const DEFAULT_TIMEOUT_MS: u32 = 5000;

impl Default for RuntimeOptions {
    fn default() -> (r: Self)
        ensures
            r.timeout_ms == DEFAULT_TIMEOUT_MS,
            r.mono_module_hint is None,
            r.base_dir is None,
    {
        RuntimeOptions { timeout_ms: DEFAULT_TIMEOUT_MS, mono_module_hint: None, base_dir: None }
    }
}

/// The remote-thread timeout: the profile's, else the options'. The
/// options always carry a timeout (the default unless one was given), so a
/// profile's timeout is the one that can tell a configured value apart.
pub open spec fn timeout_ms_spec(options: RuntimeOptions, profile: Option<Profile>) -> u32 {
    match profile {
        Some(p) => match p.timeout_ms {
            Some(t) => t,
            None => options.timeout_ms,
        },
        None => options.timeout_ms,
    }
}

/// The options' Mono module hint wins over the profile's.
pub open spec fn mono_module_spec(options: RuntimeOptions, profile: Option<Profile>) -> Option<String> {
    match options.mono_module_hint {
        Some(h) => Some(h),
        None => match profile {
            Some(p) => p.mono_module,
            None => None,
        },
    }
}

/// The options' base directory wins over the profile's.
pub open spec fn base_dir_spec(options: RuntimeOptions, profile: Option<Profile>) -> Option<String> {
    match options.base_dir {
        Some(d) => Some(d),
        None => match profile {
            Some(p) => p.base_dir,
            None => None,
        },
    }
}

/// The copy of an optional profile reference.
pub open spec fn profile_of(profile: Option<&Profile>) -> Option<Profile> {
    match profile {
        Some(p) => Some(*p),
        None => None,
    }
}

impl RuntimeOptions {
    /// Remote-thread timeout: the profile's value, else the options'.
    pub fn timeout_ms(&self, profile: Option<&Profile>) -> (r: u32)
        ensures
            r == timeout_ms_spec(*self, profile_of(profile)),
    {
        match profile {
            Some(p) => match p.timeout_ms {
                Some(t) => t,
                None => self.timeout_ms,
            },
            None => self.timeout_ms,
        }
    }

    /// Mono module hint: the options' value, else the profile's.
    pub fn mono_module(&self, profile: Option<&Profile>) -> (r: Option<String>)
        ensures
            r == mono_module_spec(*self, profile_of(profile)),
    {
        match &self.mono_module_hint {
            Some(h) => Some(h.clone()),
            None => match profile {
                Some(p) => clone_opt(&p.mono_module),
                None => None,
            },
        }
    }

    /// Base directory for assembly loading: the options' value, else the profile's.
    pub fn base_dir(&self, profile: Option<&Profile>) -> (r: Option<String>)
        ensures
            r == base_dir_spec(*self, profile_of(profile)),
    {
        match &self.base_dir {
            Some(d) => Some(d.clone()),
            None => match profile {
                Some(p) => clone_opt(&p.base_dir),
                None => None,
            },
        }
    }

    /// Converts profile-aware runtime options into the remote caller's settings.
    pub fn to_config(&self, profile: Option<&Profile>) -> (r: InjectorConfig)
        ensures
            r.timeout_ms == timeout_ms_spec(*self, profile_of(profile)),
            r.mono_module_hint == mono_module_spec(*self, profile_of(profile)),
            r.base_dir == base_dir_spec(*self, profile_of(profile)),
    {
        InjectorConfig {
            timeout_ms: self.timeout_ms(profile),
            mono_module_hint: self.mono_module(profile),
            base_dir: self.base_dir(profile),
        }
    }
}

} // verus!
