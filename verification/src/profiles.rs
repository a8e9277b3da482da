//! Named sets of injection defaults shared by command-line and graphical UIs.
use vstd::prelude::*;

use crate::error::Error;
use crate::names::{inserted, lookup, removed, unique_keys, with_entry, NameList};
use crate::state::clone_opt;
use crate::text::owned;

verus! {

/// A named set of injection defaults.
#[derive(Debug, Clone, PartialEq, Eq)]
pub struct Profile {
    pub process: Option<String>,
    pub assembly: Option<String>,
    pub namespace: Option<String>,
    pub class_name: Option<String>,
    pub inject_method: Option<String>,
    pub eject_method: Option<String>,
    pub mono_module: Option<String>,
    pub base_dir: Option<String>,
    pub timeout_ms: Option<u32>,
    pub wait_module: Option<String>,
    pub settle_ms: Option<u64>,
    pub steam_app: Option<u32>,
}

/// Serializable profile list entry used by frontends.
#[derive(Debug, Clone, PartialEq, Eq)]
pub struct ProfileSummary {
    pub name: String,
    pub profile: Profile,
}

/// The profile document: profiles by name, in the order in which the file
/// defines them.
pub struct ProfilesFile {
    pub profiles: NameList<Profile>,
}

/// A profile that sets nothing.
pub open spec fn empty_profile_spec(p: Profile) -> bool {
    &&& p.process is None
    &&& p.assembly is None
    &&& p.namespace is None
    &&& p.class_name is None
    &&& p.inject_method is None
    &&& p.eject_method is None
    &&& p.mono_module is None
    &&& p.base_dir is None
    &&& p.timeout_ms is None
    &&& p.wait_module is None
    &&& p.settle_ms is None
    &&& p.steam_app is None
}

impl Default for Profile {
    fn default() -> (r: Self)
        ensures
            empty_profile_spec(r),
    {
        Profile {
            process: None,
            assembly: None,
            namespace: None,
            class_name: None,
            inject_method: None,
            eject_method: None,
            mono_module: None,
            base_dir: None,
            timeout_ms: None,
            wait_module: None,
            settle_ms: None,
            steam_app: None,
        }
    }
}

impl Profile {
    /// A copy of the profile.
    pub fn duplicate(&self) -> (r: Profile)
        ensures
            r == *self,
    {
        Profile {
            process: clone_opt(&self.process),
            assembly: clone_opt(&self.assembly),
            namespace: clone_opt(&self.namespace),
            class_name: clone_opt(&self.class_name),
            inject_method: clone_opt(&self.inject_method),
            eject_method: clone_opt(&self.eject_method),
            mono_module: clone_opt(&self.mono_module),
            base_dir: clone_opt(&self.base_dir),
            timeout_ms: self.timeout_ms,
            wait_module: clone_opt(&self.wait_module),
            settle_ms: self.settle_ms,
            steam_app: self.steam_app,
        }
    }
}

impl ProfilesFile {
    /// A document without profiles.
    pub fn new() -> (r: Self)
        ensures
            r.profiles@.len() == 0,
    {
        ProfilesFile { profiles: NameList::new() }
    }

    /// Builds the document from named profiles in file order; a later
    /// profile with the same name replaces an earlier one in its place.
    pub fn from_entries(entries: Vec<(String, Profile)>) -> (r: Self)
        ensures
            r.profiles@ == file_entries(entries@),
            forall|k: Seq<char>| #[trigger] lookup(r.profiles@, k) == last_named(entries@, k),
    {
        let mut profiles: NameList<Profile> = NameList::new();
        let mut entries = entries;
        let ghost all = entries@;
        let mut rest: Vec<(String, Profile)> = Vec::new();
        // Take entries from the back so that each can be moved out.
        while entries.len() > 0
            invariant
                entries@.len() + rest@.len() == all.len(),
                entries@ == all.take(entries@.len() as int),
                rest@ == all.skip(entries@.len() as int).reverse(),
            decreases entries.len(),
        {
            let ghost n = entries@.len();
            let e = entries.pop().unwrap();
            rest.push(e);
            assert(entries@ =~= all.take(n - 1));
            assert(all.skip(n - 1) =~= seq![all[n - 1]] + all.skip(n as int));
            assert(rest@ =~= all.skip(n - 1).reverse());
        }
        let mut i: usize = 0;
        assert(all.skip(0) =~= all);
        assert(all.len() == rest.len());
        assert(all.take(0) =~= Seq::<(String, Profile)>::empty());
        while rest.len() > 0
            invariant
                i + rest@.len() == all.len(),
                all.len() <= usize::MAX,
                rest@ == all.skip(i as int).reverse(),
                profiles@ == file_entries(all.take(i as int)),
                forall|k: Seq<char>| #[trigger] lookup(profiles@, k) == last_named(all.take(i as int), k),
                unique_keys(profiles@),
            decreases rest.len(),
        {
            let ghost before = profiles@;
            let (name, profile) = rest.pop().unwrap();
            assert(all.skip(i as int).reverse().last() == all[i as int]);
            assert((name, profile) == all[i as int]);
            let ghost pr = profile;
            profiles.insert(name, profile);
            proof {
                assert(all.take(i + 1) =~= all.take(i as int).push(all[i as int]));
                assert(all.take(i + 1).drop_last() =~= all.take(i as int));
                assert(all.take(i + 1).last() == all[i as int]);
                assert forall|k: Seq<char>| #[trigger] lookup(profiles@, k) == last_named(
                    all.take(i + 1),
                    k,
                ) by {
                    crate::names::lemma_insert_lookup(before, profiles@, all[i as int].0, pr, k);
                }
                assert(rest@ =~= all.skip(i + 1).reverse());
            }
            i = i + 1;
        }
        assert(all.take(i as int) =~= all);
        ProfilesFile { profiles }
    }

    /// Stores `profile` under `name`, replacing a profile with that name in
    /// place or adding it after the others.
    pub fn insert(&mut self, name: String, profile: Profile)
        ensures
            final(self).profiles@ == with_entry(old(self).profiles@, name, profile),
            inserted(old(self).profiles@, final(self).profiles@, name, profile),
            unique_keys(final(self).profiles@),
    {
        self.profiles.insert(name, profile);
    }

    /// Removes the profile named `name`.
    pub fn remove(&mut self, name: &str) -> (r: Option<Profile>)
        ensures
            removed(old(self).profiles@, final(self).profiles@, name@),
            r == lookup(old(self).profiles@, name@),
            unique_keys(final(self).profiles@),
    {
        self.profiles.remove(name)
    }
}

/// The profiles that a file defines, in file order: each entry stored in
/// turn, a repeated name replacing the earlier profile in its place.
pub open spec fn file_entries(entries: Seq<(String, Profile)>) -> Seq<(String, Profile)>
    decreases entries.len(),
{
    if entries.len() == 0 {
        Seq::empty()
    } else {
        with_entry(file_entries(entries.drop_last()), entries.last().0, entries.last().1)
    }
}

/// The profile of the last entry named `k`.
pub open spec fn last_named(entries: Seq<(String, Profile)>, k: Seq<char>) -> Option<Profile>
    decreases entries.len(),
{
    if entries.len() == 0 {
        None
    } else if entries.last().0@ == k {
        Some(entries.last().1)
    } else {
        last_named(entries.drop_last(), k)
    }
}

/// Looks up one profile by name.
pub fn get_profile(file: &ProfilesFile, name: &str) -> (r: Result<Profile, Error>)
    ensures
        r matches Ok(p) ==> lookup(file.profiles@, name@) == Some(p),
        r is Err ==> lookup(file.profiles@, name@) is None,
        r matches Err(e) ==> e matches Error::ProfileNotFound(n) && n@ == name@,
{
    match file.profiles.get(name) {
        Some(p) => Ok(p.duplicate()),
        None => Err(Error::ProfileNotFound(owned(name))),
    }
}

/// The profiles paired with their names, in the document's order.
pub open spec fn summaries_match(r: Seq<ProfileSummary>, entries: Seq<(String, Profile)>) -> bool {
    &&& r.len() == entries.len()
    &&& forall|i: int|
        0 <= i < r.len() ==> (#[trigger] r[i]).name == entries[i].0 && r[i].profile
            == entries[i].1
}

/// Lists the configured profiles in their file order.
pub fn list_profiles(file: ProfilesFile) -> (r: Vec<ProfileSummary>)
    ensures
        summaries_match(r@, file.profiles@),
        unique_keys(file.profiles@),
{
    let n = file.profiles.len();
    let entries = file.profiles.into_entries();
    let ghost all = entries@;
    let mut entries = entries;
    let mut reversed: Vec<ProfileSummary> = Vec::new();
    while entries.len() > 0
        invariant
            entries@.len() + reversed@.len() == all.len(),
            entries@ == all.take(entries@.len() as int),
            forall|j: int|
                0 <= j < reversed@.len() ==> (#[trigger] reversed@[j]).name == all[all.len() - 1
                    - j].0 && reversed@[j].profile == all[all.len() - 1 - j].1,
        decreases entries.len(),
    {
        let ghost m = entries@.len();
        let (name, profile) = entries.pop().unwrap();
        assert(entries@ =~= all.take(m - 1));
        reversed.push(ProfileSummary { name, profile });
    }
    let mut r: Vec<ProfileSummary> = Vec::new();
    while reversed.len() > 0
        invariant
            r@.len() + reversed@.len() == all.len(),
            forall|j: int|
                0 <= j < reversed@.len() ==> (#[trigger] reversed@[j]).name == all[all.len() - 1
                    - j].0 && reversed@[j].profile == all[all.len() - 1 - j].1,
            forall|j: int|
                0 <= j < r@.len() ==> (#[trigger] r@[j]).name == all[j].0 && r@[j].profile
                    == all[j].1,
        decreases reversed.len(),
    {
        let s = reversed.pop().unwrap();
        r.push(s);
    }
    r
}

/// After saving a profile under a name, loading that name gives the saved
/// profile, and every other name gives what it gave before.
pub proof fn lemma_saved_profile_loads(
    before: Seq<(String, Profile)>,
    after: Seq<(String, Profile)>,
    name: String,
    profile: Profile,
    other: Seq<char>,
)
    requires
        unique_keys(before),
        unique_keys(after),
        inserted(before, after, name, profile),
    ensures
        lookup(after, name@) == Some(profile),
        other != name@ ==> lookup(after, other) == lookup(before, other),
{
    crate::names::lemma_insert_lookup(before, after, name, profile, other);
}

/// After deleting a profile, its name is not found, and every other name
/// gives what it gave before.
pub proof fn lemma_deleted_profile_gone(
    before: Seq<(String, Profile)>,
    after: Seq<(String, Profile)>,
    name: Seq<char>,
    other: Seq<char>,
)
    requires
        unique_keys(before),
        removed(before, after, name),
    ensures
        lookup(after, name) is None,
        other != name ==> lookup(after, other) == lookup(before, other),
{
    crate::names::lemma_remove_lookup(before, after, name, other);
}

} // verus!
