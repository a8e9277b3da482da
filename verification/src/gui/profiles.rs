//! The profile manager: the list of profiles, the edit form and the save
//! and delete requests it makes.
use vstd::prelude::*;

use crate::gui::log_strip::{LogEntry, LogLevel};
use crate::gui::{non_empty, non_empty_spec, parse_number};
use crate::operations::opt_seq;
use crate::profiles::{Profile, ProfileSummary};
use crate::text::{concat2, decimal, owned, parse_bounded, u64_to_decimal};

verus! {

/// Editable string form mirroring `Profile` fields.
#[derive(Debug, Clone)]
pub struct ProfileDraft {
    pub name: String,
    pub process: String,
    pub assembly: String,
    pub namespace: String,
    pub class_name: String,
    pub inject_method: String,
    pub eject_method: String,
    pub mono_module: String,
    pub base_dir: String,
    pub timeout_ms: String,
    pub wait_module: String,
    pub settle_ms: String,
    pub steam_app: String,
}

/// Every field of the draft is empty.
pub open spec fn blank_draft(d: ProfileDraft) -> bool {
    &&& d.name@.len() == 0
    &&& d.process@.len() == 0
    &&& d.assembly@.len() == 0
    &&& d.namespace@.len() == 0
    &&& d.class_name@.len() == 0
    &&& d.inject_method@.len() == 0
    &&& d.eject_method@.len() == 0
    &&& d.mono_module@.len() == 0
    &&& d.base_dir@.len() == 0
    &&& d.timeout_ms@.len() == 0
    &&& d.wait_module@.len() == 0
    &&& d.settle_ms@.len() == 0
    &&& d.steam_app@.len() == 0
}

impl Default for ProfileDraft {
    /// An empty form.
    fn default() -> (r: Self)
        ensures
            blank_draft(r),
    {
        ProfileDraft {
            name: String::new(),
            process: String::new(),
            assembly: String::new(),
            namespace: String::new(),
            class_name: String::new(),
            inject_method: String::new(),
            eject_method: String::new(),
            mono_module: String::new(),
            base_dir: String::new(),
            timeout_ms: String::new(),
            wait_module: String::new(),
            settle_ms: String::new(),
            steam_app: String::new(),
        }
    }
}

/// The text of an optional field: its value, or empty.
pub open spec fn text_of(v: Option<String>) -> Seq<char> {
    match v {
        Some(s) => s@,
        None => Seq::empty(),
    }
}

/// The text of an optional number: its decimal form, or empty.
pub open spec fn number_text(v: Option<u64>) -> Seq<char> {
    match v {
        Some(n) => decimal(n as nat),
        None => Seq::empty(),
    }
}

/// The form filled from a named profile.
pub open spec fn draft_of(name: Seq<char>, p: Profile, d: ProfileDraft) -> bool {
    &&& d.name@ == name
    &&& d.process@ == text_of(p.process)
    &&& d.assembly@ == text_of(p.assembly)
    &&& d.namespace@ == text_of(p.namespace)
    &&& d.class_name@ == text_of(p.class_name)
    &&& d.inject_method@ == text_of(p.inject_method)
    &&& d.eject_method@ == text_of(p.eject_method)
    &&& d.mono_module@ == text_of(p.mono_module)
    &&& d.base_dir@ == text_of(p.base_dir)
    &&& d.timeout_ms@ == number_text(match p.timeout_ms { Some(t) => Some(t as u64), None => None })
    &&& d.wait_module@ == text_of(p.wait_module)
    &&& d.settle_ms@ == number_text(p.settle_ms)
    &&& d.steam_app@ == number_text(match p.steam_app { Some(a) => Some(a as u64), None => None })
}

/// The text of an optional field.
fn field_text(v: &Option<String>) -> (r: String)
    ensures
        r@ == text_of(*v),
{
    match v {
        Some(s) => s.clone(),
        None => String::new(),
    }
}

/// The text of an optional number.
fn number_field(v: Option<u64>) -> (r: String)
    ensures
        r@ == number_text(v),
{
    match v {
        Some(n) => u64_to_decimal(n),
        None => String::new(),
    }
}

impl ProfileDraft {
    /// Fills the form from a named profile.
    pub fn from_named(name: &str, p: &Profile) -> (r: Self)
        ensures
            draft_of(name@, *p, r),
    {
        let timeout: Option<u64> = match p.timeout_ms {
            Some(t) => Some(t as u64),
            None => None,
        };
        let steam: Option<u64> = match p.steam_app {
            Some(a) => Some(a as u64),
            None => None,
        };
        ProfileDraft {
            name: owned(name),
            process: field_text(&p.process),
            assembly: field_text(&p.assembly),
            namespace: field_text(&p.namespace),
            class_name: field_text(&p.class_name),
            inject_method: field_text(&p.inject_method),
            eject_method: field_text(&p.eject_method),
            mono_module: field_text(&p.mono_module),
            base_dir: field_text(&p.base_dir),
            timeout_ms: number_field(timeout),
            wait_module: field_text(&p.wait_module),
            settle_ms: number_field(p.settle_ms),
            steam_app: number_field(steam),
        }
    }
}

/// A profile value as shown in the read-only view: the text, or a dash.
pub fn str_or_dash(v: Option<&str>) -> (r: String)
    ensures
        r@ == match v {
            Some(s) => s@,
            None => "\u{2014}"@,
        },
{
    match v {
        Some(s) => owned(s),
        None => owned("\u{2014}"),
    }
}

/// A numeric profile value as shown in the read-only view: its decimal
/// text, or a dash.
pub fn num_or_dash(v: Option<u64>) -> (r: String)
    ensures
        r@ == match v {
            Some(n) => decimal(n as nat),
            None => "\u{2014}"@,
        },
{
    match v {
        Some(n) => u64_to_decimal(n),
        None => owned("\u{2014}"),
    }
}

/// A number field of the form as the profile stores it: unset unless it
/// reads as a number in range.
pub open spec fn number_of(text: Seq<char>, max: nat) -> Option<nat> {
    parse_bounded(text, 10, max)
}

/// The profile that a form describes: empty text fields are unset, and a
/// number field is unset unless it reads as a number.
pub open spec fn profile_of_draft(d: ProfileDraft, p: Profile) -> bool {
    &&& opt_seq(p.process) == non_empty_spec(d.process@)
    &&& opt_seq(p.assembly) == non_empty_spec(d.assembly@)
    &&& opt_seq(p.namespace) == non_empty_spec(d.namespace@)
    &&& opt_seq(p.class_name) == non_empty_spec(d.class_name@)
    &&& opt_seq(p.inject_method) == non_empty_spec(d.inject_method@)
    &&& opt_seq(p.eject_method) == non_empty_spec(d.eject_method@)
    &&& opt_seq(p.mono_module) == non_empty_spec(d.mono_module@)
    &&& opt_seq(p.base_dir) == non_empty_spec(d.base_dir@)
    &&& match number_of(d.timeout_ms@, u32::MAX as nat) {
        Some(t) => p.timeout_ms == Some(t as u32),
        None => p.timeout_ms is None,
    }
    &&& opt_seq(p.wait_module) == non_empty_spec(d.wait_module@)
    &&& match number_of(d.settle_ms@, u64::MAX as nat) {
        Some(t) => p.settle_ms == Some(t as u64),
        None => p.settle_ms is None,
    }
    &&& match number_of(d.steam_app@, u32::MAX as nat) {
        Some(t) => p.steam_app == Some(t as u32),
        None => p.steam_app is None,
    }
}

/// The profile that the form describes.
pub fn draft_to_profile(draft: &ProfileDraft) -> (r: Profile)
    ensures
        profile_of_draft(*draft, r),
{
    let timeout_ms = match parse_number(draft.timeout_ms.as_str(), u32::MAX as u64) {
        Some(t) => Some(t as u32),
        None => None,
    };
    let steam_app = match parse_number(draft.steam_app.as_str(), u32::MAX as u64) {
        Some(a) => Some(a as u32),
        None => None,
    };
    Profile {
        process: non_empty(draft.process.as_str()),
        assembly: non_empty(draft.assembly.as_str()),
        namespace: non_empty(draft.namespace.as_str()),
        class_name: non_empty(draft.class_name.as_str()),
        inject_method: non_empty(draft.inject_method.as_str()),
        eject_method: non_empty(draft.eject_method.as_str()),
        mono_module: non_empty(draft.mono_module.as_str()),
        base_dir: non_empty(draft.base_dir.as_str()),
        timeout_ms,
        wait_module: non_empty(draft.wait_module.as_str()),
        settle_ms: parse_number(draft.settle_ms.as_str(), u64::MAX),
        steam_app,
    }
}

/// No text value of the profile is set to the empty text.
pub open spec fn texts_non_empty(p: Profile) -> bool {
    &&& (p.process matches Some(v) ==> v@.len() > 0)
    &&& (p.assembly matches Some(v) ==> v@.len() > 0)
    &&& (p.namespace matches Some(v) ==> v@.len() > 0)
    &&& (p.class_name matches Some(v) ==> v@.len() > 0)
    &&& (p.inject_method matches Some(v) ==> v@.len() > 0)
    &&& (p.eject_method matches Some(v) ==> v@.len() > 0)
    &&& (p.mono_module matches Some(v) ==> v@.len() > 0)
    &&& (p.base_dir matches Some(v) ==> v@.len() > 0)
    &&& (p.wait_module matches Some(v) ==> v@.len() > 0)
}

/// Two profiles hold the same values.
pub open spec fn same_values(p: Profile, q: Profile) -> bool {
    &&& opt_seq(p.process) == opt_seq(q.process)
    &&& opt_seq(p.assembly) == opt_seq(q.assembly)
    &&& opt_seq(p.namespace) == opt_seq(q.namespace)
    &&& opt_seq(p.class_name) == opt_seq(q.class_name)
    &&& opt_seq(p.inject_method) == opt_seq(q.inject_method)
    &&& opt_seq(p.eject_method) == opt_seq(q.eject_method)
    &&& opt_seq(p.mono_module) == opt_seq(q.mono_module)
    &&& opt_seq(p.base_dir) == opt_seq(q.base_dir)
    &&& p.timeout_ms == q.timeout_ms
    &&& opt_seq(p.wait_module) == opt_seq(q.wait_module)
    &&& p.settle_ms == q.settle_ms
    &&& p.steam_app == q.steam_app
}

/// Opening a profile in the form and saving the form unchanged gives the
/// same profile back, when none of its text values is empty.
pub proof fn lemma_unchanged_draft_saves_same_profile(name: Seq<char>, p: Profile, d: ProfileDraft, q: Profile)
    requires
        draft_of(name, p, d),
        profile_of_draft(d, q),
        texts_non_empty(p),
    ensures
        same_values(p, q),
{
    if let Some(t) = p.timeout_ms {
        crate::text::lemma_decimal_roundtrip(t as nat);
    }
    if let Some(t) = p.settle_ms {
        crate::text::lemma_decimal_roundtrip(t as nat);
    }
    if let Some(t) = p.steam_app {
        crate::text::lemma_decimal_roundtrip(t as nat);
    }
    if p.timeout_ms is None {
        assert(number_of(d.timeout_ms@, u32::MAX as nat) is None);
    }
    if p.settle_ms is None {
        assert(number_of(d.settle_ms@, u64::MAX as nat) is None);
    }
    if p.steam_app is None {
        assert(number_of(d.steam_app@, u32::MAX as nat) is None);
    }
}

/// State for the Profiles management view.
#[derive(Debug, Clone)]
pub struct ProfilesState {
    pub profiles: Vec<ProfileSummary>,
    pub selected_index: Option<usize>,
    pub editing: bool,
    pub confirm_delete: bool,
    pub draft: ProfileDraft,
    pub save_error: Option<String>,
}

impl Default for ProfilesState {
    /// Nothing loaded or selected, an empty form, not editing.
    fn default() -> (r: Self)
        ensures
            r.profiles@.len() == 0,
            r.selected_index is None,
            !r.editing,
            !r.confirm_delete,
            blank_draft(r.draft),
            r.save_error is None,
    {
        ProfilesState {
            profiles: Vec::new(),
            selected_index: None,
            editing: false,
            confirm_delete: false,
            draft: ProfileDraft::default(),
            save_error: None,
        }
    }
}

/// Which form field a draft edit is for.
#[derive(Debug, Clone, Copy, PartialEq, Eq, Structural)]
pub enum DraftField {
    Name,
    Process,
    Assembly,
    Namespace,
    ClassName,
    InjectMethod,
    EjectMethod,
    MonoModule,
    BaseDir,
    TimeoutMs,
    WaitModule,
    SettleMs,
    SteamApp,
}

/// Messages handled by the Profiles view.
#[derive(Debug)]
pub enum ProfilesMsg {
    Load,
    Loaded(Result<Vec<ProfileSummary>, String>),
    Select(usize),
    NewProfile,
    EditClicked,
    CancelEdit,
    SaveClicked,
    Saved(Result<(), String>),
    DeleteClicked,
    ConfirmDelete,
    CancelDelete,
    Deleted(Result<(), String>),
    InjectWithProfile,
    DraftChanged(DraftField, String),
}

/// Background work the Profiles view asks for: loading the profile list,
/// storing a profile under a name (in the profile document as it is on
/// disk), or removing the named profile from it. Results come back as
/// `Loaded`, `Saved` and `Deleted`.
#[derive(Debug, Clone)]
pub enum ProfilesTask {
    Idle,
    LoadProfiles,
    Save { name: String, profile: Profile },
    Delete(String),
}

/// The log line of a message, as level and message.
pub open spec fn profiles_log_spec(msg: ProfilesMsg) -> Option<(LogLevel, Seq<char>)> {
    match msg {
        ProfilesMsg::DeleteClicked => Some((LogLevel::Warn, "Confirm profile deletion"@)),
        ProfilesMsg::Saved(Ok(())) => Some((LogLevel::Success, "Profile saved"@)),
        ProfilesMsg::Saved(Err(e)) => Some((LogLevel::Error, "Save failed: "@ + e@)),
        ProfilesMsg::Deleted(Ok(())) => Some((LogLevel::Success, "Profile deleted"@)),
        ProfilesMsg::Deleted(Err(e)) => Some((LogLevel::Error, "Delete failed: "@ + e@)),
        _ => None,
    }
}

impl ProfilesMsg {
    /// Returns a log entry for messages the app records.
    pub fn log_entry(&self) -> (r: Option<LogEntry>)
        ensures
            match profiles_log_spec(*self) {
                Some((level, text)) => r matches Some(e) && e.level == level && e.message@ == text,
                None => r is None,
            },
    {
        match self {
            ProfilesMsg::DeleteClicked => Some(LogEntry::warn(owned("Confirm profile deletion"))),
            ProfilesMsg::Saved(Ok(())) => Some(LogEntry::ok(owned("Profile saved"))),
            ProfilesMsg::Saved(Err(e)) => Some(LogEntry::error(concat2("Save failed: ", e.as_str()))),
            ProfilesMsg::Deleted(Ok(())) => Some(LogEntry::ok(owned("Profile deleted"))),
            ProfilesMsg::Deleted(Err(e)) => Some(LogEntry::error(concat2("Delete failed: ", e.as_str()))),
            _ => None,
        }
    }
}

/// Takes a loaded list; a failed load keeps the current one.
pub fn apply_loaded(state: &mut ProfilesState, result: Result<Vec<ProfileSummary>, String>)
    ensures
        *final(state) == match result {
            Ok(list) => ProfilesState { profiles: list, ..*old(state) },
            Err(_) => *old(state),
        },
{
    if let Ok(profiles) = result {
        state.profiles = profiles;
    }
}

/// Opens an empty form for a new profile.
pub fn start_new(state: &mut ProfilesState)
    ensures
        blank_draft(final(state).draft),
        *final(state) == (ProfilesState { selected_index: None, draft: final(state).draft, editing: true, ..*old(state) }),
{
    state.selected_index = None;
    state.draft = ProfileDraft::default();
    state.editing = true;
}

/// The selected summary, when the selection is within the list.
pub open spec fn selected_summary(state: ProfilesState) -> Option<ProfileSummary> {
    match state.selected_index {
        Some(i) => if i < state.profiles@.len() { Some(state.profiles@[i as int]) } else { None },
        None => None,
    }
}

/// Opens the form on the selected profile; without a valid selection
/// nothing changes.
pub fn start_edit(state: &mut ProfilesState)
    ensures
        match selected_summary(*old(state)) {
            Some(s) => draft_of(s.name@, s.profile, final(state).draft)
                && *final(state) == (ProfilesState { draft: final(state).draft, editing: true, ..*old(state) }),
            None => *final(state) == *old(state),
        },
{
    if let Some(i) = state.selected_index {
        if i < state.profiles.len() {
            let draft = ProfileDraft::from_named(state.profiles[i].name.as_str(), &state.profiles[i].profile);
            state.draft = draft;
            state.editing = true;
        }
    }
}

/// Records a save result: a failure is kept, a success closes the form.
pub fn apply_saved(state: &mut ProfilesState, result: Result<(), String>)
    ensures
        *final(state) == match result {
            Ok(()) => ProfilesState { save_error: None, editing: false, ..*old(state) },
            Err(e) => ProfilesState { save_error: Some(e), ..*old(state) },
        },
{
    match result {
        Ok(()) => {
            state.save_error = None;
            state.editing = false;
        },
        Err(e) => state.save_error = Some(e),
    }
}

/// Records a delete result: a success clears the selection and the form.
pub fn apply_deleted(state: &mut ProfilesState, result: &Result<(), String>)
    ensures
        *final(state) == match *result {
            Ok(()) => ProfilesState { selected_index: None, editing: false, ..*old(state) },
            Err(_) => *old(state),
        },
{
    if result.is_ok() {
        state.selected_index = None;
        state.editing = false;
    }
}

/// The form after an edit of one field.
pub open spec fn draft_applied(d: ProfileDraft, field: DraftField, value: String) -> ProfileDraft {
    match field {
        DraftField::Name => ProfileDraft { name: value, ..d },
        DraftField::Process => ProfileDraft { process: value, ..d },
        DraftField::Assembly => ProfileDraft { assembly: value, ..d },
        DraftField::Namespace => ProfileDraft { namespace: value, ..d },
        DraftField::ClassName => ProfileDraft { class_name: value, ..d },
        DraftField::InjectMethod => ProfileDraft { inject_method: value, ..d },
        DraftField::EjectMethod => ProfileDraft { eject_method: value, ..d },
        DraftField::MonoModule => ProfileDraft { mono_module: value, ..d },
        DraftField::BaseDir => ProfileDraft { base_dir: value, ..d },
        DraftField::TimeoutMs => ProfileDraft { timeout_ms: value, ..d },
        DraftField::WaitModule => ProfileDraft { wait_module: value, ..d },
        DraftField::SettleMs => ProfileDraft { settle_ms: value, ..d },
        DraftField::SteamApp => ProfileDraft { steam_app: value, ..d },
    }
}

/// Applies an edit of one form field.
pub fn apply_draft(state: &mut ProfilesState, field: DraftField, value: String)
    ensures
        *final(state) == (ProfilesState { draft: draft_applied(old(state).draft, field, value), ..*old(state) }),
{
    match field {
        DraftField::Name => state.draft.name = value,
        DraftField::Process => state.draft.process = value,
        DraftField::Assembly => state.draft.assembly = value,
        DraftField::Namespace => state.draft.namespace = value,
        DraftField::ClassName => state.draft.class_name = value,
        DraftField::InjectMethod => state.draft.inject_method = value,
        DraftField::EjectMethod => state.draft.eject_method = value,
        DraftField::MonoModule => state.draft.mono_module = value,
        DraftField::BaseDir => state.draft.base_dir = value,
        DraftField::TimeoutMs => state.draft.timeout_ms = value,
        DraftField::WaitModule => state.draft.wait_module = value,
        DraftField::SettleMs => state.draft.settle_ms = value,
        DraftField::SteamApp => state.draft.steam_app = value,
    }
}

/// The request to store the form's profile under the form's name.
pub fn save_profile(state: &ProfilesState) -> (task: ProfilesTask)
    ensures
        task matches ProfilesTask::Save { name, profile } && name == state.draft.name
            && profile_of_draft(state.draft, profile),
{
    ProfilesTask::Save { name: state.draft.name.clone(), profile: draft_to_profile(&state.draft) }
}

/// The request to delete the selected profile; none without a valid selection.
pub fn delete_profile(state: &ProfilesState) -> (task: ProfilesTask)
    ensures
        match selected_summary(*state) {
            Some(s) => task == ProfilesTask::Delete(s.name),
            None => task is Idle,
        },
{
    match state.selected_index {
        Some(i) => if i < state.profiles.len() {
            ProfilesTask::Delete(state.profiles[i].name.clone())
        } else {
            ProfilesTask::Idle
        },
        None => ProfilesTask::Idle,
    }
}

/// The manager after a message, and the background work it asks for.
pub open spec fn update_ok(s0: ProfilesState, msg: ProfilesMsg, s1: ProfilesState, task: ProfilesTask) -> bool {
    match msg {
        ProfilesMsg::Load => s1 == s0 && task is LoadProfiles,
        ProfilesMsg::Loaded(r) => task is Idle && s1 == match r {
            Ok(list) => ProfilesState { profiles: list, ..s0 },
            Err(_) => s0,
        },
        ProfilesMsg::Select(i) => task is Idle
            && s1 == (ProfilesState { selected_index: Some(i), editing: false, ..s0 }),
        ProfilesMsg::NewProfile => task is Idle && blank_draft(s1.draft)
            && s1 == (ProfilesState { selected_index: None, draft: s1.draft, editing: true, ..s0 }),
        ProfilesMsg::EditClicked => task is Idle && match selected_summary(s0) {
            Some(s) => draft_of(s.name@, s.profile, s1.draft)
                && s1 == (ProfilesState { draft: s1.draft, editing: true, ..s0 }),
            None => s1 == s0,
        },
        ProfilesMsg::CancelEdit => task is Idle && s1 == (ProfilesState { editing: false, ..s0 }),
        ProfilesMsg::SaveClicked => s1 == s0 && (task matches ProfilesTask::Save { name, profile }
            && name == s0.draft.name && profile_of_draft(s0.draft, profile)),
        ProfilesMsg::Saved(r) => task is LoadProfiles && s1 == match r {
            Ok(()) => ProfilesState { save_error: None, editing: false, ..s0 },
            Err(e) => ProfilesState { save_error: Some(e), ..s0 },
        },
        ProfilesMsg::DeleteClicked => task is Idle && s1 == (ProfilesState { confirm_delete: true, ..s0 }),
        ProfilesMsg::ConfirmDelete => s1 == (ProfilesState { confirm_delete: false, ..s0 })
            && match selected_summary(s0) {
                Some(s) => task == ProfilesTask::Delete(s.name),
                None => task is Idle,
            },
        ProfilesMsg::CancelDelete => task is Idle && s1 == (ProfilesState { confirm_delete: false, ..s0 }),
        ProfilesMsg::Deleted(r) => task is LoadProfiles && s1 == match r {
            Ok(()) => ProfilesState { selected_index: None, editing: false, ..s0 },
            Err(_) => s0,
        },
        ProfilesMsg::InjectWithProfile => task is Idle && s1 == s0,
        ProfilesMsg::DraftChanged(field, value) => task is Idle
            && s1 == (ProfilesState { draft: draft_applied(s0.draft, field, value), ..s0 }),
    }
}

/// Applies a message to the manager and gives the background work it asks
/// for. After a save or delete result the list is loaded again. Injecting
/// with a profile is handled by the app.
pub fn update(state: &mut ProfilesState, msg: ProfilesMsg) -> (task: ProfilesTask)
    ensures
        update_ok(*old(state), msg, *final(state), task),
{
    match msg {
        ProfilesMsg::Load => ProfilesTask::LoadProfiles,
        ProfilesMsg::Loaded(r) => {
            apply_loaded(state, r);
            ProfilesTask::Idle
        },
        ProfilesMsg::Select(i) => {
            state.selected_index = Some(i);
            state.editing = false;
            ProfilesTask::Idle
        },
        ProfilesMsg::NewProfile => {
            start_new(state);
            ProfilesTask::Idle
        },
        ProfilesMsg::EditClicked => {
            start_edit(state);
            ProfilesTask::Idle
        },
        ProfilesMsg::CancelEdit => {
            state.editing = false;
            ProfilesTask::Idle
        },
        ProfilesMsg::SaveClicked => save_profile(state),
        ProfilesMsg::Saved(r) => {
            apply_saved(state, r);
            ProfilesTask::LoadProfiles
        },
        ProfilesMsg::DeleteClicked => {
            state.confirm_delete = true;
            ProfilesTask::Idle
        },
        ProfilesMsg::ConfirmDelete => {
            state.confirm_delete = false;
            delete_profile(state)
        },
        ProfilesMsg::CancelDelete => {
            state.confirm_delete = false;
            ProfilesTask::Idle
        },
        ProfilesMsg::Deleted(r) => {
            apply_deleted(state, &r);
            ProfilesTask::LoadProfiles
        },
        ProfilesMsg::InjectWithProfile => ProfilesTask::Idle,
        ProfilesMsg::DraftChanged(field, value) => {
            apply_draft(state, field, value);
            ProfilesTask::Idle
        },
    }
}

} // verus!
