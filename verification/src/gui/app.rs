//! The root of the graphical frontend: which panel is shown, the execution
//! log, and the routing of messages to the panels.
use vstd::prelude::*;

use crate::gui::eject::{self, EjectMsg, EjectState, EjectTask};
use crate::gui::format_process_label;
use crate::gui::inject::{self, InjectMsg, InjectState, InjectTask};
use crate::gui::log_strip::{self, Link, LogEntry, LogLevel};
use crate::gui::nav;
use crate::gui::processes::{self, ProcessesMsg, ProcessesState, ProcessesTask};
use crate::gui::profiles::{self, ProfilesMsg, ProfilesState, ProfilesTask};
use crate::gui::sidebar;
use crate::gui::status::{self, StatusMsg, StatusState, StatusTask};
use crate::gui::process_label_spec;
use crate::text::concat2;

verus! {

/// Maximum log entries kept in memory before oldest are evicted.
pub const MAX_LOG_ENTRIES: usize = 500;

/// Interval of the process browser's automatic refresh, in milliseconds.
pub const PROCESS_REFRESH_MS: u64 = 5000;

/// Top-level message type routing to sub-view messages.
#[derive(Debug)]
pub enum Message {
    Navigate(nav::View),
    Log(LogEntry),
    ClearLogs,
    Error(String),
    Inject(InjectMsg),
    Eject(EjectMsg),
    Status(StatusMsg),
    Processes(ProcessesMsg),
    Profiles(ProfilesMsg),
    LogStrip(log_strip::Msg),
}

/// Background work that a message asks for: the work of one panel, or
/// opening a link.
#[derive(Debug)]
pub enum Work {
    Idle,
    Inject(InjectTask),
    Eject(EjectTask),
    Status(StatusTask),
    Processes(ProcessesTask),
    Profiles(ProfilesTask),
    OpenLink(Link),
}

/// What an update asks of the runtime: background work, and messages to
/// handle next, in order.
#[derive(Debug)]
pub struct AppTask {
    pub work: Work,
    pub next: Vec<Message>,
}

/// Root application state holding every sub-view.
#[derive(Debug)]
pub struct App {
    pub active_view: nav::View,
    pub inject: InjectState,
    pub eject: EjectState,
    pub status: StatusState,
    pub processes: ProcessesState,
    pub profiles: ProfilesState,
    pub log_entries: Vec<LogEntry>,
}

impl Default for App {
    /// The inject panel, every panel in its initial state, an empty log.
    fn default() -> (r: Self)
        ensures
            r.active_view == nav::View::Inject,
            r.log_entries@.len() == 0,
    {
        App {
            active_view: nav::View::Inject,
            inject: InjectState::default(),
            eject: EjectState::default(),
            status: StatusState::default(),
            processes: ProcessesState::default(),
            profiles: ProfilesState::default(),
            log_entries: Vec::new(),
        }
    }
}

/// The log after appending an entry: the oldest entry goes once there are
/// more than [`MAX_LOG_ENTRIES`].
pub open spec fn pushed_log(log: Seq<LogEntry>, entry: LogEntry) -> Seq<LogEntry> {
    let l = log.push(entry);
    if l.len() > MAX_LOG_ENTRIES {
        l.drop_first()
    } else {
        l
    }
}

/// The message that opening a panel sends it: the panels with remote data
/// load it.
pub open spec fn arrival_message_ok(view: nav::View, m: Message) -> bool {
    match view {
        nav::View::Status => m matches Message::Status(StatusMsg::Load),
        nav::View::Processes => m matches Message::Processes(ProcessesMsg::Load),
        nav::View::Profiles => m matches Message::Profiles(ProfilesMsg::Load),
        nav::View::Inject => m matches Message::Inject(InjectMsg::RefreshProcesses),
        nav::View::Eject => m matches Message::Eject(EjectMsg::LoadRecords),
    }
}

/// The message that opening a panel sends it.
pub fn arrival_message(view: nav::View) -> (m: Message)
    ensures
        arrival_message_ok(view, m),
{
    match view {
        nav::View::Status => Message::Status(StatusMsg::Load),
        nav::View::Processes => Message::Processes(ProcessesMsg::Load),
        nav::View::Profiles => Message::Profiles(ProfilesMsg::Load),
        nav::View::Inject => Message::Inject(InjectMsg::RefreshProcesses),
        nav::View::Eject => Message::Eject(EjectMsg::LoadRecords),
    }
}

/// A task with no background work.
fn follow_up(next: Vec<Message>) -> (t: AppTask)
    ensures
        t.work is Idle,
        t.next@ == next@,
{
    AppTask { work: Work::Idle, next }
}

/// A task with background work and nothing to follow.
fn working(work: Work) -> (t: AppTask)
    ensures
        t.work == work,
        t.next@.len() == 0,
{
    AppTask { work, next: Vec::new() }
}

/// The log after a message's log line, if it has one, is pushed onto it
/// (evicting the oldest entry past [`MAX_LOG_ENTRIES`]).
pub open spec fn logged(before: Seq<LogEntry>, after: Seq<LogEntry>, line: Option<(LogLevel, Seq<char>)>) -> bool {
    match line {
        Some((level, text)) => after.len() > 0 && after == pushed_log(before, after.last())
            && after.last().level == level && after.last().message@ == text,
        None => after == before,
    }
}

/// Only the log and the given panel may differ between two app states.
pub open spec fn others_kept(a0: App, a1: App, panel: nav::View) -> bool {
    &&& a1.active_view == a0.active_view
    &&& (panel != nav::View::Inject ==> a1.inject == a0.inject)
    &&& (panel != nav::View::Eject ==> a1.eject == a0.eject)
    &&& (panel != nav::View::Status ==> a1.status == a0.status)
    &&& (panel != nav::View::Processes ==> a1.processes == a0.processes)
    &&& (panel != nav::View::Profiles ==> a1.profiles == a0.profiles)
}

/// An inject-panel message: the panel handles it, its log line is
/// recorded, and a successful injection moves on to the status panel.
pub open spec fn inject_routed(a0: App, m: InjectMsg, a1: App, t: AppTask) -> bool {
    &&& logged(a0.log_entries@, a1.log_entries@, inject::inject_log_spec(m))
    &&& others_kept(a0, a1, nav::View::Inject)
    &&& (t.work matches Work::Inject(task) && inject::update_ok(a0.inject, m, a1.inject, task))
    &&& if (m matches InjectMsg::InjectDone(Ok(_))) {
        t.next@.len() == 1 && (t.next@[0] matches Message::Navigate(nav::View::Status))
    } else {
        t.next@.len() == 0
    }
}

/// An eject-panel message: the panel handles it, its log line is
/// recorded, and a successful ejection moves on to the status panel.
pub open spec fn eject_routed(a0: App, m: EjectMsg, a1: App, t: AppTask) -> bool {
    &&& logged(a0.log_entries@, a1.log_entries@, eject::eject_log_spec(m))
    &&& others_kept(a0, a1, nav::View::Eject)
    &&& (t.work matches Work::Eject(task) && eject::update_ok(a0.eject, m, a1.eject, task))
    &&& if (m matches EjectMsg::EjectDone(Ok(_))) {
        t.next@.len() == 1 && (t.next@[0] matches Message::Navigate(nav::View::Status))
    } else {
        t.next@.len() == 0
    }
}

/// A status-panel message: ejecting a record fills the eject panel from it
/// and opens that panel; any other message goes to the status panel, with
/// its log line recorded.
pub open spec fn status_routed(a0: App, m: StatusMsg, a1: App, t: AppTask) -> bool {
    match m {
        StatusMsg::EjectRecord(rec) => {
            &&& a1.eject == (EjectState {
                handle_input: rec.handle,
                process_input: rec.process_name,
                namespace_input: rec.namespace,
                class_input: rec.class_name,
                method_input: rec.eject_method,
                ..a0.eject
            })
            &&& others_kept(a0, a1, nav::View::Eject)
            &&& a1.log_entries@ == a0.log_entries@
            &&& t.work is Idle
            &&& t.next@.len() == 1 && (t.next@[0] matches Message::Navigate(nav::View::Eject))
        },
        _ => {
            &&& logged(a0.log_entries@, a1.log_entries@, status::status_log_spec(m))
            &&& others_kept(a0, a1, nav::View::Status)
            &&& (t.work matches Work::Status(task) && status::update_ok(a0.status, m, a1.status, task))
            &&& t.next@.len() == 0
        },
    }
}

/// A process-browser message: sending a process to the inject panel fills
/// its process field with the process label, opens that panel and logs the
/// choice; any other message goes to the browser.
pub open spec fn processes_routed(a0: App, m: ProcessesMsg, a1: App, t: AppTask) -> bool {
    &&& a1.log_entries@ == a0.log_entries@
    &&& match m {
        ProcessesMsg::SendToInject(p) => {
            &&& a1.inject.process_input@ == process_label_spec(p.name@, p.pid)
            &&& a1.inject == (InjectState { process_input: a1.inject.process_input, ..a0.inject })
            &&& others_kept(a0, a1, nav::View::Inject)
            &&& t.work is Idle
            &&& t.next@.len() == 2
            &&& (t.next@[0] matches Message::Navigate(nav::View::Inject))
            &&& (t.next@[1] matches Message::Log(e) && e.level == LogLevel::Info
                && e.message@ == "Process "@ + p.name@ + " selected from browser"@)
        },
        _ => {
            &&& others_kept(a0, a1, nav::View::Processes)
            &&& (t.work matches Work::Processes(task) && processes::update_ok(a0.processes, m, a1.processes, task))
            &&& t.next@.len() == 0
        },
    }
}

/// A profile-manager message: its log line is recorded; injecting with a
/// profile selects the chosen profile on the inject panel and opens that
/// panel; any other message goes to the manager.
pub open spec fn profiles_routed(a0: App, m: ProfilesMsg, a1: App, t: AppTask) -> bool {
    &&& logged(a0.log_entries@, a1.log_entries@, profiles::profiles_log_spec(m))
    &&& match m {
        ProfilesMsg::InjectWithProfile => {
            &&& a1.inject == (InjectState {
                profile_selection: match profiles::selected_summary(a0.profiles) {
                    Some(s) => Some(s.name),
                    None => a0.inject.profile_selection,
                },
                ..a0.inject
            })
            &&& others_kept(a0, a1, nav::View::Inject)
            &&& t.work is Idle
            &&& t.next@.len() == 1 && (t.next@[0] matches Message::Navigate(nav::View::Inject))
        },
        _ => {
            &&& others_kept(a0, a1, nav::View::Profiles)
            &&& (t.work matches Work::Profiles(task) && profiles::update_ok(a0.profiles, m, a1.profiles, task))
            &&& t.next@.len() == 0
        },
    }
}

impl App {
    /// The automatic refresh: every [`PROCESS_REFRESH_MS`] the process
    /// browser is refreshed while it is shown.
    pub fn subscription(&self) -> (r: Option<u64>)
        ensures
            r == if self.active_view == nav::View::Processes { Some(PROCESS_REFRESH_MS) } else { None },
    {
        if self.active_view == nav::View::Processes {
            Some(PROCESS_REFRESH_MS)
        } else {
            None
        }
    }

    /// Appends an entry to the log, evicting the oldest past the maximum.
    pub fn push_log(&mut self, entry: LogEntry)
        ensures
            final(self).log_entries@ == pushed_log(old(self).log_entries@, entry),
            old(self).log_entries@.len() <= MAX_LOG_ENTRIES ==> final(self).log_entries@.len() <= MAX_LOG_ENTRIES,
            *final(self) == (App { log_entries: final(self).log_entries, ..*old(self) }),
    {
        self.log_entries.push(entry);
        if self.log_entries.len() > MAX_LOG_ENTRIES {
            self.log_entries.remove(0);
        }
    }

    /// Shows a panel and sends it its arrival message.
    pub fn handle_navigate(&mut self, view: nav::View) -> (t: AppTask)
        ensures
            *final(self) == (App { active_view: view, ..*old(self) }),
            t.work is Idle,
            t.next@.len() == 1 && arrival_message_ok(view, t.next@[0]),
    {
        self.active_view = view;
        let mut next: Vec<Message> = Vec::new();
        next.push(arrival_message(view));
        follow_up(next)
    }

    /// Routes an inject-panel message: its log line is recorded, and a
    /// successful injection moves on to the status panel.
    pub fn update_inject(&mut self, msg: InjectMsg) -> (t: AppTask)
        ensures
            inject_routed(*old(self), msg, *final(self), t),
    {
        let navigate_on_success = match &msg {
            InjectMsg::InjectDone(Ok(_)) => true,
            _ => false,
        };
        if let Some(entry) = msg.log_entry() {
            self.push_log(entry);
        }
        let task = inject::update(&mut self.inject, msg);
        let mut next: Vec<Message> = Vec::new();
        if navigate_on_success {
            next.push(Message::Navigate(nav::View::Status));
        }
        AppTask { work: Work::Inject(task), next }
    }

    /// Routes an eject-panel message: its log line is recorded, and a
    /// successful ejection moves on to the status panel.
    pub fn update_eject(&mut self, msg: EjectMsg) -> (t: AppTask)
        ensures
            eject_routed(*old(self), msg, *final(self), t),
    {
        let navigate_on_success = match &msg {
            EjectMsg::EjectDone(Ok(_)) => true,
            _ => false,
        };
        if let Some(entry) = msg.log_entry() {
            self.push_log(entry);
        }
        let task = eject::update(&mut self.eject, msg);
        let mut next: Vec<Message> = Vec::new();
        if navigate_on_success {
            next.push(Message::Navigate(nav::View::Status));
        }
        AppTask { work: Work::Eject(task), next }
    }

    /// Routes a status-panel message. Ejecting a record fills the eject
    /// panel from it and opens that panel.
    pub fn update_status(&mut self, msg: StatusMsg) -> (t: AppTask)
        ensures
            status_routed(*old(self), msg, *final(self), t),
    {
        if let StatusMsg::EjectRecord(rec) = &msg {
            self.eject.handle_input = rec.handle.clone();
            self.eject.process_input = rec.process_name.clone();
            self.eject.namespace_input = rec.namespace.clone();
            self.eject.class_input = rec.class_name.clone();
            self.eject.method_input = rec.eject_method.clone();
            let mut next: Vec<Message> = Vec::new();
            next.push(Message::Navigate(nav::View::Eject));
            return follow_up(next);
        }
        if let Some(entry) = msg.log_entry() {
            self.push_log(entry);
        }
        let task = status::update(&mut self.status, msg);
        working(Work::Status(task))
    }

    /// Routes a process-browser message. Sending a process to the inject
    /// panel fills its process field with the process label, opens that
    /// panel and logs the choice.
    pub fn update_processes(&mut self, msg: ProcessesMsg) -> (t: AppTask)
        ensures
            processes_routed(*old(self), msg, *final(self), t),
    {
        if let ProcessesMsg::SendToInject(p) = &msg {
            self.inject.process_input = format_process_label(p.name.as_str(), p.pid);
            let a = concat2("Process ", p.name.as_str());
            let text = concat2(a.as_str(), " selected from browser");
            let mut next: Vec<Message> = Vec::new();
            next.push(Message::Navigate(nav::View::Inject));
            next.push(Message::Log(LogEntry::info(text)));
            return follow_up(next);
        }
        let task = processes::update(&mut self.processes, msg);
        working(Work::Processes(task))
    }

    /// Routes a profile-manager message. Injecting with a profile selects
    /// the chosen profile on the inject panel and opens that panel.
    pub fn update_profiles(&mut self, msg: ProfilesMsg) -> (t: AppTask)
        ensures
            profiles_routed(*old(self), msg, *final(self), t),
    {
        let inject_profile = match &msg {
            ProfilesMsg::InjectWithProfile => true,
            _ => false,
        };
        if let Some(entry) = msg.log_entry() {
            self.push_log(entry);
        }
        if inject_profile {
            if let Some(i) = self.profiles.selected_index {
                if i < self.profiles.profiles.len() {
                    self.inject.profile_selection = Some(self.profiles.profiles[i].name.clone());
                }
            }
            let mut next: Vec<Message> = Vec::new();
            next.push(Message::Navigate(nav::View::Inject));
            return follow_up(next);
        }
        let task = profiles::update(&mut self.profiles, msg);
        working(Work::Profiles(task))
    }

    /// Handles a message: navigation, the log, or a panel's message.
    pub fn update(&mut self, msg: Message) -> (t: AppTask)
        ensures
            match msg {
                Message::Navigate(v) => final(self).active_view == v && t.next@.len() == 1
                    && arrival_message_ok(v, t.next@[0]) && t.work is Idle
                    && *final(self) == (App { active_view: v, ..*old(self) }),
                Message::Log(e) => final(self).log_entries@ == pushed_log(old(self).log_entries@, e) && t.work is Idle
                    && t.next@.len() == 0 && *final(self) == (App { log_entries: final(self).log_entries, ..*old(self) }),
                Message::ClearLogs => final(self).log_entries@.len() == 0 && t.work is Idle && t.next@.len() == 0
                    && *final(self) == (App { log_entries: final(self).log_entries, ..*old(self) }),
                Message::Error(text) => final(self).log_entries@.len() > 0
                    && final(self).log_entries@.last().level == LogLevel::Error
                    && final(self).log_entries@.last().message == text
                    && final(self).log_entries@.drop_last() == (if old(self).log_entries@.len() + 1 > MAX_LOG_ENTRIES {
                        old(self).log_entries@.drop_first()
                    } else {
                        old(self).log_entries@
                    }) && t.work is Idle && t.next@.len() == 0
                    && *final(self) == (App { log_entries: final(self).log_entries, ..*old(self) }),
                Message::Inject(m) => inject_routed(*old(self), m, *final(self), t),
                Message::Eject(m) => eject_routed(*old(self), m, *final(self), t),
                Message::Status(m) => status_routed(*old(self), m, *final(self), t),
                Message::Processes(m) => processes_routed(*old(self), m, *final(self), t),
                Message::Profiles(m) => profiles_routed(*old(self), m, *final(self), t),
                Message::LogStrip(log_strip::Msg::Open(link)) => t.work == Work::OpenLink(link) && t.next@.len() == 0
                    && *final(self) == *old(self),
            },
            old(self).log_entries@.len() <= MAX_LOG_ENTRIES ==> final(self).log_entries@.len() <= MAX_LOG_ENTRIES,
    {
        match msg {
            Message::Navigate(v) => self.handle_navigate(v),
            Message::Log(e) => {
                self.push_log(e);
                follow_up(Vec::new())
            },
            Message::ClearLogs => {
                self.log_entries.clear();
                follow_up(Vec::new())
            },
            Message::Error(e) => {
                self.push_log(LogEntry::error(e));
                follow_up(Vec::new())
            },
            Message::Inject(m) => self.update_inject(m),
            Message::Eject(m) => self.update_eject(m),
            Message::Status(m) => self.update_status(m),
            Message::Processes(m) => self.update_processes(m),
            Message::Profiles(m) => self.update_profiles(m),
            Message::LogStrip(m) => match m {
                log_strip::Msg::Open(link) => working(Work::OpenLink(link)),
            },
        }
    }
}

/// The sidebar's messages as messages of the app.
pub fn from_sidebar(msg: sidebar::Msg) -> (r: Message)
    ensures
        match msg {
            sidebar::Msg::Navigate(v) => r matches Message::Navigate(w) && w == v,
            sidebar::Msg::ClearLogs => r matches Message::ClearLogs,
        },
{
    match msg {
        sidebar::Msg::Navigate(v) => Message::Navigate(v),
        sidebar::Msg::ClearLogs => Message::ClearLogs,
    }
}

} // verus!
