//! The status panel: remembered injections, whether their process instance
//! still runs, and the clean-up requests.
use vstd::prelude::*;

use crate::gui::log_strip::{LogEntry, LogLevel};
use crate::gui::processes::{shade_of, RowShade};
use crate::gui::{elapsed_secs, file_name, file_name_spec, relative_text, relative_time_at};
use crate::process::ProcessInfo;
use crate::state::{entry_name_spec, is_live, is_live_spec, CleanMode, InjectionRecord};
use crate::text::{concat2, contains, contains_spec, decimal, lowercase, owned, to_lowercase, u64_to_decimal};

verus! {

/// An injection record annotated with live/stale status.
#[derive(Debug, Clone)]
pub struct RecordRow {
    pub record: InjectionRecord,
    pub is_stale: bool,
}

/// State for the Status (active injections) view.
#[derive(Debug, Clone)]
pub struct StatusState {
    pub rows: Vec<RecordRow>,
    pub filter_text: String,
    pub loading: bool,
    pub confirm_clean_all: bool,
}

impl Default for StatusState {
    /// Nothing loaded, no filter.
    fn default() -> (r: Self)
        ensures
            r.rows@.len() == 0,
            r.filter_text@.len() == 0,
            !r.loading,
            !r.confirm_clean_all,
    {
        StatusState { rows: Vec::new(), filter_text: String::new(), loading: false, confirm_clean_all: false }
    }
}

/// Messages handled by the Status view.
#[derive(Debug)]
pub enum StatusMsg {
    Load,
    Loaded(Result<Vec<RecordRow>, String>),
    FilterChanged(String),
    Refresh,
    CleanStale,
    CleanAll,
    ConfirmCleanAll,
    CancelCleanAll,
    Cleaned(Result<usize, String>),
    EjectRecord(InjectionRecord),
}

/// Background work the Status view asks for: loading the records with the
/// live processes (answered by `Loaded`), or removing records (answered by
/// `Cleaned`).
#[derive(Debug, Clone)]
pub enum StatusTask {
    Idle,
    LoadRecords,
    Clean(CleanMode),
}

/// The log line of a clean-up result, as level and message.
pub open spec fn status_log_spec(msg: StatusMsg) -> Option<(LogLevel, Seq<char>)> {
    match msg {
        StatusMsg::Cleaned(Ok(n)) => Some((LogLevel::Success, "Cleaned "@ + decimal(n as nat) + " injection record(s)"@)),
        StatusMsg::Cleaned(Err(e)) => Some((LogLevel::Error, "Clean failed: "@ + e@)),
        _ => None,
    }
}

impl StatusMsg {
    /// Returns a log entry for clean-up results so the app can record it.
    pub fn log_entry(&self) -> (r: Option<LogEntry>)
        ensures
            match status_log_spec(*self) {
                Some((level, text)) => r matches Some(e) && e.level == level && e.message@ == text,
                None => r is None,
            },
    {
        match self {
            StatusMsg::Cleaned(Ok(n)) => {
                let d = u64_to_decimal(*n as u64);
                let a = concat2("Cleaned ", d.as_str());
                Some(LogEntry::ok(concat2(a.as_str(), " injection record(s)")))
            },
            StatusMsg::Cleaned(Err(e)) => Some(LogEntry::error(concat2("Clean failed: ", e.as_str()))),
            _ => None,
        }
    }
}

/// Takes loaded rows; a failed load keeps the current ones. Loading stops.
pub fn apply_loaded(state: &mut StatusState, result: Result<Vec<RecordRow>, String>)
    ensures
        *final(state) == match result {
            Ok(rows) => StatusState { loading: false, rows: rows, ..*old(state) },
            Err(_) => StatusState { loading: false, ..*old(state) },
        },
{
    state.loading = false;
    if let Ok(rows) = result {
        state.rows = rows;
    }
}

/// The panel after a message, and the background work it asks for.
pub open spec fn update_ok(s0: StatusState, msg: StatusMsg, s1: StatusState, task: StatusTask) -> bool {
    match msg {
        StatusMsg::Load | StatusMsg::Refresh => task is LoadRecords
            && s1 == (StatusState { loading: true, ..s0 }),
        StatusMsg::Loaded(r) => task is Idle && s1 == match r {
            Ok(rows) => StatusState { loading: false, rows: rows, ..s0 },
            Err(_) => StatusState { loading: false, ..s0 },
        },
        StatusMsg::FilterChanged(f) => task is Idle && s1 == (StatusState { filter_text: f, ..s0 }),
        StatusMsg::CleanStale => task == StatusTask::Clean(CleanMode::Stale) && s1 == s0,
        StatusMsg::CleanAll => task is Idle && s1 == (StatusState { confirm_clean_all: true, ..s0 }),
        StatusMsg::ConfirmCleanAll => task == StatusTask::Clean(CleanMode::All)
            && s1 == (StatusState { confirm_clean_all: false, ..s0 }),
        StatusMsg::CancelCleanAll => task is Idle
            && s1 == (StatusState { confirm_clean_all: false, ..s0 }),
        StatusMsg::Cleaned(r) => if r is Ok {
            task is LoadRecords && s1 == (StatusState { loading: true, ..s0 })
        } else {
            task is Idle && s1 == s0
        },
        StatusMsg::EjectRecord(_) => task is Idle && s1 == s0,
    }
}

/// Applies a message to the panel and gives the background work it asks
/// for. A successful clean-up loads the records again; ejecting a record is
/// handled by the app.
pub fn update(state: &mut StatusState, msg: StatusMsg) -> (task: StatusTask)
    ensures
        update_ok(*old(state), msg, *final(state), task),
{
    match msg {
        StatusMsg::Load | StatusMsg::Refresh => {
            state.loading = true;
            StatusTask::LoadRecords
        },
        StatusMsg::Loaded(r) => {
            apply_loaded(state, r);
            StatusTask::Idle
        },
        StatusMsg::FilterChanged(f) => {
            state.filter_text = f;
            StatusTask::Idle
        },
        StatusMsg::CleanStale => StatusTask::Clean(CleanMode::Stale),
        StatusMsg::CleanAll => {
            state.confirm_clean_all = true;
            StatusTask::Idle
        },
        StatusMsg::ConfirmCleanAll => {
            state.confirm_clean_all = false;
            StatusTask::Clean(CleanMode::All)
        },
        StatusMsg::CancelCleanAll => {
            state.confirm_clean_all = false;
            StatusTask::Idle
        },
        StatusMsg::Cleaned(r) => if r.is_ok() {
            state.loading = true;
            StatusTask::LoadRecords
        } else {
            StatusTask::Idle
        },
        StatusMsg::EjectRecord(_) => StatusTask::Idle,
    }
}

/// A record with whether its process instance is gone from the live processes.
pub fn make_row(record: InjectionRecord, live: &Vec<ProcessInfo>) -> (r: RecordRow)
    ensures
        r.record == record,
        r.is_stale == !is_live_spec(record, live@),
{
    let is_stale = !is_live(&record, live);
    RecordRow { record, is_stale }
}

/// The rows of the status table: each record, in order, marked stale when
/// its process instance is not among the live processes.
pub fn build_record_rows(records: Vec<InjectionRecord>, live: &Vec<ProcessInfo>) -> (r: Vec<RecordRow>)
    ensures
        r@.len() == records@.len(),
        forall|i: int| 0 <= i < r@.len() ==> (#[trigger] r@[i]).record == records@[i]
            && r@[i].is_stale == !is_live_spec(records@[i], live@),
{
    let mut r: Vec<RecordRow> = Vec::new();
    let mut i: usize = 0;
    while i < records.len()
        invariant
            i <= records.len(),
            r@.len() == i,
            forall|j: int| 0 <= j < i ==> (#[trigger] r@[j]).record == records@[j]
                && r@[j].is_stale == !is_live_spec(records@[j], live@),
        decreases records.len() - i,
    {
        r.push(make_row(records[i].duplicate(), live));
        i = i + 1;
    }
    r
}

/// A row is shown: the lower-cased filter is empty or the lower-cased
/// process name contains it.
pub open spec fn row_shown(row: RecordRow, text: Seq<char>) -> bool {
    lowercase(text).len() == 0 || contains_spec(lowercase(row.record.process_name@), lowercase(text))
}

/// The positions of the rows the table shows, in order.
pub fn visible_rows(state: &StatusState) -> (r: Vec<usize>)
    ensures
        forall|k: int| 0 <= k < r@.len() ==> (#[trigger] r@[k]) < state.rows@.len()
            && row_shown(state.rows@[r@[k] as int], state.filter_text@),
        forall|k: int, l: int| 0 <= k < l < r@.len() ==> r@[k] < r@[l],
        forall|i: int| 0 <= i < state.rows@.len() && row_shown(#[trigger] state.rows@[i], state.filter_text@)
            ==> r@.contains(i as usize),
{
    let filter = to_lowercase(state.filter_text.as_str());
    let text_empty = crate::text::chars_of(filter.as_str()).len() == 0;
    let mut r: Vec<usize> = Vec::new();
    let mut i: usize = 0;
    while i < state.rows.len()
        invariant
            i <= state.rows.len(),
            filter@ == lowercase(state.filter_text@),
            text_empty == (lowercase(state.filter_text@).len() == 0),
            forall|k: int| 0 <= k < r@.len() ==> (#[trigger] r@[k]) < i
                && row_shown(state.rows@[r@[k] as int], state.filter_text@),
            forall|k: int, l: int| 0 <= k < l < r@.len() ==> r@[k] < r@[l],
            forall|j: int| 0 <= j < i && row_shown(#[trigger] state.rows@[j], state.filter_text@)
                ==> r@.contains(j as usize),
        decreases state.rows.len() - i,
    {
        let keep = text_empty || {
            let name = to_lowercase(state.rows[i].record.process_name.as_str());
            contains(name.as_str(), filter.as_str())
        };
        if keep {
            let ghost old_r = r@;
            r.push(i);
            assert forall|j: int| 0 <= j < i + 1 && row_shown(#[trigger] state.rows@[j], state.filter_text@)
                implies r@.contains(j as usize) by {
                if j < i {
                    let k = choose|k: int| 0 <= k < old_r.len() && old_r[k] == j as usize;
                    assert(r@[k] == j as usize);
                } else {
                    assert(r@[r@.len() - 1] == j as usize);
                }
            }
        }
        i = i + 1;
    }
    r
}

/// What a row of the status table shows.
#[derive(Debug, Clone)]
pub struct RecordRowView {
    pub shade: RowShade,
    pub process_name: String,
    pub stale: bool,
    pub pid_text: String,
    pub assembly: String,
    pub entry: String,
    pub handle: String,
    pub injected: String,
}

/// The assembly column: the file name of the remembered assembly path, or
/// a dash.
pub open spec fn assembly_cell(path: Option<String>) -> Seq<char> {
    match path {
        Some(p) => match file_name_spec(p@) {
            Some(n) => n,
            None => "—"@,
        },
        None => "—"@,
    }
}

/// The row of a remembered injection seen at time `now`: highlighted and
/// marked stale (with a dead handle) when its process instance is gone, its
/// PID, the file name of its assembly, cleanup entry point, handle, and how
/// long ago it was injected.
pub fn record_row(r: &RecordRow, odd: bool, now: u64) -> (v: RecordRowView)
    ensures
        v.shade == shade_of(r.is_stale, odd),
        v.process_name == r.record.process_name,
        v.stale == r.is_stale,
        v.pid_text@ == decimal(r.record.pid as nat),
        v.assembly@ == assembly_cell(r.record.assembly_path),
        v.entry@ == entry_name_spec(r.record.namespace@, r.record.class_name@, r.record.eject_method@),
        v.handle == r.record.handle,
        v.injected@ == relative_text(elapsed_secs(now, r.record.injected_at)),
{
    let shade = if r.is_stale {
        RowShade::Highlighted
    } else if odd {
        RowShade::Odd
    } else {
        RowShade::Even
    };
    let assembly = match &r.record.assembly_path {
        Some(p) => match file_name(p.as_str()) {
            Some(n) => n,
            None => owned("—"),
        },
        None => owned("—"),
    };
    RecordRowView {
        shade,
        assembly,
        process_name: r.record.process_name.clone(),
        stale: r.is_stale,
        pid_text: u64_to_decimal(r.record.pid as u64),
        entry: r.record.entry(),
        handle: r.record.handle.clone(),
        injected: relative_time_at(now, r.record.injected_at),
    }
}

} // verus!
