//! Decisions of the command-line frontend: resolving a target to a PID,
//! the process listing it prints, and which records `status` shows.
use vstd::prelude::*;

use crate::error::Error;
use crate::names::lookup;
use crate::process::{
    resolve_process, resolved_index, rows_of, rows_with_pid, sort_by_pid, stable_pid_sort_of, target_running, ModuleFilter,
    ProcessInfo, ProcessListing, Row,
};
use crate::profiles::ProfilesFile;
use crate::state::{clone_opt, matching, matching_pred, InjectionRecord};
use crate::text::{contains, contains_spec, eq_ci, eq_ignore_ascii_case, lowercase, parse_bounded, to_lowercase};

verus! {

/// How a target selects a PID: text that reads as a `u32` is the PID
/// itself; other text names the first process of the snapshot whose name
/// equals it up to ASCII case.
pub open spec fn pid_resolved(snapshot: Seq<(u32, String)>, target: Seq<char>, r: Result<u32, Error>) -> bool {
    match parse_bounded(target, 10, u32::MAX as nat) {
        Some(pid) => r == Ok::<u32, Error>(pid as u32),
        None => match r {
            Ok(pid) => exists|i: int|
                0 <= i < snapshot.len() && snapshot[i].0 == pid && eq_ci(snapshot[i].1@, target) && forall|j: int|
                    0 <= j < i ==> !eq_ci((#[trigger] snapshot[j]).1@, target),
            Err(e) => (e matches Error::ProcessNotFound(t) && t@ == target) && forall|j: int|
                0 <= j < snapshot.len() ==> !eq_ci((#[trigger] snapshot[j]).1@, target),
        },
    }
}

/// Resolves a target string to a process ID against a snapshot of running
/// processes, given as PID and name.
pub fn resolve_pid(target: &str, snapshot: &Vec<(u32, String)>) -> (r: Result<u32, Error>)
    ensures
        pid_resolved(snapshot@, target@, r),
{
    let chars = crate::text::chars_of(target);
    if let Some(pid) = crate::text::parse_radix(chars.as_slice(), 10, u32::MAX as u64) {
        return Ok(pid as u32);
    }
    let mut i: usize = 0;
    while i < snapshot.len()
        invariant
            i <= snapshot.len(),
            parse_bounded(target@, 10, u32::MAX as nat) is None,
            forall|j: int| 0 <= j < i ==> !eq_ci((#[trigger] snapshot@[j]).1@, target@),
        decreases snapshot.len() - i,
    {
        if eq_ignore_ascii_case(snapshot[i].1.as_str(), target) {
            return Ok(snapshot[i].0);
        }
        i = i + 1;
    }
    Err(Error::ProcessNotFound(crate::text::owned(target)))
}

/// A snapshot entry is listed: there is no filter, or the lower-cased name
/// contains the lower-cased filter.
pub open spec fn listed_with(entry: (u32, String), filter: Option<Seq<char>>) -> bool {
    match filter {
        None => true,
        Some(f) => contains_spec(lowercase(entry.1@), lowercase(f)),
    }
}

/// The row of a listed PID and name.
pub open spec fn pair_row(pid: u32, name: Seq<char>) -> Row {
    (pid, name, Seq::empty())
}

/// The rows of listed PIDs and names.
pub open spec fn pair_rows(s: Seq<(u32, String)>) -> Seq<Row> {
    s.map_values(|e: (u32, String)| pair_row(e.0, e.1@))
}

/// The rows of the snapshot entries that the filter keeps, in snapshot order.
pub open spec fn listed_rows(snapshot: Seq<(u32, String)>, filter: Option<Seq<char>>) -> Seq<Row> {
    snapshot.filter(|e: (u32, String)| listed_with(e, filter)).map_values(
        |e: (u32, String)| pair_row(e.0, e.1@),
    )
}

/// The characters of an optional string slice.
pub open spec fn opt_str(o: Option<&str>) -> Option<Seq<char>> {
    match o {
        Some(s) => Some(s@),
        None => None,
    }
}

/// Lists the running processes of a snapshot (PID and name) whose name
/// contains the filter, ignoring case, sorted by PID.
pub fn list_processes(snapshot: &Vec<(u32, String)>, filter: Option<&str>) -> (r: Vec<(u32, String)>)
    ensures
        stable_pid_sort_of(pair_rows(r@), listed_rows(snapshot@, opt_str(filter))),
{
    let lower: Option<String> = match filter {
        Some(f) => Some(to_lowercase(f)),
        None => None,
    };
    let ghost pred = |e: (u32, String)| listed_with(e, opt_str(filter));
    let ghost g = |e: (u32, String)| pair_row(e.0, e.1@);
    let mut kept: Vec<ProcessListing> = Vec::new();
    let mut i: usize = 0;
    while i < snapshot.len()
        invariant
            i <= snapshot.len(),
            pred == (|e: (u32, String)| listed_with(e, opt_str(filter))),
            g == (|e: (u32, String)| pair_row(e.0, e.1@)),
            match filter {
                Some(f) => lower matches Some(l) && l@ == lowercase(f@),
                None => lower is None,
            },
            rows_of(kept@) == snapshot@.take(i as int).filter(pred).map_values(g),
            forall|j: int| 0 <= j < kept@.len() ==> (#[trigger] kept@[j]).matched_modules@.len() == 0,
        decreases snapshot.len() - i,
    {
        let keep = match &lower {
            None => true,
            Some(l) => {
                let name = to_lowercase(snapshot[i].1.as_str());
                contains(name.as_str(), l.as_str())
            },
        };
        proof {
            crate::seqs::lemma_filter_take_step(snapshot@, pred, i as int);
        }
        if keep {
            let ghost before = kept@;
            let row = ProcessListing { pid: snapshot[i].0, name: snapshot[i].1.clone(), matched_modules: Vec::new() };
            assert(crate::process::strs(row.matched_modules@) =~= Seq::<Seq<char>>::empty());
            assert(row.name@ == snapshot@[i as int].1@);
            kept.push(row);
            assert(rows_of(kept@) =~= rows_of(before).push(g(snapshot@[i as int])));
            assert(snapshot@.take(i as int).filter(pred).push(snapshot@[i as int]).map_values(g)
                =~= snapshot@.take(i as int).filter(pred).map_values(g).push(g(snapshot@[i as int])));
        }
        i = i + 1;
    }
    assert(snapshot@.take(snapshot.len() as int) =~= snapshot@);
    let ghost input = rows_of(kept@);
    let sorted = sort_by_pid(kept);
    proof {
        broadcast use vstd::seq_lib::group_filter_ensures;
        assert forall|j: int| 0 <= j < sorted@.len() implies (#[trigger] sorted@[j]).matched_modules@.len() == 0 by {
            let x = rows_of(sorted@)[j];
            let pp = |r: Row| r.0 == x.0;
            assert(rows_of(sorted@)[j] == x);
            assert(rows_with_pid(rows_of(sorted@), x.0).contains(x));
            assert(rows_with_pid(input, x.0).contains(x));
            input.lemma_filter_contains_rev(pp, x);
            let k = choose|k: int| 0 <= k < input.len() && input[k] == x;
            assert(input[k].2 == crate::process::strs(kept@[k].matched_modules@));
        }
    }
    let mut r: Vec<(u32, String)> = Vec::new();
    let mut k: usize = 0;
    while k < sorted.len()
        invariant
            k <= sorted.len(),
            forall|j: int| 0 <= j < sorted@.len() ==> (#[trigger] sorted@[j]).matched_modules@.len() == 0,
            pair_rows(r@) == rows_of(sorted@).take(k as int),
        decreases sorted.len() - k,
    {
        let ghost before = r@;
        r.push((sorted[k].pid, sorted[k].name.clone()));
        assert(crate::process::strs(sorted@[k as int].matched_modules@) =~= Seq::<Seq<char>>::empty());
        assert(pair_rows(r@) =~= pair_rows(before).push(pair_row(sorted@[k as int].pid, sorted@[k as int].name@)));
        assert(rows_of(sorted@).take(k + 1) =~= rows_of(sorted@).take(k as int).push(rows_of(sorted@)[k as int]));
        k = k + 1;
    }
    assert(rows_of(sorted@).take(sorted@.len() as int) =~= rows_of(sorted@));
    r
}

/// The profile a command names: the `--profile` flag wins over the
/// positional name.
pub fn profile_name(positional: Option<&String>, alias: Option<&String>) -> (r: Option<String>)
    ensures
        r == match alias {
            Some(a) => Some(*a),
            None => match positional {
                Some(p) => Some(*p),
                None => None,
            },
        },
{
    match alias {
        Some(a) => Some(a.clone()),
        None => match positional {
            Some(p) => Some(p.clone()),
            None => None,
        },
    }
}

/// The module filter of the `--mono` and `--unity` flags.
pub fn module_filter(mono: bool, unity: bool) -> (r: ModuleFilter)
    ensures
        r == if mono && unity {
            ModuleFilter::MonoAndUnity
        } else if mono {
            ModuleFilter::Mono
        } else if unity {
            ModuleFilter::Unity
        } else {
            ModuleFilter::Any
        },
{
    if mono && unity {
        ModuleFilter::MonoAndUnity
    } else if mono {
        ModuleFilter::Mono
    } else if unity {
        ModuleFilter::Unity
    } else {
        ModuleFilter::Any
    }
}

/// The process whose records `status` shows: the `-p` argument, else the
/// process of the named profile (a missing profile is an error), else none.
pub fn status_target(
    process: Option<&String>,
    profile: Option<String>,
    profiles: &ProfilesFile,
) -> (r: Result<Option<String>, Error>)
    ensures
        match process {
            Some(p) => r == Ok::<Option<String>, Error>(Some(*p)),
            None => match profile {
                None => r == Ok::<Option<String>, Error>(None),
                Some(n) => match lookup(profiles.profiles@, n@) {
                    Some(found) => r == Ok::<Option<String>, Error>(found.process),
                    None => r matches Err(Error::ProfileNotFound(m)) && m@ == n@,
                },
            },
        },
{
    if let Some(p) = process {
        return Ok(Some(p.clone()));
    }
    match profile {
        None => Ok(None),
        Some(n) => match crate::profiles::get_profile(profiles, n.as_str()) {
            Ok(found) => Ok(found.process),
            Err(e) => Err(e),
        },
    }
}

/// The records `status` shows: those of the target's process instance, or
/// all records without a target; a target that is not running is an error.
pub fn status_records(
    target: Option<&str>,
    processes: &Vec<ProcessInfo>,
    records: &Vec<InjectionRecord>,
) -> (r: Result<Vec<InjectionRecord>, Error>)
    ensures
        match target {
            None => r matches Ok(v) && v@ == records@,
            Some(t) => if target_running(processes@, t@) {
                r matches Ok(v) && v@ == records@.filter(
                    matching_pred(processes@[resolved_index(processes@, t@)], None, None),
                )
            } else {
                r matches Err(Error::ProcessNotFound(m)) && m@ == t@
            },
        },
{
    match target {
        None => {
            let mut v: Vec<InjectionRecord> = Vec::new();
            let mut i: usize = 0;
            while i < records.len()
                invariant
                    i <= records.len(),
                    v@ == records@.take(i as int),
                decreases records.len() - i,
            {
                v.push(records[i].duplicate());
                assert(records@.take(i + 1) =~= records@.take(i as int).push(records@[i as int]));
                i = i + 1;
            }
            assert(records@.take(records.len() as int) =~= records@);
            Ok(v)
        },
        Some(t) => {
            let process = resolve_process(processes, t)?;
            let v = matching(records, &process, None, None);
            Ok(v)
        },
    }
}

} // verus!
