//! The navigation sidebar.
use vstd::prelude::*;

use crate::gui::nav;

verus! {

/// Messages emitted by the sidebar.
#[derive(Debug, Clone, Copy, PartialEq, Eq, Structural)]
pub enum Msg {
    Navigate(nav::View),
    ClearLogs,
}

/// The sidebar's entries, top to bottom: label and panel.
pub open spec fn nav_items_spec() -> Seq<(Seq<char>, nav::View)> {
    seq![
        ("Inject"@, nav::View::Inject),
        ("Eject"@, nav::View::Eject),
        ("Status"@, nav::View::Status),
        ("Processes"@, nav::View::Processes),
        ("Profiles"@, nav::View::Profiles),
    ]
}

/// The sidebar's navigation entries with whether each is the active one.
pub fn nav_items(active: nav::View) -> (r: Vec<(&'static str, nav::View, bool)>)
    ensures
        r@.len() == nav_items_spec().len(),
        forall|i: int| 0 <= i < r@.len() ==> (#[trigger] r@[i]).0@ == nav_items_spec()[i].0
            && r@[i].1 == nav_items_spec()[i].1 && r@[i].2 == (r@[i].1 == active),
{
    let mut r: Vec<(&'static str, nav::View, bool)> = Vec::new();
    r.push(("Inject", nav::View::Inject, active == nav::View::Inject));
    r.push(("Eject", nav::View::Eject, active == nav::View::Eject));
    r.push(("Status", nav::View::Status, active == nav::View::Status));
    r.push(("Processes", nav::View::Processes, active == nav::View::Processes));
    r.push(("Profiles", nav::View::Profiles, active == nav::View::Profiles));
    proof {
        reveal_strlit("Inject");
        reveal_strlit("Eject");
        reveal_strlit("Status");
        reveal_strlit("Processes");
        reveal_strlit("Profiles");
    }
    r
}

} // verus!
