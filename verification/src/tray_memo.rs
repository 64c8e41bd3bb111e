//! When the tray icon needs refreshing, and with which tooltip.

use vstd::prelude::*;

use crate::text::same_text;

verus! {

/// The tooltip for a label: the label itself, or the application name when
/// the label is empty.
pub open spec fn tooltip_for(label: Seq<char>, app_name: Seq<char>) -> Seq<char> {
    if label.len() == 0 {
        app_name
    } else {
        label
    }
}

/// One refresh step: from the state last shown and the current state and
/// label, the state shown afterwards and the tooltip to set, if any.
/// Nothing changes while the state stays the same.
pub open spec fn sync_step(last: Seq<char>, state: Seq<char>, label: Seq<char>, app_name: Seq<char>) -> (Seq<char>, Option<Seq<char>>) {
    if state == last {
        (last, None)
    } else {
        (state, Some(tooltip_for(label, app_name)))
    }
}

/// Remembers which state the tray icon currently shows, so that the icon is
/// only replaced when the state changes, and the application name that
/// stands in the tooltip when a session has no label.
pub struct TrayMemo {
    pub last_state: String,
    pub app_name: String,
}

impl TrayMemo {
    /// A fresh tray shows the idle state.
    pub fn new(app_name: &str) -> (m: TrayMemo)
        ensures
            m.last_state@ == "idle"@,
            m.app_name@ == app_name@,
    {
        TrayMemo { last_state: "idle".to_owned(), app_name: app_name.to_owned() }
    }

    /// Records the current state. Returns the tooltip to set, together with
    /// the new icon for `state`, when the state differs from the one shown;
    /// returns `None` and changes nothing when it is the same.
    pub fn sync(&mut self, state: &str, label: &str) -> (tip: Option<String>)
        ensures
            final(self).app_name == old(self).app_name,
            final(self).last_state@ == sync_step(old(self).last_state@, state@, label@, old(self).app_name@).0,
            tip matches Some(t) ==> sync_step(old(self).last_state@, state@, label@, old(self).app_name@).1 == Some(t@),
            tip is None ==> sync_step(old(self).last_state@, state@, label@, old(self).app_name@).1 is None,
            state@ == old(self).last_state@ ==> tip is None && final(self).last_state@ == old(self).last_state@,
            state@ != old(self).last_state@ ==> final(self).last_state@ == state@ && tip is Some,
            state@ != old(self).last_state@ ==> (tip matches Some(t) ==> (
                if label@.len() == 0 { t@ == old(self).app_name@ } else { t@ == label@ })),
    {
        if same_text(state, self.last_state.as_str()) {
            return None;
        }
        self.last_state = state.to_owned();
        if label.is_empty() {
            Some(self.app_name.clone())
        } else {
            Some(label.to_owned())
        }
    }
}

/// Refreshing twice with the same state does nothing the second time.
pub proof fn sync_settles(last: Seq<char>, state: Seq<char>, label1: Seq<char>, label2: Seq<char>, app_name: Seq<char>)
    ensures
        sync_step(sync_step(last, state, label1, app_name).0, state, label2, app_name)
            == (sync_step(last, state, label1, app_name).0, None::<Seq<char>>),
{
}

/// Every change of state refreshes the tray, with the label as tooltip (the
/// application name when the label is empty), and afterwards the new state
/// is the one shown; an unchanged state refreshes nothing.
pub proof fn sync_refreshes_exactly_on_change(last: Seq<char>, state: Seq<char>, label: Seq<char>, app_name: Seq<char>)
    ensures
        state != last ==> sync_step(last, state, label, app_name).0 == state
            && sync_step(last, state, label, app_name).1 == Some(if label.len() == 0 { app_name } else { label }),
        state == last ==> sync_step(last, state, label, app_name) == (last, None::<Seq<char>>),
{
}

} // verus!
