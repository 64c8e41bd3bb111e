//! Session states: their rank, their colour, and which session leads.

use vstd::prelude::*;

use crate::text::same_text;

verus! {

/// The states a session is in while the assistant is working (thinking or running a tool).
pub open spec fn is_working(state: Seq<char>) -> bool {
    state == "thinking"@ || state == "tool"@
}

/// Rank of a state: error above waiting for permission, above working,
/// above every other state.
pub open spec fn rank_of(state: Seq<char>) -> u8 {
    if state == "error"@ {
        3
    } else if state == "permission"@ {
        2
    } else if is_working(state) {
        1
    } else {
        0
    }
}

/// Colour of a state: red for an error, yellow while waiting for permission,
/// orange while working, green for done, idle and anything else.
pub open spec fn color_spec(state: Seq<char>) -> (u8, u8, u8) {
    if state == "error"@ {
        (229, 57, 53)
    } else if state == "permission"@ {
        (242, 186, 46)
    } else if is_working(state) {
        (217, 119, 87)
    } else {
        (76, 175, 80)
    }
}

/// The state names the rules mention are pairwise different.
pub proof fn state_names_distinct()
    ensures
        "error"@ != "permission"@,
        "error"@ != "thinking"@,
        "error"@ != "tool"@,
        "permission"@ != "thinking"@,
        "permission"@ != "tool"@,
        "thinking"@ != "tool"@,
        "done"@ != "idle"@,
{
    reveal_strlit("error");
    reveal_strlit("permission");
    reveal_strlit("thinking");
    reveal_strlit("tool");
    reveal_strlit("done");
    reveal_strlit("idle");
    assert("error"@.len() == 5 && "permission"@.len() == 10);
    assert("thinking"@.len() == 8 && "tool"@.len() == 4);
    assert("error"@[0] == 'e' && "tool"@[0] == 't');
    assert("done"@[0] == 'd' && "idle"@[0] == 'i');
}

/// True when `state` is "thinking" or "tool".
pub fn working(state: &str) -> (r: bool)
    ensures
        r == is_working(state@),
{
    same_text(state, "thinking") || same_text(state, "tool")
}

/// The rank of a state, the same order the menu bar uses:
/// error > permission > thinking/tool > everything else.
pub fn priority(state: &str) -> (p: u8)
    ensures
        p == rank_of(state@),
        state@ == "error"@ ==> p == 3,
        state@ == "permission"@ ==> p == 2,
        state@ == "thinking"@ || state@ == "tool"@ ==> p == 1,
        state@ != "error"@ && state@ != "permission"@ && state@ != "thinking"@ && state@ != "tool"@
            ==> p == 0,
{
    proof { state_names_distinct(); }
    if same_text(state, "error") {
        3
    } else if same_text(state, "permission") {
        2
    } else if working(state) {
        1
    } else {
        0
    }
}

/// The colour a state is drawn in, as red, green and blue.
pub fn color_of(state: &str) -> (rgb: (u8, u8, u8))
    ensures
        rgb == color_spec(state@),
        state@ == "error"@ ==> rgb == (229u8, 57u8, 53u8),
        state@ == "permission"@ ==> rgb == (242u8, 186u8, 46u8),
        state@ == "thinking"@ || state@ == "tool"@ ==> rgb == (217u8, 119u8, 87u8),
        state@ != "error"@ && state@ != "permission"@ && state@ != "thinking"@ && state@ != "tool"@
            ==> rgb == (76u8, 175u8, 80u8),
{
    proof { state_names_distinct(); }
    if same_text(state, "error") {
        (229, 57, 53)
    } else if same_text(state, "permission") {
        (242, 186, 46)
    } else if working(state) {
        (217, 119, 87)
    } else {
        (76, 175, 80)
    }
}

/// One assistant session as its state file describes it.
/// `ts_rank` stands for the time of the last update: sessions are ordered by
/// it exactly as their timestamps are ordered.
pub struct Session {
    pub state: String,
    pub label: String,
    pub ts_rank: i64,
}

/// `a` comes strictly before `b` in the choice of the lead session:
/// a higher rank, or the same rank and a later update.
pub open spec fn outranks(a: &Session, b: &Session) -> bool {
    ||| rank_of(a.state@) > rank_of(b.state@)
    ||| rank_of(a.state@) == rank_of(b.state@) && a.ts_rank > b.ts_rank
}

/// The index of the session that leads: one that nothing outranks, and of
/// several such the last one.
pub open spec fn is_lead(sessions: Seq<Session>, i: int) -> bool {
    &&& 0 <= i < sessions.len()
    &&& forall|j: int| 0 <= j < sessions.len() ==> !outranks(&#[trigger] sessions[j], &sessions[i])
    &&& forall|j: int| i < j < sessions.len() ==> outranks(&sessions[i], &#[trigger] sessions[j])
}

fn outranks_exec(a: &Session, b: &Session) -> (r: bool)
    ensures
        r == outranks(a, b),
{
    let pa = priority(a.state.as_str());
    let pb = priority(b.state.as_str());
    pa > pb || (pa == pb && a.ts_rank > b.ts_rank)
}

/// Picks the session to show: the highest-ranked state, and of equal ranks
/// the most recently updated one; of sessions equal in both, the last.
/// `None` exactly when there is no session.
pub fn lead_index(sessions: &Vec<Session>) -> (r: Option<usize>)
    ensures
        r is None <==> sessions@.len() == 0,
        r matches Some(i) ==> is_lead(sessions@, i as int),
        r matches Some(i) ==> i < sessions@.len() && forall|j: int| 0 <= j < sessions@.len() ==> {
            let lead = sessions@[i as int];
            let other = #[trigger] sessions@[j];
            &&& rank_of(other.state@) <= rank_of(lead.state@)
            &&& rank_of(other.state@) == rank_of(lead.state@) ==> other.ts_rank <= lead.ts_rank
            &&& (i < j && rank_of(other.state@) == rank_of(lead.state@)) ==> other.ts_rank < lead.ts_rank
        },
{
    if sessions.len() == 0 {
        return None;
    }
    let mut best: usize = 0;
    let mut j: usize = 1;
    while j < sessions.len()
        invariant
            0 <= best < j <= sessions@.len(),
            forall|k: int| 0 <= k < j ==> !outranks(&#[trigger] sessions@[k], &sessions@[best as int]),
            forall|k: int| best < k < j ==> outranks(&sessions@[best as int], &#[trigger] sessions@[k]),
        decreases sessions@.len() - j,
    {
        if !outranks_exec(&sessions[best], &sessions[j]) {
            best = j;
        }
        j = j + 1;
    }
    Some(best)
}

/// The contract of `lead_index` names a single session: at most one index
/// is the lead.
pub proof fn lead_is_unique(sessions: Seq<Session>, i: int, j: int)
    requires
        is_lead(sessions, i),
        is_lead(sessions, j),
    ensures
        i == j,
{
    if i < j {
        assert(outranks(&sessions[i], &sessions[j]));
        assert(!outranks(&sessions[i], &sessions[j]));
    } else if j < i {
        assert(outranks(&sessions[j], &sessions[i]));
        assert(!outranks(&sessions[j], &sessions[i]));
    }
}

/// The order in which state files are read does not change which rank and
/// update time the lead has: for two listings of the same sessions, the
/// leads agree in both.
pub proof fn lead_ignores_order(s1: Seq<Session>, s2: Seq<Session>, i: int, j: int)
    requires
        s1.to_multiset() == s2.to_multiset(),
        is_lead(s1, i),
        is_lead(s2, j),
    ensures
        rank_of(s1[i].state@) == rank_of(s2[j].state@),
        s1[i].ts_rank == s2[j].ts_rank,
{
    vstd::seq_lib::to_multiset_contains(s1, s1[i]);
    vstd::seq_lib::to_multiset_contains(s2, s1[i]);
    vstd::seq_lib::to_multiset_contains(s2, s2[j]);
    vstd::seq_lib::to_multiset_contains(s1, s2[j]);
    assert(s1.contains(s1[i]));
    assert(s2.contains(s2[j]));
    let k = choose|k: int| 0 <= k < s2.len() && s2[k] == s1[i];
    let m = choose|m: int| 0 <= m < s1.len() && s1[m] == s2[j];
    assert(!outranks(&s2[k], &s2[j]));
    assert(!outranks(&s1[m], &s1[i]));
}

/// Whether the lead session is shown at all: a finished session only while
/// its completion is recent, an idle one never, any other always.
pub open spec fn shown(state: Seq<char>, recent: bool) -> bool {
    if state == "done"@ {
        recent
    } else {
        state != "idle"@
    }
}

/// Decides whether the lead session is shown. `recent` tells whether its last
/// update lies less than five seconds back.
pub fn shows(state: &str, recent: bool) -> (r: bool)
    ensures
        r == shown(state@, recent),
        state@ == "done"@ ==> r == recent,
        state@ == "idle"@ ==> !r,
        state@ != "done"@ && state@ != "idle"@ ==> r,
{
    proof { state_names_distinct(); }
    if same_text(state, "done") {
        recent
    } else {
        !same_text(state, "idle")
    }
}

/// The lead is, among the sessions of the highest rank present, one whose
/// update is the latest: nothing ranks higher, and nothing of its rank was
/// updated later.
pub proof fn lead_is_latest_of_top_rank(sessions: Seq<Session>, i: int)
    requires
        is_lead(sessions, i),
    ensures
        forall|j: int| 0 <= j < sessions.len() ==> rank_of(#[trigger] sessions[j].state@) <= rank_of(sessions[i].state@),
        forall|j: int| 0 <= j < sessions.len() && rank_of(#[trigger] sessions[j].state@) == rank_of(sessions[i].state@)
            ==> sessions[j].ts_rank <= sessions[i].ts_rank,
        forall|j: int| i < j < sessions.len() && rank_of(#[trigger] sessions[j].state@) == rank_of(sessions[i].state@)
            ==> sessions[j].ts_rank < sessions[i].ts_rank,
{
    assert forall|j: int| 0 <= j < sessions.len() implies rank_of(#[trigger] sessions[j].state@) <= rank_of(sessions[i].state@) by {
        assert(!outranks(&sessions[j], &sessions[i]));
    }
    assert forall|j: int| 0 <= j < sessions.len() && rank_of(#[trigger] sessions[j].state@) == rank_of(sessions[i].state@)
        implies sessions[j].ts_rank <= sessions[i].ts_rank by {
        assert(!outranks(&sessions[j], &sessions[i]));
    }
    assert forall|j: int| i < j < sessions.len() && rank_of(#[trigger] sessions[j].state@) == rank_of(sessions[i].state@)
        implies sessions[j].ts_rank < sessions[i].ts_rank by {
        assert(outranks(&sessions[i], &sessions[j]));
    }
}

/// The rank order over all states: an error ranks above every other state,
/// waiting for permission above every state but an error, working
/// ("thinking" or "tool") above every remaining state, and all remaining
/// states rank the same, below those.
pub proof fn rank_order(s: Seq<char>, t: Seq<char>)
    ensures
        s == "error"@ && t != "error"@ ==> rank_of(s) > rank_of(t),
        s == "permission"@ && t != "error"@ && t != "permission"@ ==> rank_of(s) > rank_of(t),
        (s == "thinking"@ || s == "tool"@) && t != "error"@ && t != "permission"@ && t != "thinking"@
            && t != "tool"@ ==> rank_of(s) > rank_of(t),
        (s == "thinking"@ || s == "tool"@) && (t == "thinking"@ || t == "tool"@) ==> rank_of(s) == rank_of(t),
        s != "error"@ && s != "permission"@ && s != "thinking"@ && s != "tool"@ && t != "error"@ && t
            != "permission"@ && t != "thinking"@ && t != "tool"@ ==> rank_of(s) == rank_of(t),
{
    state_names_distinct();
}

/// Only a finished session that is no longer recent, and an idle one, are
/// hidden: every other state is shown whatever its age.
pub proof fn only_stale_done_and_idle_are_hidden(state: Seq<char>, recent: bool)
    ensures
        shown(state, recent) <==> !(state == "idle"@ || (state == "done"@ && !recent)),
{
    state_names_distinct();
}

} // verus!
