//! The protocol's guarantees, stated and proved once over the specification
//! functions that the handlers' contracts use.

use crate::auth::auth_ok;
use crate::lifecycle::{is_running_state, start_transition, stop_transition, ServerState};
use crate::records::{KnownItemV, SyncRecordV};
use crate::reconcile::{ledger_lookup, pull_delta, record_wanted};
use crate::store::SyncDataV;
use crate::strings::lex_gt;
use vstd::prelude::*;

verus! {

/// Filtering keeps exactly the members that satisfy the predicate.
proof fn lemma_filter_members<A>(s: Seq<A>, pred: spec_fn(A) -> bool, x: A)
    ensures
        s.filter(pred).contains(x) <==> (s.contains(x) && pred(x)),
    decreases s.len(),
{
    reveal(Seq::filter);
    if s.len() > 0 {
        lemma_filter_members(s.drop_last(), pred, x);
        if s.contains(x) && pred(x) {
            let i = choose|i: int| 0 <= i < s.len() && s[i] == x;
            if i < s.len() - 1 {
                assert(s.drop_last()[i] == x);
                assert(s.drop_last().contains(x));
                let f = s.drop_last().filter(pred);
                let j = choose|j: int| 0 <= j < f.len() && f[j] == x;
                assert(s.filter(pred)[j] == x);
            } else {
                assert(s.last() == x);
                let f = s.filter(pred);
                assert(f.last() == x);
            }
        }
        if s.filter(pred).contains(x) {
            let f = s.filter(pred);
            let j = choose|j: int| 0 <= j < f.len() && f[j] == x;
            if pred(s.last()) && j == f.len() - 1 {
                assert(x == s.last());
                assert(s[s.len() - 1] == x);
            } else {
                assert(s.drop_last().filter(pred).contains(x));
                let i = choose|i: int| 0 <= i < s.drop_last().len() && s.drop_last()[i] == x;
                assert(s[i] == x);
            }
        }
    }
}

/// The pull delta holds a record exactly when the store holds it and its id
/// is absent from the ledger or its timestamp is strictly newer than the
/// ledger's value for that id; every record at or behind the ledger's value
/// is excluded.
pub proof fn lemma_pull_delta_exact(
    records: Seq<SyncRecordV>,
    ledger: Seq<KnownItemV>,
    r: SyncRecordV,
)
    ensures
        pull_delta(records, ledger).contains(r) <==> (records.contains(r) && match ledger_lookup(
            ledger,
            r.id,
        ) {
            Option::None => true,
            Option::Some(known) => lex_gt(r.updated_at, known),
        }),
{
    lemma_filter_members(records, |x: SyncRecordV| record_wanted(x, ledger), r);
}

/// Pulling is idempotent: against an unchanged store and the same ledger,
/// any two responses that meet the pull contract are identical.
pub proof fn lemma_pull_idempotent(
    store: SyncDataV,
    ledger: Seq<KnownItemV>,
    first_conversations: Seq<SyncRecordV>,
    first_projects: Seq<SyncRecordV>,
    second_conversations: Seq<SyncRecordV>,
    second_projects: Seq<SyncRecordV>,
)
    requires
        first_conversations == pull_delta(store.conversations, ledger),
        first_projects == pull_delta(store.projects, ledger),
        second_conversations == pull_delta(store.conversations, ledger),
        second_projects == pull_delta(store.projects, ledger),
    ensures
        first_conversations == second_conversations,
        first_projects == second_projects,
{
}

/// With no PIN configured every request passes, whatever the header; with a
/// PIN configured a request passes exactly when the header carries that PIN.
pub proof fn lemma_auth_gate(pin: Option<Seq<char>>, header: Option<Seq<char>>)
    ensures
        pin is None ==> auth_ok(pin, header),
        pin matches Some(p) ==> (auth_ok(pin, header) <==> header == Some(p)),
{
}

/// Restarting rebinds: a successful start on port A followed by a
/// successful start on port B leaves exactly one instance, on port B.
pub proof fn lemma_restart_single_listener(prev: ServerState, port_a: u16, port_b: u16)
    ensures
        start_transition(start_transition(prev, port_a, true), port_b, true) == (
        ServerState::Running { port: port_b }),
{
}

/// The running window: a state is running after a successful start, and not
/// running after a failed start, a stop, or the serving task's own end.
pub proof fn lemma_running_window(prev: ServerState, port: u16)
    ensures
        is_running_state(start_transition(prev, port, true)),
        !is_running_state(start_transition(prev, port, false)),
        !is_running_state(stop_transition(start_transition(prev, port, true))),
{
}

} // verus!
