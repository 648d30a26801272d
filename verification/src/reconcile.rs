//! Reconciliation: computing the pull delta (server to client) and
//! acknowledging push payloads (client to server).
//!
//! The pull side is last-writer-wins by timestamp: the client sends a ledger
//! of the ids it holds with their believed freshness, and receives every
//! record that is absent from the ledger or strictly newer.  There are no
//! tombstones: a record deleted from the store is simply omitted from every
//! future pull, and the client keeps its stale copy indefinitely.
//!
//! The push side does not merge: the payload is handed back to the caller
//! for the owning application to merge and later make visible via a store
//! replacement.

use crate::records::{KnownItem, KnownItemV, SyncRecord, SyncRecordV};
use crate::store::SyncData;
use crate::strings::{lex_gt, str_lex_gt};
use crate::messages::{PullRequest, PullResponse, PushRequest, PushResponse};
use crate::views::{
    lemma_deep_view_index, lemma_seq_deep_view_push, lemma_vec_deep_view, seq_deep_view,
};
use vstd::prelude::*;

verus! {

/// The client's believed freshness for `id`: the timestamp of the last
/// ledger entry with that id, if any.  A later duplicate entry wins, as in a
/// map built by inserting the entries in order.
pub open spec fn ledger_lookup(ledger: Seq<KnownItemV>, id: Seq<char>) -> Option<Seq<char>>
    decreases ledger.len(),
{
    if ledger.len() == 0 {
        Option::None
    } else if ledger.last().id == id {
        Option::Some(ledger.last().updated_at)
    } else {
        ledger_lookup(ledger.drop_last(), id)
    }
}

/// A record belongs in the pull delta iff its id is absent from the ledger
/// or its timestamp is lexically greater than the ledger's value for it.
pub open spec fn record_wanted(r: SyncRecordV, ledger: Seq<KnownItemV>) -> bool {
    match ledger_lookup(ledger, r.id) {
        Option::None => true,
        Option::Some(known) => lex_gt(r.updated_at, known),
    }
}

/// The pull delta of one collection: exactly the wanted records, in store
/// order.
pub open spec fn pull_delta(records: Seq<SyncRecordV>, ledger: Seq<KnownItemV>) -> Seq<
    SyncRecordV,
> {
    records.filter(|r: SyncRecordV| record_wanted(r, ledger))
}

/// Finds the client's believed freshness for `id`, scanning the ledger from
/// its end so that a later duplicate wins.
fn ledger_find(ledger: &Vec<KnownItem>, id: &String) -> (res: Option<String>)
    ensures
        res.deep_view() == ledger_lookup(ledger.deep_view(), id@),
{
    let ghost full = ledger.deep_view();
    let mut i: usize = ledger.len();
    proof {
        assert(full.subrange(0, i as int) =~= full);
    }
    while i > 0
        invariant
            i <= ledger@.len(),
            full == ledger.deep_view(),
            ledger_lookup(full, id@) == ledger_lookup(full.subrange(0, i as int), id@),
        decreases i,
    {
        i = i - 1;
        proof {
            lemma_deep_view_index(ledger, i as int);
            assert(full.subrange(0, i as int + 1).last() == full[i as int]);
            assert(full.subrange(0, i as int + 1).drop_last() =~= full.subrange(0, i as int));
        }
        if ledger[i].id == *id {
            return Some(ledger[i].updated_at.clone());
        }
    }
    proof {
        assert(full.subrange(0, 0) =~= Seq::<KnownItemV>::empty());
    }
    None
}

/// Whether the record should be included in the pull delta for this ledger.
fn is_wanted(r: &SyncRecord, ledger: &Vec<KnownItem>) -> (res: bool)
    ensures
        res == record_wanted(r@, ledger.deep_view()),
{
    match ledger_find(ledger, &r.id) {
        None => true,
        Some(known) => str_lex_gt(r.updated_at.as_str(), known.as_str()),
    }
}

/// The pull delta of one collection, as full record payloads.
fn pull_records(records: &Vec<SyncRecord>, ledger: &Vec<KnownItem>) -> (res: Vec<SyncRecord>)
    ensures
        res.deep_view() == pull_delta(records.deep_view(), ledger.deep_view()),
{
    let ghost l = ledger.deep_view();
    let ghost pred = |r: SyncRecordV| record_wanted(r, l);
    let mut out: Vec<SyncRecord> = Vec::new();
    let mut i: usize = 0;
    proof {
        lemma_vec_deep_view(&out);
        assert(seq_deep_view(records@.subrange(0, 0)) =~= Seq::<SyncRecordV>::empty());
        reveal(Seq::filter);
    }
    while i < records.len()
        invariant
            i <= records@.len(),
            l == ledger.deep_view(),
            pred == (|r: SyncRecordV| record_wanted(r, l)),
            seq_deep_view(out@) == seq_deep_view(records@.subrange(0, i as int)).filter(pred),
        decreases records@.len() - i,
    {
        let ghost pre = out@;
        let ghost p0 = records@.subrange(0, i as int);
        let ghost p1 = records@.subrange(0, i as int + 1);
        let r = &records[i];
        let wanted = is_wanted(r, ledger);
        if wanted {
            out.push(r.clone());
        }
        proof {
            reveal(Seq::filter);
            assert(p1.drop_last() =~= p0);
            assert(p1.last() == records@[i as int]);
            lemma_seq_deep_view_push(p0, records@[i as int]);
            assert(seq_deep_view(p1) =~= seq_deep_view(p0).push(records@[i as int].deep_view()));
            assert(seq_deep_view(p1).drop_last() =~= seq_deep_view(p0));
            assert(seq_deep_view(p1).last() == records@[i as int].deep_view());
            if wanted {
                assert(seq_deep_view(out@) =~= seq_deep_view(pre).push(records@[i as int].deep_view()));
            } else {
                assert(out@ == pre);
            }
        }
        i = i + 1;
    }
    proof {
        assert(records@.subrange(0, records@.len() as int) =~= records@);
        lemma_vec_deep_view(&out);
        lemma_vec_deep_view(records);
    }
    out
}

/// Computes the pull delta for the whole store snapshot: for each
/// collection, exactly the records that are newer than, or absent from, the
/// client's ledger.
pub fn pull(store: &SyncData, request: &PullRequest) -> (res: PullResponse)
    ensures
        res.conversations.deep_view() == pull_delta(store@.conversations, request@),
        res.projects.deep_view() == pull_delta(store@.projects, request@),
{
    PullResponse {
        conversations: pull_records(&store.conversations, &request.known_items),
        projects: pull_records(&store.projects, &request.known_items),
    }
}

/// Acknowledges a push payload: the counts equal the payload's lengths, and
/// the payload itself is returned unchanged for the owning application to
/// merge.  The store is never touched here.
pub fn push(request: PushRequest) -> (res: (PushResponse, PushRequest))
    ensures
        res.0.merged_conversations == request.conversations@.len(),
        res.0.merged_projects == request.projects@.len(),
        res.1 == request,
{
    let merged_conversations = request.conversations.len();
    let merged_projects = request.projects.len();
    (PushResponse { merged_conversations, merged_projects }, request)
}

} // verus!
