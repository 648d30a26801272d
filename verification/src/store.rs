//! The process-wide cache of records that the server serves.
//!
//! The owning application replaces the whole store whenever local data
//! changes; there is no incremental update.  The store itself is a plain
//! value — the owner is expected to guard it with a lock taken only for the
//! brief duration of [`SyncData::replace`] or [`SyncData::snapshot`], never
//! across I/O, so request handlers work on an independent copy.

use crate::records::{SyncRecord, SyncRecordV};
use vstd::prelude::*;

verus! {

/// The shared store: all conversation and project records, in insertion
/// order.  Record ids are expected to be unique per collection; nothing here
/// depends on it.
pub struct SyncData {
    pub conversations: Vec<SyncRecord>,
    pub projects: Vec<SyncRecord>,
}

/// Mathematical value of a [`SyncData`].
pub struct SyncDataV {
    pub conversations: Seq<SyncRecordV>,
    pub projects: Seq<SyncRecordV>,
}

impl View for SyncData {
    type V = SyncDataV;

    open spec fn view(&self) -> SyncDataV {
        SyncDataV {
            conversations: self.conversations.deep_view(),
            projects: self.projects.deep_view(),
        }
    }
}

/// An element-wise copy of a record list.
fn clone_records(records: &Vec<SyncRecord>) -> (res: Vec<SyncRecord>)
    ensures
        res@ == records@,
{
    let mut out: Vec<SyncRecord> = Vec::new();
    let mut i: usize = 0;
    while i < records.len()
        invariant
            i <= records.len(),
            out@ == records@.subrange(0, i as int),
        decreases records.len() - i,
    {
        out.push(records[i].clone());
        proof {
            assert(out@ =~= records@.subrange(0, i as int + 1));
        }
        i = i + 1;
    }
    proof {
        assert(records@.subrange(0, records@.len() as int) =~= records@);
    }
    out
}

impl SyncData {
    /// An empty store.
    pub fn new() -> (res: SyncData)
        ensures
            res@.conversations.len() == 0,
            res@.projects.len() == 0,
    {
        SyncData { conversations: Vec::new(), projects: Vec::new() }
    }

    /// Swaps both collections wholesale; no partial update is ever visible.
    pub fn replace(&mut self, conversations: Vec<SyncRecord>, projects: Vec<SyncRecord>)
        ensures
            final(self).conversations == conversations,
            final(self).projects == projects,
    {
        self.conversations = conversations;
        self.projects = projects;
    }

    /// An independent copy of the store, so that handlers never read it
    /// while the owner holds the lock.
    pub fn snapshot(&self) -> (res: SyncData)
        ensures
            res@ == self@,
    {
        SyncData {
            conversations: clone_records(&self.conversations),
            projects: clone_records(&self.projects),
        }
    }
}

} // verus!
