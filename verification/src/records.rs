//! The data carried by the synchronization protocol.
//!
//! A record is an opaque structured document to this subsystem: the library
//! keeps the full payload as serialized text and works only with the fields
//! the protocol reads — the id, the last-updated timestamp and, for
//! conversations, the number of nested messages.  The owning application
//! extracts those fields when it hands records in (a missing field becomes an
//! empty string or zero there; nothing here validates record shape).

use vstd::prelude::*;

verus! {

/// A conversation or project record: the protocol-visible fields plus the
/// full payload, carried through unchanged.
pub struct SyncRecord {
    /// Unique within the record's type namespace (conversations or projects).
    pub id: String,
    /// ISO-8601 UTC timestamp; canonical formatting is the caller's duty.
    pub updated_at: String,
    /// Number of nested messages (zero for projects and malformed records).
    pub message_count: usize,
    /// The record's full serialized payload.
    pub body: String,
}

/// Mathematical value of a [`SyncRecord`].
pub struct SyncRecordV {
    pub id: Seq<char>,
    pub updated_at: Seq<char>,
    pub message_count: nat,
    pub body: Seq<char>,
}

impl View for SyncRecord {
    type V = SyncRecordV;

    open spec fn view(&self) -> SyncRecordV {
        SyncRecordV {
            id: self.id@,
            updated_at: self.updated_at@,
            message_count: self.message_count as nat,
            body: self.body@,
        }
    }
}

impl DeepView for SyncRecord {
    type V = SyncRecordV;

    open spec fn deep_view(&self) -> SyncRecordV {
        self.view()
    }
}

impl Clone for SyncRecord {
    fn clone(&self) -> (res: Self)
        ensures
            res == *self,
    {
        SyncRecord {
            id: self.id.clone(),
            updated_at: self.updated_at.clone(),
            message_count: self.message_count,
            body: self.body.clone(),
        }
    }
}

/// One entry of the client-supplied ledger: the client believes it holds the
/// record `id` in the state it had at `updated_at`.
pub struct KnownItem {
    pub id: String,
    pub updated_at: String,
}

/// Mathematical value of a [`KnownItem`].
pub struct KnownItemV {
    pub id: Seq<char>,
    pub updated_at: Seq<char>,
}

impl View for KnownItem {
    type V = KnownItemV;

    open spec fn view(&self) -> KnownItemV {
        KnownItemV { id: self.id@, updated_at: self.updated_at@ }
    }
}

impl DeepView for KnownItem {
    type V = KnownItemV;

    open spec fn deep_view(&self) -> KnownItemV {
        self.view()
    }
}

impl Clone for KnownItem {
    fn clone(&self) -> (res: Self)
        ensures
            res == *self,
    {
        KnownItem { id: self.id.clone(), updated_at: self.updated_at.clone() }
    }
}

} // verus!
