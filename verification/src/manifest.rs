//! The manifest: a compact per-record listing used to diff two replicas
//! without transferring full payloads.  It is never persisted; it is rebuilt
//! from the current store snapshot on every request.

use crate::records::SyncRecordV;
use crate::store::SyncData;
use vstd::prelude::*;

verus! {

/// Whether a manifest entry describes a conversation or a project.
#[derive(Clone, Copy, Debug, PartialEq, Eq, Structural)]
pub enum RecordKind {
    Conversation,
    Project,
}

impl RecordKind {
    /// The wire name of the kind.
    pub fn label(&self) -> (r: &'static str)
        ensures
            *self is Conversation ==> r@ == "conversation"@,
            *self is Project ==> r@ == "project"@,
    {
        match self {
            RecordKind::Conversation => "conversation",
            RecordKind::Project => "project",
        }
    }
}

/// One line of the manifest: a read-only projection of a record.
pub struct ManifestEntry {
    pub id: String,
    pub updated_at: String,
    pub message_count: usize,
    pub kind: RecordKind,
}

/// Mathematical value of a [`ManifestEntry`].
pub struct ManifestEntryV {
    pub id: Seq<char>,
    pub updated_at: Seq<char>,
    pub message_count: nat,
    pub kind: RecordKind,
}

impl View for ManifestEntry {
    type V = ManifestEntryV;

    open spec fn view(&self) -> ManifestEntryV {
        ManifestEntryV {
            id: self.id@,
            updated_at: self.updated_at@,
            message_count: self.message_count as nat,
            kind: self.kind,
        }
    }
}

impl DeepView for ManifestEntry {
    type V = ManifestEntryV;

    open spec fn deep_view(&self) -> ManifestEntryV {
        self.view()
    }
}

/// The manifest line for a conversation: its own message count.
pub open spec fn conversation_entry(r: SyncRecordV) -> ManifestEntryV {
    ManifestEntryV {
        id: r.id,
        updated_at: r.updated_at,
        message_count: r.message_count,
        kind: RecordKind::Conversation,
    }
}

/// The manifest line for a project: its message count is always zero.
pub open spec fn project_entry(r: SyncRecordV) -> ManifestEntryV {
    ManifestEntryV {
        id: r.id,
        updated_at: r.updated_at,
        message_count: 0,
        kind: RecordKind::Project,
    }
}

/// The whole manifest: one entry per conversation, in store order, followed
/// by one entry per project, in store order.  No sorting is imposed.
pub open spec fn manifest_of(convs: Seq<SyncRecordV>, projs: Seq<SyncRecordV>) -> Seq<
    ManifestEntryV,
> {
    Seq::new(
        convs.len() + projs.len(),
        |i: int|
            if i < convs.len() {
                conversation_entry(convs[i])
            } else {
                project_entry(projs[i - convs.len()])
            },
    )
}

/// Builds the manifest of a store snapshot: exactly
/// [`manifest_of`] the snapshot's conversations and projects.
pub fn build_manifest(store: &SyncData) -> (res: Vec<ManifestEntry>)
    ensures
        res.deep_view() == manifest_of(store@.conversations, store@.projects),
{
    let mut out: Vec<ManifestEntry> = Vec::new();
    let mut i: usize = 0;
    while i < store.conversations.len()
        invariant
            i <= store.conversations.len(),
            out@.len() == i,
            forall|j: int|
                0 <= j < i ==> (#[trigger] out@[j])@ == conversation_entry(
                    store.conversations@[j]@,
                ),
        decreases store.conversations.len() - i,
    {
        let r = &store.conversations[i];
        out.push(
            ManifestEntry {
                id: r.id.clone(),
                updated_at: r.updated_at.clone(),
                message_count: r.message_count,
                kind: RecordKind::Conversation,
            },
        );
        i = i + 1;
    }
    let convs_len: usize = store.conversations.len();
    let mut k: usize = 0;
    while k < store.projects.len()
        invariant
            k <= store.projects.len(),
            convs_len == store.conversations@.len(),
            out@.len() == convs_len + k,
            forall|j: int|
                0 <= j < convs_len ==> (#[trigger] out@[j])@ == conversation_entry(
                    store.conversations@[j]@,
                ),
            forall|j: int|
                0 <= j < k ==> (#[trigger] out@[convs_len + j])@ == project_entry(
                    store.projects@[j]@,
                ),
        decreases store.projects.len() - k,
    {
        let r = &store.projects[k];
        out.push(
            ManifestEntry {
                id: r.id.clone(),
                updated_at: r.updated_at.clone(),
                message_count: 0,
                kind: RecordKind::Project,
            },
        );
        k = k + 1;
    }
    proof {
        let target = manifest_of(store@.conversations, store@.projects);
        assert forall|j: int| 0 <= j < out@.len() implies out@[j].deep_view() == target[j] by {
            if j < convs_len {
                crate::views::lemma_deep_view_index(&store.conversations, j);
            } else {
                assert((out@[convs_len + (j - convs_len)])@ == project_entry(
                    store.projects@[j - convs_len]@,
                ));
                crate::views::lemma_deep_view_index(&store.projects, j - convs_len);
            }
        }
        crate::views::lemma_deep_view_pointwise(&out, target);
    }
    out
}

} // verus!
