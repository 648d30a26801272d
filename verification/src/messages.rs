//! Request and response bodies of the four endpoints, as plain values.
//! Parsing the wire text into these shapes, and writing them back out, is the
//! transport's job and happens outside this library; a body that fails to
//! parse never reaches the handlers.

use crate::records::{KnownItem, KnownItemV, SyncRecord};
use vstd::prelude::*;

verus! {

/// Body of a pull request: the client's ledger of already-known items.
pub struct PullRequest {
    pub known_items: Vec<KnownItem>,
}

impl View for PullRequest {
    type V = Seq<KnownItemV>;

    open spec fn view(&self) -> Seq<KnownItemV> {
        self.known_items.deep_view()
    }
}

/// Body of a pull response: the full records the client is missing or holds
/// stale copies of, split by type.
pub struct PullResponse {
    pub conversations: Vec<SyncRecord>,
    pub projects: Vec<SyncRecord>,
}

/// Body of a push request: full records authored by the peer.
pub struct PushRequest {
    pub conversations: Vec<SyncRecord>,
    pub projects: Vec<SyncRecord>,
}

/// Body of a push response: counts of records received.  This acknowledges
/// receipt only; it is no proof that a merge occurred, and callers must not
/// treat it as confirmation of durability.
pub struct PushResponse {
    pub merged_conversations: usize,
    pub merged_projects: usize,
}

/// Body of the status response, served without authentication: counts and
/// whether a PIN is set, for pairing, and nothing else.
pub struct StatusResponse {
    pub version: u32,
    pub server_name: String,
    pub conversation_count: usize,
    pub project_count: usize,
    pub has_pin: bool,
}

} // verus!
