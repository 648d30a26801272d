//! The four endpoint handlers, as functions from plain values to plain
//! values.  The transport extracts the secret header and parses the body
//! before calling in, and serializes the result after; every read works on a
//! store snapshot taken once at the top of the request.

use crate::auth::{auth_ok, AuthGate};
use crate::manifest::{build_manifest, manifest_of, ManifestEntry};
use crate::messages::{PullRequest, PullResponse, PushRequest, PushResponse, StatusResponse};
use crate::reconcile::{pull, pull_delta, push};
use crate::store::SyncData;
use vstd::prelude::*;
use vstd::string::StringExecFns;

verus! {

/// Why a request was refused: a PIN is configured and the request's header
/// did not match it.
#[derive(Debug)]
pub enum SyncError {
    Unauthorized,
}

/// The name this server reports on the status endpoint.
pub open spec fn server_name() -> Seq<char> {
    "Private Chat Hub Desktop"@
}

/// The protocol version reported on the status endpoint.
pub open spec fn protocol_version() -> u32 {
    1u32
}

/// The status report, served without authentication: counts and whether a
/// PIN is set — deliberately nothing more, as pairing aid.
pub fn handle_status(store: &SyncData, gate: &AuthGate) -> (res: StatusResponse)
    ensures
        res.version == protocol_version(),
        res.server_name@ == server_name(),
        res.conversation_count == store@.conversations.len(),
        res.project_count == store@.projects.len(),
        res.has_pin == (gate@ is Some),
{
    StatusResponse {
        version: 1,
        server_name: String::from_str("Private Chat Hub Desktop"),
        conversation_count: store.conversations.len(),
        project_count: store.projects.len(),
        has_pin: gate.has_pin(),
    }
}

/// The manifest of the snapshot, iff the header satisfies the configured PIN.
pub fn handle_manifest(store: &SyncData, gate: &AuthGate, header: Option<&String>) -> (res: Result<
    Vec<ManifestEntry>,
    SyncError,
>)
    ensures
        match res {
            Ok(entries) => auth_ok(gate@, header.deep_view()) && entries.deep_view()
                == manifest_of(store@.conversations, store@.projects),
            Err(e) => !auth_ok(gate@, header.deep_view()) && e is Unauthorized,
        },
{
    if !gate.check(header) {
        return Err(SyncError::Unauthorized);
    }
    Ok(build_manifest(store))
}

/// The pull delta of the snapshot against the client's ledger, iff the
/// header satisfies the configured PIN.
pub fn handle_pull(
    store: &SyncData,
    gate: &AuthGate,
    header: Option<&String>,
    request: &PullRequest,
) -> (res: Result<PullResponse, SyncError>)
    ensures
        match res {
            Ok(delta) => auth_ok(gate@, header.deep_view()) && delta.conversations.deep_view()
                == pull_delta(store@.conversations, request@) && delta.projects.deep_view()
                == pull_delta(store@.projects, request@),
            Err(e) => !auth_ok(gate@, header.deep_view()) && e is Unauthorized,
        },
{
    if !gate.check(header) {
        return Err(SyncError::Unauthorized);
    }
    Ok(pull(store, request))
}

/// Acknowledges a push, iff the header satisfies the configured PIN: the counts equal the
/// payload's lengths, and the payload comes back unchanged for the owning
/// application to merge.  The store is not touched; the merge is the owning
/// application's job, made visible by a later store replacement.
pub fn handle_push(gate: &AuthGate, header: Option<&String>, request: PushRequest) -> (res: Result<
    (PushResponse, PushRequest),
    SyncError,
>)
    ensures
        match res {
            Ok(r) => auth_ok(gate@, header.deep_view()) && r.0.merged_conversations
                == request.conversations@.len() && r.0.merged_projects
                == request.projects@.len() && r.1 == request,
            Err(e) => !auth_ok(gate@, header.deep_view()) && e is Unauthorized,
        },
{
    if !gate.check(header) {
        return Err(SyncError::Unauthorized);
    }
    Ok(push(request))
}

} // verus!
