//! LAN synchronization core for a desktop chat client.
//!
//! A companion client on the same network replicates conversation and project
//! records against this process without any cloud backend.  The library holds
//! the protocol and consistency logic: an in-memory shared store that the
//! owning application replaces wholesale, a manifest/diff reconciliation
//! scheme with last-writer-wins ordering by timestamp string, a PIN gate for
//! pairing friction, and a single-instance server lifecycle model.  The HTTP
//! transport itself (sockets, serialization) lives outside the library; the
//! request handlers here take plain values and return plain values.

pub mod auth;
pub mod html;
pub mod laws;
pub mod lifecycle;
pub mod manifest;
pub mod messages;
pub mod models;
pub mod records;
pub mod reconcile;
pub mod service;
pub mod store;
pub mod strings;
pub mod views;
