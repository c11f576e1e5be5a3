//! Multi-tenant push-notification relay: the verified core.
//!
//! The library covers the notification-dispatch pipeline: tenant-scoped
//! credential resolution and provider materialization, idempotent
//! notification bookkeeping, client registration rules, configuration
//! validation, and the dispatch decision for one inbound submission.
//! Transport (HTTP, the relational store, the push networks themselves)
//! lives outside the library and hands it plain values.

pub mod auth;
pub mod b64;
pub mod clients;
pub mod config;
pub mod error;
pub mod laws;
pub mod ledger;
pub mod payload;
pub mod pipeline;
pub mod providers;
pub mod registry;
pub mod response;
pub mod store;
pub mod strutil;
pub mod tenant;
