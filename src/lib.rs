//! Cursors over one-shot queries and over subscription changelogs: the epoch
//! codec, the retention-window check, the incremental log-scan plan, the two
//! cursor kinds and the per-session cursor registry.
pub mod epoch;
pub mod error;
pub mod handler;
pub mod manager;
pub mod plan;
pub mod query_cursor;
pub mod retention;
pub mod subscription_cursor;
