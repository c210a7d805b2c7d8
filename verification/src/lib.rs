//! Verified core of a social-graph firehose ingester: frame decoding,
//! event classification and filtering, graph mutations idempotent by
//! their identity keys, backfill paging, and drift telemetry.
pub mod backfill;
pub mod classify;
pub mod codec;
pub mod drift;
pub mod event;
pub mod firehose;
pub mod graph;
pub mod queries;
pub mod store;
pub mod text;
pub mod util;
