//! Retrieval-and-persistence engine for investigative data.
//!
//! The crate holds the decisions of two remote workflows, a rate-limited,
//! paginated puller for a synchronous query service and a submit-then-poll
//! session for an asynchronous scan service, together with the statements
//! that persist their results. Every function here is a step from plain
//! values to plain values: the caller performs the network and database work
//! and hands the outcome back.
//!
//! - [`rate_gate`]: a minimum interval between two requests.
//! - [`paginator`]: an offset-based pull with a cap on its estimated size.
//! - [`query`]: query templates, prepared requests, classified answers.
//! - [`scan`]: the scan session and what it reads, sends and persists.
//! - [`sink`]: upsert statements and the bookkeeping of a batch write.
//! - [`staged`]: the stages in which a scan's row is written.
//! - [`store`]: a table in memory with the upsert semantics of a store.
//! - [`record`], [`json`], [`http`], [`text`], [`config`]: the data and the
//!   helpers that the others share.

pub mod config;
pub mod http;
pub mod json;
pub mod paginator;
pub mod query;
pub mod rate_gate;
pub mod record;
pub mod scan;
pub mod sink;
pub mod staged;
pub mod store;
pub mod text;
