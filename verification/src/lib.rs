//! Lifecycle controller and query-evaluation engine for a C# code-analysis
//! provider.
//!
//! The crate models the provider's state machine (`init` turns a configuration
//! into a queryable project, `evaluate` answers pattern queries against it) and
//! implements the deterministic deduplication of overlapping pattern matches.
//! The surrounding service (RPC transport, async task scheduling, the graph
//! engine itself) lives outside this library and drives it through the actions
//! and events defined here.

pub mod dedup;
pub mod evaluate;
pub mod framework;
pub mod init;
pub mod laws;
pub mod order;
pub mod provider;
pub mod results;
pub mod service;

pub use dedup::deduplicate_results;
pub use provider::CSharpProvider;
pub use results::{Location, Position, ResultNode};
