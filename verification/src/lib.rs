//! Per-pod ephemeral-storage metrics for a Kubernetes cluster: which nodes
//! are asked, how a node's stats document is read, how the samples of all
//! nodes are merged into one set of gauges, and how a scrape is answered.

pub mod collect;
pub mod document;
pub mod fetch;
pub mod handler;
pub mod json;
pub mod metrics;
pub mod nodes;
pub mod samples;
pub mod snapshot;
pub mod stats;
pub mod target;
