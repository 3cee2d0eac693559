//! What a node's answer amounts to: its stats document, or the reason why
//! the node is left out of the scrape.

use crate::document::{body_stats, parse_node_stats};
use crate::stats::{FetchError, NodeFailure, NodeStats, NodeStatsView};
use vstd::prelude::*;

verus! {

/// The answer of a node's stats endpoint.
#[derive(Debug, Clone, PartialEq, Eq)]
pub struct NodeResponse {
    /// The HTTP status code.
    pub status: u16,
    /// The body, as text.
    pub body: String,
}

/// Whether an HTTP status code reports success: 200 to 299.
pub open spec fn is_success_status(status: u16) -> bool {
    200 <= status <= 299
}

/// What a fetch amounts to. Where a response came back its body is read,
/// whatever its status says.
pub open spec fn node_outcome(response: Result<NodeResponse, FetchError>) -> Result<
    NodeStatsView,
    NodeFailure,
> {
    match response {
        Err(error) => Err(NodeFailure::Fetch(error)),
        Ok(answer) => match body_stats(answer.body@) {
            Err(error) => Err(NodeFailure::Parse(error)),
            Ok(stats) => Ok(stats),
        },
    }
}

/// The model of the outcome of a fetch.
pub open spec fn outcome_view(result: Result<NodeStats, NodeFailure>) -> Result<
    NodeStatsView,
    NodeFailure,
> {
    match result {
        Ok(stats) => Ok(stats@),
        Err(error) => Err(error),
    }
}

/// Whether a status code reports success. A response without success is
/// worth a log line; its body is read all the same.
pub fn is_success(status: u16) -> (success: bool)
    ensures
        success == is_success_status(status),
{
    200 <= status && status <= 299
}

/// The stats of one node, from what its fetch came back with.
///
/// A fetch that failed is a fetch error. A response is read as a stats
/// document whether or not its status reports success; a body that holds
/// none is a parse error.
pub fn get_node_stats(response: Result<NodeResponse, FetchError>) -> (result: Result<
    NodeStats,
    NodeFailure,
>)
    ensures
        outcome_view(result) == node_outcome(response),
{
    match response {
        Err(error) => Err(NodeFailure::Fetch(error)),
        Ok(answer) => match parse_node_stats(answer.body.as_str()) {
            Err(error) => Err(NodeFailure::Parse(error)),
            Ok(stats) => Ok(stats),
        },
    }
}

} // verus!
