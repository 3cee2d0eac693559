//! One collection cycle: from the outcomes of the per-node fetches to the
//! snapshot, and from the snapshot to the text that a scrape returns.

use crate::metrics::{ends_with_eof, no_gauges, BuildInfoLabels};
use crate::samples::{collected, outcomes_view};
use crate::snapshot::{shows, snapshot_metrics, MetricsSnapshot};
use crate::stats::{NodeFailure, NodeStats};
use vstd::prelude::*;

verus! {

/// The cluster API could not be asked for the nodes: the call itself
/// failed.
#[derive(Debug, Clone, Copy, PartialEq, Eq)]
pub struct DirectoryError {}

/// Why a scrape produces no text.
#[derive(Debug, Clone, Copy, PartialEq, Eq)]
pub enum CollectionError {
    /// The node directory could not be reached.
    Directory,
}

/// Builds the snapshot of one scrape from the outcomes of its fetches.
///
/// The snapshot is made afresh: it holds the samples of the nodes that
/// were fetched, written node after node, and the build-info gauge, which
/// is there whatever the outcomes are, also when there is none.
pub fn collect(build: &BuildInfoLabels, outcomes: &Vec<Result<NodeStats, NodeFailure>>) -> (snapshot:
    MetricsSnapshot)
    ensures
        snapshot.well_formed(),
        snapshot.gauges() == collected(outcomes_view(outcomes@)),
        snapshot.build_info() == no_gauges().insert(build.key(), 1i64),
        snapshot.metrics() == snapshot_metrics(snapshot.gauges(), snapshot.build_info()),
{
    let mut snapshot = MetricsSnapshot::new(build);
    snapshot.merge(outcomes);
    snapshot
}

/// The body of a scrape.
///
/// `fetched` is what the fan-out came back with: the directory's error if
/// the nodes could not be listed, else one outcome for each ready node.
/// A directory error fails the scrape and nothing is built, and nothing
/// else fails it: failed nodes are left out, and the rest is collected and
/// encoded. The text shows what was collected: the line of every gauge of
/// the fetched samples under its metric name, and the build-info line
/// with value 1.
pub fn get_stats(
    build: &BuildInfoLabels,
    fetched: Result<Vec<Result<NodeStats, NodeFailure>>, DirectoryError>,
) -> (result: Result<String, CollectionError>)
    ensures
        match fetched {
            Err(_) => result == Err::<String, CollectionError>(CollectionError::Directory),
            Ok(outcomes) => result matches Ok(text) && shows(
                text@,
                collected(outcomes_view(outcomes@)),
                no_gauges().insert(build.key(), 1i64),
            ) && ends_with_eof(text@),
        },
{
    match fetched {
        Err(_) => Err(CollectionError::Directory),
        Ok(outcomes) => {
            let snapshot = collect(build, &outcomes);
            Ok(snapshot.encode())
        },
    }
}

} // verus!
