//! The metrics snapshot of one scrape: a registry with the storage gauges
//! and the build-info gauge registered in it.

use crate::metrics::{
    build_info_metric, ends_with_eof, exposed, exposes, gauge_at, made_of, no_gauges,
    storage_metrics,
    BuildInfoLabels, BuildInfoMetrics, EphemeralStorageLabels, EphemeralStorageMetrics,
    ExposedMetric, GaugeRegistry, Gauges,
};
use crate::samples::{
    all_samples, lemma_all_samples_push, lemma_written_concat, node_samples, outcome_samples,
    outcomes_view, written,
};
use crate::stats::{NodeFailure, NodeStats};
use vstd::prelude::*;

verus! {

/// The four metrics of a snapshot, in the order of their registration:
/// the three storage metrics, then the build-info metric.
pub open spec fn snapshot_metrics(
    gauges: Gauges,
    build_info: Map<Seq<(Seq<char>, Seq<char>)>, i64>,
) -> Seq<ExposedMetric> {
    storage_metrics(gauges).push(build_info_metric(build_info))
}

/// Whether a text shows a snapshot with the given gauges: for every key of
/// each storage family it holds the line of that gauge under the family's
/// metric name, for every build-info gauge the build-info line, and with
/// each of them the help and type lines of its metric; and it is made of
/// such lines and the end-of-file line alone.
pub open spec fn shows(
    text: Seq<char>,
    gauges: Gauges,
    build_info: Map<Seq<(Seq<char>, Seq<char>)>, i64>,
) -> bool {
    &&& exposes(text, snapshot_metrics(gauges, build_info))
    &&& made_of(text, snapshot_metrics(gauges, build_info))
}

/// Everything one scrape exposes. A snapshot is built for one scrape and
/// dropped after it is encoded. Its registry holds the four metrics of
/// [`snapshot_metrics`] and no other.
pub struct MetricsSnapshot {
    registry: GaugeRegistry,
    storage_metrics: EphemeralStorageMetrics,
    info_metrics: BuildInfoMetrics,
}

impl MetricsSnapshot {
    /// Whether the snapshot is well formed: its registry holds the three
    /// storage metrics first and the build-info metric last, and these are
    /// the metrics that the snapshot writes. [`MetricsSnapshot::new`] makes
    /// it so and every method keeps it so.
    pub closed spec fn well_formed(&self) -> bool {
        &&& exposed(self.registry).len() == 4
        &&& self.storage_metrics.available_entry() == 0
        &&& self.storage_metrics.registered_in(self.registry)
        &&& self.info_metrics.entry() == 3
        &&& self.info_metrics.registered_in(self.registry)
    }

    /// The metrics that the snapshot's registry exposes.
    pub closed spec fn metrics(&self) -> Seq<ExposedMetric> {
        exposed(self.registry)
    }

    /// The storage gauges.
    pub closed spec fn gauges(&self) -> Gauges {
        self.storage_metrics.gauges_in(self.registry)
    }

    /// The build-info gauges.
    pub closed spec fn build_info(&self) -> Map<Seq<(Seq<char>, Seq<char>)>, i64> {
        self.info_metrics.gauges_in(self.registry)
    }

    /// A well-formed snapshot exposes its four metrics with its gauges.
    proof fn lemma_metrics(self)
        requires
            self.well_formed(),
        ensures
            self.metrics() == snapshot_metrics(self.gauges(), self.build_info()),
    {
        assert(self.metrics() =~= snapshot_metrics(self.gauges(), self.build_info()));
    }

    /// A snapshot with all four metrics registered, no storage gauge, and
    /// the build-info gauge of `build` set to 1.
    pub fn new(build: &BuildInfoLabels) -> (snapshot: MetricsSnapshot)
        ensures
            snapshot.well_formed(),
            snapshot.gauges() == Gauges::empty(),
            snapshot.build_info() == no_gauges().insert(build.key(), 1i64),
            snapshot.metrics() == snapshot_metrics(snapshot.gauges(), snapshot.build_info()),
    {
        let mut registry = GaugeRegistry::new();
        let mut storage_metrics = EphemeralStorageMetrics::default();
        storage_metrics.register(&mut registry);
        let mut info_metrics = BuildInfoMetrics::default();
        info_metrics.register(&mut registry);
        info_metrics.set(&mut registry, build);
        let snapshot = MetricsSnapshot { registry, storage_metrics, info_metrics };
        proof {
            snapshot.lemma_metrics();
        }
        snapshot
    }

    /// Writes the samples of one stats document: for every pod, in the
    /// document's order, the three gauges under the pod's labels and the
    /// document's node name.
    pub fn record_node(&mut self, stats: &NodeStats)
        requires
            old(self).well_formed(),
        ensures
            final(self).well_formed(),
            final(self).gauges() == written(old(self).gauges(), node_samples(stats@)),
            final(self).build_info() == old(self).build_info(),
            final(self).metrics() == snapshot_metrics(final(self).gauges(), final(self).build_info()),
    {
        let ghost samples = node_samples(stats@);
        let mut j: usize = 0;
        assert(samples.take(0) =~= Seq::empty());
        while j < stats.pods.len()
            invariant
                j <= stats.pods.len(),
                samples == node_samples(stats@),
                samples.len() == stats.pods.len(),
                self.well_formed(),
                self.gauges() == written(old(self).gauges(), samples.take(j as int)),
                self.build_info() == old(self).build_info(),
            decreases stats.pods.len() - j,
        {
            let pod = &stats.pods[j];
            let labels = EphemeralStorageLabels {
                pod: pod.pod_ref.name.clone(),
                namespace: pod.pod_ref.namespace.clone(),
                node: stats.node.name.clone(),
                uid: pod.pod_ref.uid.clone(),
            };
            self.storage_metrics.record(&mut self.registry, &labels, pod.ephemeral_storage);
            proof {
                let next = samples.take(j as int + 1);
                assert(next.drop_last() =~= samples.take(j as int));
                assert(next.last() == samples[j as int]);
            }
            j += 1;
        }
        proof {
            assert(samples.take(j as int) =~= samples);
            self.lemma_metrics();
        }
    }

    /// Merges the outcomes of all fetches, node after node. A node that
    /// failed is passed over; it neither adds a gauge nor touches one.
    pub fn merge(&mut self, outcomes: &Vec<Result<NodeStats, NodeFailure>>)
        requires
            old(self).well_formed(),
        ensures
            final(self).well_formed(),
            final(self).gauges() == written(
                old(self).gauges(),
                all_samples(outcomes_view(outcomes@)),
            ),
            final(self).build_info() == old(self).build_info(),
            final(self).metrics() == snapshot_metrics(final(self).gauges(), final(self).build_info()),
    {
        let ghost view = outcomes_view(outcomes@);
        let mut i: usize = 0;
        assert(view.take(0) =~= Seq::empty());
        while i < outcomes.len()
            invariant
                i <= outcomes.len(),
                view == outcomes_view(outcomes@),
                view.len() == outcomes.len(),
                self.well_formed(),
                self.gauges() == written(old(self).gauges(), all_samples(view.take(i as int))),
                self.build_info() == old(self).build_info(),
            decreases outcomes.len() - i,
        {
            proof {
                assert(view.take(i as int + 1) =~= view.take(i as int).push(view[i as int]));
                lemma_all_samples_push(view.take(i as int), view[i as int]);
                lemma_written_concat(
                    old(self).gauges(),
                    all_samples(view.take(i as int)),
                    outcome_samples(view[i as int]),
                );
            }
            match &outcomes[i] {
                Ok(stats) => {
                    self.record_node(stats);
                },
                Err(_) => {},
            }
            i += 1;
        }
        proof {
            assert(view.take(i as int) =~= view);
            self.lemma_metrics();
        }
    }

    /// The available-bytes gauge of the label set, if the snapshot holds
    /// one.
    pub fn available(&self, labels: &EphemeralStorageLabels) -> (value: Option<i64>)
        requires
            self.well_formed(),
        ensures
            value == gauge_at(self.gauges().available, labels.key()),
    {
        self.storage_metrics.available(&self.registry, labels)
    }

    /// The capacity-bytes gauge of the label set, if the snapshot holds
    /// one.
    pub fn capacity(&self, labels: &EphemeralStorageLabels) -> (value: Option<i64>)
        requires
            self.well_formed(),
        ensures
            value == gauge_at(self.gauges().capacity, labels.key()),
    {
        self.storage_metrics.capacity(&self.registry, labels)
    }

    /// The used-bytes gauge of the label set, if the snapshot holds one.
    pub fn used(&self, labels: &EphemeralStorageLabels) -> (value: Option<i64>)
        requires
            self.well_formed(),
        ensures
            value == gauge_at(self.gauges().used, labels.key()),
    {
        self.storage_metrics.used(&self.registry, labels)
    }

    /// The build-info gauge of the label set, if the snapshot holds one.
    pub fn build_info_value(&self, labels: &BuildInfoLabels) -> (value: Option<i64>)
        requires
            self.well_formed(),
        ensures
            value == gauge_at(self.build_info(), labels.key()),
    {
        self.info_metrics.get(&self.registry, labels)
    }

    /// The snapshot in the OpenMetrics text format. The order of the lines
    /// is the encoder's. The text shows the snapshot: it holds the line of
    /// every storage gauge under its metric name and the build-info line,
    /// and it ends with the end-of-file line.
    pub fn encode(&self) -> (text: String)
        requires
            self.well_formed(),
        ensures
            shows(text@, self.gauges(), self.build_info()),
            ends_with_eof(text@),
    {
        proof {
            self.lemma_metrics();
        }
        self.registry.encode()
    }
}

} // verus!
