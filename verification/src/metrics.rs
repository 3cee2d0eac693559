//! The gauges of one scrape and the registry that exposes them.
//!
//! The registry and its gauge families are those of `prometheus_client`.
//! They are held together, and seen through one model: the metrics that the
//! registry exposes, each with its name, its help text and the gauges of
//! its family.

use crate::stats::EphemeralStorage;
use prometheus_client::metrics::family::Family;
use prometheus_client::metrics::gauge::Gauge;
use prometheus_client::registry::Registry;
use vstd::prelude::*;

verus! {

/// A metric as a registry exposes it.
pub struct ExposedMetric {
    /// The metric's name.
    pub name: Seq<char>,
    /// The help text that the metric was registered with.
    pub help: Seq<char>,
    /// The gauges of the metric's family: for each label set that has a
    /// gauge, the gauge's value.
    pub gauges: Map<Seq<(Seq<char>, Seq<char>)>, i64>,
}

/// A `prometheus_client` registry together with the gauge families that are
/// registered in it. A family is keyed by a list of `(label name, label
/// value)` pairs. The registry holds a clone of each family, which shares
/// the family's gauges, so what the registry exposes changes with every
/// gauge that is set; the two are kept behind one struct, and every change
/// goes through it.
#[verifier::external_body]
pub struct GaugeRegistry {
    registry: Registry,
    families: Vec<Family<Vec<(String, String)>, Gauge>>,
}

/// The metrics that a registry exposes, in the order of their
/// registration.
pub uninterp spec fn exposed(registry: GaugeRegistry) -> Seq<ExposedMetric>;

/// A family's contents when it holds no gauge.
pub open spec fn no_gauges() -> Map<Seq<(Seq<char>, Seq<char>)>, i64> {
    Map::empty()
}

/// A metric with one more gauge set: the label set has the given value,
/// and all else is as it was.
pub open spec fn with_gauge(
    metric: ExposedMetric,
    labels: Seq<(Seq<char>, Seq<char>)>,
    value: i64,
) -> ExposedMetric {
    ExposedMetric { name: metric.name, help: metric.help, gauges: metric.gauges.insert(labels, value) }
}

/// The value that a family holds under a key, if any.
pub open spec fn gauge_at(
    gauges: Map<Seq<(Seq<char>, Seq<char>)>, i64>,
    key: Seq<(Seq<char>, Seq<char>)>,
) -> Option<i64> {
    if gauges.contains_key(key) {
        Some(gauges[key])
    } else {
        None
    }
}

/// A decimal digit.
pub open spec fn digit(value: nat) -> char {
    seq!['0', '1', '2', '3', '4', '5', '6', '7', '8', '9'][value as int]
}

/// The decimal digits of a natural number, without leading zeros.
pub open spec fn digits(value: nat) -> Seq<char>
    decreases value,
{
    if value < 10 {
        seq![digit(value)]
    } else {
        digits(value / 10).push(digit(value % 10))
    }
}

/// An integer in decimal, with a minus sign where it is negative.
pub open spec fn decimal(value: int) -> Seq<char> {
    if value < 0 {
        seq!['-'] + digits((-value) as nat)
    } else {
        digits(value as nat)
    }
}

/// A label set as an exposition writes it: `name="value"` for each pair,
/// with commas between them. Values are written as they are.
pub open spec fn labels_text(labels: Seq<(Seq<char>, Seq<char>)>) -> Seq<char>
    decreases labels.len(),
{
    if labels.len() == 0 {
        Seq::empty()
    } else {
        let label = labels.last().0 + "=\""@ + labels.last().1 + "\""@;
        if labels.len() == 1 {
            label
        } else {
            labels_text(labels.drop_last()) + ","@ + label
        }
    }
}

/// The line of one gauge: the metric's name, the label set in braces, a
/// space, the value, and a line feed.
pub open spec fn sample_line(
    name: Seq<char>,
    labels: Seq<(Seq<char>, Seq<char>)>,
    value: i64,
) -> Seq<char> {
    name + "{"@ + labels_text(labels) + "} "@ + decimal(value as int) + "\n"@
}

/// The line that gives a metric's help text, which is closed with a full
/// stop.
pub open spec fn help_line(name: Seq<char>, help: Seq<char>) -> Seq<char> {
    "# HELP "@ + name + " "@ + help + ".\n"@
}

/// The line that declares a metric a gauge.
pub open spec fn type_line(name: Seq<char>) -> Seq<char> {
    "# TYPE "@ + name + " gauge\n"@
}

/// Whether a text holds a line: the line stands in it, unbroken.
pub open spec fn has_line(text: Seq<char>, line: Seq<char>) -> bool {
    exists|at: int|
        0 <= at && at + line.len() <= text.len() && #[trigger] text.subrange(
            at,
            at + line.len(),
        ) == line
}

/// Whether a text shows a metric: for every gauge of the metric it holds
/// the gauge's line, and with it the metric's help and type lines. A
/// metric without a gauge asks for nothing.
pub open spec fn exposes_metric(text: Seq<char>, metric: ExposedMetric) -> bool {
    forall|labels: Seq<(Seq<char>, Seq<char>)>| #[trigger]
        metric.gauges.contains_key(labels) ==> {
            &&& has_line(text, help_line(metric.name, metric.help))
            &&& has_line(text, type_line(metric.name))
            &&& has_line(text, sample_line(metric.name, labels, metric.gauges[labels]))
        }
}

/// Whether a text shows every one of the metrics.
pub open spec fn exposes(text: Seq<char>, metrics: Seq<ExposedMetric>) -> bool {
    forall|i: int| 0 <= i < metrics.len() ==> exposes_metric(text, #[trigger] metrics[i])
}

/// Whether a line is one that shows a gauge of the metrics: the line of
/// a gauge, or the help or type line of a metric that has a gauge.
pub open spec fn is_line_of(line: Seq<char>, metrics: Seq<ExposedMetric>) -> bool {
    exists|i: int, labels: Seq<(Seq<char>, Seq<char>)>|
        0 <= i < metrics.len() && #[trigger] metrics[i].gauges.contains_key(labels) && {
            ||| line == help_line(metrics[i].name, metrics[i].help)
            ||| line == type_line(metrics[i].name)
            ||| line == sample_line(metrics[i].name, labels, metrics[i].gauges[labels])
        }
}

/// Whether a text is made of lines of the metrics and of nothing else:
/// such lines one after the other, and the end-of-file line after them.
pub open spec fn made_of(text: Seq<char>, metrics: Seq<ExposedMetric>) -> bool {
    exists|lines: Seq<Seq<char>>|
        {
            &&& text == lines.flatten() + "# EOF\n"@
            &&& forall|k: int| 0 <= k < lines.len() ==> is_line_of(#[trigger] lines[k], metrics)
        }
}

/// Whether a text ends with the line that closes an OpenMetrics
/// exposition.
pub open spec fn ends_with_eof(text: Seq<char>) -> bool {
    let marker = "# EOF\n"@;
    text.len() >= marker.len() && text.subrange(text.len() - marker.len(), text.len() as int)
        == marker
}

/// `Registry::default`, with no family beside it: a registry that exposes
/// nothing.
#[verifier::external_body]
fn registry_new() -> (registry: GaugeRegistry)
    ensures
        exposed(registry) == Seq::<ExposedMetric>::empty(),
{
    GaugeRegistry { registry: Registry::default(), families: Vec::new() }
}

/// `Family::default` and `Registry::register`: a new family without any
/// gauge is registered under the name, with the help text, after the
/// metrics that were there, and is kept beside the registry. The clone
/// that the registry gets shares the family's gauges. The position of the
/// new metric is handed back.
#[verifier::external_body]
fn registry_register(registry: &mut GaugeRegistry, name: &str, help: &str) -> (entry: usize)
    ensures
        entry == exposed(*old(registry)).len(),
        exposed(*final(registry)) == exposed(*old(registry)).push(
            ExposedMetric { name: name@, help: help@, gauges: no_gauges() },
        ),
{
    let entry = registry.families.len();
    let family = Family::default();
    registry.registry.register(name, help, family.clone());
    registry.families.push(family);
    entry
}

/// `Family::get_or_create` followed by `Gauge::set` on the gauge it hands
/// out, which is reachable only while the family's lock guard lives:
/// afterwards the label set has a gauge with the given value in the
/// metric at `entry`, whether or not it had one before, and every other
/// gauge and metric is as it was.
#[verifier::external_body]
fn registry_set(
    registry: &mut GaugeRegistry,
    entry: usize,
    labels: &Vec<(String, String)>,
    value: i64,
)
    requires
        entry < exposed(*old(registry)).len(),
    ensures
        exposed(*final(registry)) == exposed(*old(registry)).update(
            entry as int,
            with_gauge(exposed(*old(registry))[entry as int], labels.deep_view(), value),
        ),
{
    registry.families[entry].get_or_create(labels).set(value);
}

/// `Family::get` followed by `Gauge::get` on the gauge it hands out, under
/// the same lock guard: the value of the gauge of the label set in the
/// metric at `entry`, if there is one.
#[verifier::external_body]
fn registry_get(registry: &GaugeRegistry, entry: usize, labels: &Vec<(String, String)>) -> (value:
    Option<i64>)
    requires
        entry < exposed(*registry).len(),
    ensures
        value == gauge_at(exposed(*registry)[entry as int].gauges, labels.deep_view()),
{
    registry.families[entry].get(labels).map(|gauge| gauge.get())
}

/// `prometheus_client::encoding::text::encode` into a fresh `String`;
/// `None` stands for the formatter's error. On gauge families with string
/// labels every error of the encoder is one that its writer reports, and a
/// `String` takes every write, so a text always comes back. The encoder
/// walks every metric that has a gauge and every gauge of its family, in
/// the order in which a hash map is walked, so the text is given no name:
/// stated is what it holds in any order, a line for each gauge with the
/// help and type lines of its metric; that it holds no line of another
/// kind; and the end-of-file line that the encoder writes last.
#[verifier::external_body]
fn registry_encode(registry: &GaugeRegistry) -> (text: Option<String>)
    ensures
        text is Some,
        text matches Some(body) ==> exposes(body@, exposed(*registry)),
        text matches Some(body) ==> made_of(body@, exposed(*registry)),
        text matches Some(body) ==> ends_with_eof(body@),
{
    let mut buffer = String::new();
    prometheus_client::encoding::text::encode(&mut buffer, &registry.registry).ok()?;
    Some(buffer)
}

impl GaugeRegistry {
    /// A registry that exposes nothing.
    pub fn new() -> (registry: GaugeRegistry)
        ensures
            exposed(registry) == Seq::<ExposedMetric>::empty(),
    {
        registry_new()
    }

    /// The registry's metrics in the OpenMetrics text format. The order of
    /// the lines is the encoder's.
    pub fn encode(&self) -> (text: String)
        ensures
            exposes(text@, exposed(*self)),
            made_of(text@, exposed(*self)),
            ends_with_eof(text@),
    {
        registry_encode(self).unwrap()
    }
}

/// The label pairs of a pod's gauges.
pub open spec fn storage_key(
    pod: Seq<char>,
    namespace: Seq<char>,
    node: Seq<char>,
    uid: Seq<char>,
) -> Seq<(Seq<char>, Seq<char>)> {
    seq![("pod"@, pod), ("namespace"@, namespace), ("node"@, node), ("uid"@, uid)]
}

/// The label pairs of the build-info gauge.
pub open spec fn build_info_key(version: Seq<char>, revision: Seq<char>) -> Seq<
    (Seq<char>, Seq<char>),
> {
    seq![("version"@, version), ("revision"@, revision)]
}

/// Label set of the ephemeral-storage gauges.
#[derive(Clone, Debug, Hash, PartialEq, Eq)]
pub struct EphemeralStorageLabels {
    pub pod: String,
    pub namespace: String,
    pub node: String,
    pub uid: String,
}

/// Label set of the build-info gauge.
#[derive(Clone, Debug, Hash, PartialEq, Eq)]
pub struct BuildInfoLabels {
    pub version: String,
    pub revision: String,
}

impl EphemeralStorageLabels {
    /// The label pairs under which the gauges of this label set are kept.
    pub open spec fn key(&self) -> Seq<(Seq<char>, Seq<char>)> {
        storage_key(self.pod@, self.namespace@, self.node@, self.uid@)
    }

    /// The label set as label pairs: `pod`, `namespace`, `node`, `uid`, in
    /// this order.
    pub fn pairs(&self) -> (pairs: Vec<(String, String)>)
        ensures
            pairs.deep_view() == self.key(),
    {
        let mut pairs: Vec<(String, String)> = Vec::new();
        pairs.push((String::from_str("pod"), self.pod.clone()));
        pairs.push((String::from_str("namespace"), self.namespace.clone()));
        pairs.push((String::from_str("node"), self.node.clone()));
        pairs.push((String::from_str("uid"), self.uid.clone()));
        assert(pairs.deep_view() =~= self.key());
        pairs
    }
}

impl BuildInfoLabels {
    /// The label pairs under which the build-info gauge is kept.
    pub open spec fn key(&self) -> Seq<(Seq<char>, Seq<char>)> {
        build_info_key(self.version@, self.revision@)
    }

    /// The label set as label pairs: `version`, then `revision`.
    pub fn pairs(&self) -> (pairs: Vec<(String, String)>)
        ensures
            pairs.deep_view() == self.key(),
    {
        let mut pairs: Vec<(String, String)> = Vec::new();
        pairs.push((String::from_str("version"), self.version.clone()));
        pairs.push((String::from_str("revision"), self.revision.clone()));
        assert(pairs.deep_view() =~= self.key());
        pairs
    }
}

/// One write into the storage gauges: a label key and the three values
/// written under it.
pub struct Sample {
    pub key: Seq<(Seq<char>, Seq<char>)>,
    pub storage: EphemeralStorage,
}

/// The three storage gauge families as maps from label key to value.
#[verifier::ext_equal]
pub struct Gauges {
    pub available: Map<Seq<(Seq<char>, Seq<char>)>, i64>,
    pub capacity: Map<Seq<(Seq<char>, Seq<char>)>, i64>,
    pub used: Map<Seq<(Seq<char>, Seq<char>)>, i64>,
}

impl Gauges {
    /// No gauge in any family.
    pub open spec fn empty() -> Gauges {
        Gauges { available: no_gauges(), capacity: no_gauges(), used: no_gauges() }
    }

    /// The gauges after one sample is written: its three values stand under
    /// its key, in place of whatever stood there.
    pub open spec fn record(self, sample: Sample) -> Gauges {
        Gauges {
            available: self.available.insert(sample.key, sample.storage.available_bytes),
            capacity: self.capacity.insert(sample.key, sample.storage.capacity_bytes),
            used: self.used.insert(sample.key, sample.storage.used_bytes),
        }
    }
}

/// The available-bytes metric with the given gauges.
pub open spec fn available_metric(gauges: Map<Seq<(Seq<char>, Seq<char>)>, i64>) -> ExposedMetric {
    ExposedMetric {
        name: "kube_pod_ephemeral_storage_available_bytes"@,
        help: "Pod ephemeral storage available bytes"@,
        gauges,
    }
}

/// The capacity-bytes metric with the given gauges.
pub open spec fn capacity_metric(gauges: Map<Seq<(Seq<char>, Seq<char>)>, i64>) -> ExposedMetric {
    ExposedMetric {
        name: "kube_pod_ephemeral_storage_capacity_bytes"@,
        help: "Pod ephemeral storage capacity bytes"@,
        gauges,
    }
}

/// The used-bytes metric with the given gauges.
pub open spec fn used_metric(gauges: Map<Seq<(Seq<char>, Seq<char>)>, i64>) -> ExposedMetric {
    ExposedMetric {
        name: "kube_pod_ephemeral_storage_used_bytes"@,
        help: "Pod ephemeral storage used bytes"@,
        gauges,
    }
}

/// The build-info metric with the given gauges.
pub open spec fn build_info_metric(gauges: Map<Seq<(Seq<char>, Seq<char>)>, i64>) -> ExposedMetric {
    ExposedMetric {
        name: "kube_stats_exporter_build_info"@,
        help: "kube-stats-exporter build info"@,
        gauges,
    }
}

/// The three storage metrics, in the order of their registration:
/// available, capacity, used.
pub open spec fn storage_metrics(gauges: Gauges) -> Seq<ExposedMetric> {
    seq![
        available_metric(gauges.available),
        capacity_metric(gauges.capacity),
        used_metric(gauges.used),
    ]
}

/// The three metrics that carry the pods' ephemeral-storage figures, as
/// positions in the registry that they are registered in. Until
/// [`EphemeralStorageMetrics::register`] is called they belong to no
/// registry.
pub struct EphemeralStorageMetrics {
    available_bytes: usize,
    capacity_bytes: usize,
    used_bytes: usize,
}

/// The metric that carries the build information, as a position in the
/// registry that it is registered in. Until [`BuildInfoMetrics::register`]
/// is called it belongs to no registry.
pub struct BuildInfoMetrics {
    build_info: usize,
}

impl Default for EphemeralStorageMetrics {
    /// Metrics that are not registered yet.
    fn default() -> (metrics: EphemeralStorageMetrics)
        ensures
            metrics.available_entry() == 0,
            metrics.capacity_entry() == 0,
            metrics.used_entry() == 0,
    {
        EphemeralStorageMetrics { available_bytes: 0, capacity_bytes: 0, used_bytes: 0 }
    }
}

impl Default for BuildInfoMetrics {
    /// A metric that is not registered yet.
    fn default() -> (metrics: BuildInfoMetrics)
        ensures
            metrics.entry() == 0,
    {
        BuildInfoMetrics { build_info: 0 }
    }
}

impl EphemeralStorageMetrics {
    /// The position of the available-bytes metric.
    pub closed spec fn available_entry(&self) -> int {
        self.available_bytes as int
    }

    /// The position of the capacity-bytes metric.
    pub closed spec fn capacity_entry(&self) -> int {
        self.capacity_bytes as int
    }

    /// The position of the used-bytes metric.
    pub closed spec fn used_entry(&self) -> int {
        self.used_bytes as int
    }

    /// Whether these are metrics of the registry: at three positions in a
    /// row the registry exposes the available, the capacity and the used
    /// metric, under their names and help texts.
    pub open spec fn registered_in(&self, registry: GaugeRegistry) -> bool {
        let metrics = exposed(registry);
        &&& 0 <= self.available_entry()
        &&& self.capacity_entry() == self.available_entry() + 1
        &&& self.used_entry() == self.available_entry() + 2
        &&& self.used_entry() < metrics.len()
        &&& metrics[self.available_entry()] == available_metric(
            metrics[self.available_entry()].gauges,
        )
        &&& metrics[self.capacity_entry()] == capacity_metric(metrics[self.capacity_entry()].gauges)
        &&& metrics[self.used_entry()] == used_metric(metrics[self.used_entry()].gauges)
    }

    /// What the three metrics hold in the registry.
    pub open spec fn gauges_in(&self, registry: GaugeRegistry) -> Gauges {
        let metrics = exposed(registry);
        Gauges {
            available: metrics[self.available_entry()].gauges,
            capacity: metrics[self.capacity_entry()].gauges,
            used: metrics[self.used_entry()].gauges,
        }
    }

    /// Registers the three metrics with the registry, after the metrics
    /// that it holds: available, capacity and used, each under its name,
    /// each without a gauge. From now on these are the metrics that the
    /// setters write: what `set_available` writes shows under the
    /// available name, and so for the others.
    pub fn register(&mut self, registry: &mut GaugeRegistry)
        ensures
            exposed(*final(registry)) == exposed(*old(registry)) + storage_metrics(Gauges::empty()),
            final(self).available_entry() == exposed(*old(registry)).len(),
            final(self).registered_in(*final(registry)),
            final(self).gauges_in(*final(registry)) == Gauges::empty(),
    {
        self.available_bytes = registry_register(
            registry,
            "kube_pod_ephemeral_storage_available_bytes",
            "Pod ephemeral storage available bytes",
        );
        self.capacity_bytes = registry_register(
            registry,
            "kube_pod_ephemeral_storage_capacity_bytes",
            "Pod ephemeral storage capacity bytes",
        );
        self.used_bytes = registry_register(
            registry,
            "kube_pod_ephemeral_storage_used_bytes",
            "Pod ephemeral storage used bytes",
        );
        assert(exposed(*registry) =~= exposed(*old(registry)) + storage_metrics(Gauges::empty()));
    }

    /// Sets the available-bytes gauge of the label set. Nothing else in
    /// the registry changes.
    pub fn set_available(
        &self,
        registry: &mut GaugeRegistry,
        labels: &EphemeralStorageLabels,
        value: i64,
    )
        requires
            self.registered_in(*old(registry)),
        ensures
            exposed(*final(registry)) == exposed(*old(registry)).update(
                self.available_entry(),
                available_metric(
                    self.gauges_in(*old(registry)).available.insert(labels.key(), value),
                ),
            ),
            self.registered_in(*final(registry)),
    {
        let pairs = labels.pairs();
        registry_set(registry, self.available_bytes, &pairs, value);
    }

    /// Sets the capacity-bytes gauge of the label set. Nothing else in the
    /// registry changes.
    pub fn set_capacity(
        &self,
        registry: &mut GaugeRegistry,
        labels: &EphemeralStorageLabels,
        value: i64,
    )
        requires
            self.registered_in(*old(registry)),
        ensures
            exposed(*final(registry)) == exposed(*old(registry)).update(
                self.capacity_entry(),
                capacity_metric(self.gauges_in(*old(registry)).capacity.insert(labels.key(), value)),
            ),
            self.registered_in(*final(registry)),
    {
        let pairs = labels.pairs();
        registry_set(registry, self.capacity_bytes, &pairs, value);
    }

    /// Sets the used-bytes gauge of the label set. Nothing else in the
    /// registry changes.
    pub fn set_used(&self, registry: &mut GaugeRegistry, labels: &EphemeralStorageLabels, value: i64)
        requires
            self.registered_in(*old(registry)),
        ensures
            exposed(*final(registry)) == exposed(*old(registry)).update(
                self.used_entry(),
                used_metric(self.gauges_in(*old(registry)).used.insert(labels.key(), value)),
            ),
            self.registered_in(*final(registry)),
    {
        let pairs = labels.pairs();
        registry_set(registry, self.used_bytes, &pairs, value);
    }

    /// Writes one pod's figures: the used, available and capacity gauges of
    /// the label set take the sample's values, replacing earlier ones.
    /// Every other metric of the registry stays as it is.
    pub fn record(
        &self,
        registry: &mut GaugeRegistry,
        labels: &EphemeralStorageLabels,
        storage: EphemeralStorage,
    )
        requires
            self.registered_in(*old(registry)),
        ensures
            self.registered_in(*final(registry)),
            self.gauges_in(*final(registry)) == self.gauges_in(*old(registry)).record(
                Sample { key: labels.key(), storage },
            ),
            exposed(*final(registry)).len() == exposed(*old(registry)).len(),
            forall|i: int|
                0 <= i < exposed(*old(registry)).len() && !(self.available_entry() <= i
                    <= self.used_entry()) ==> exposed(*final(registry))[i] == exposed(
                    *old(registry),
                )[i],
    {
        self.set_used(registry, labels, storage.used_bytes);
        self.set_available(registry, labels, storage.available_bytes);
        self.set_capacity(registry, labels, storage.capacity_bytes);
    }

    /// The available-bytes gauge of the label set, if it was ever set.
    pub fn available(&self, registry: &GaugeRegistry, labels: &EphemeralStorageLabels) -> (value:
        Option<i64>)
        requires
            self.registered_in(*registry),
        ensures
            value == gauge_at(self.gauges_in(*registry).available, labels.key()),
    {
        let pairs = labels.pairs();
        registry_get(registry, self.available_bytes, &pairs)
    }

    /// The capacity-bytes gauge of the label set, if it was ever set.
    pub fn capacity(&self, registry: &GaugeRegistry, labels: &EphemeralStorageLabels) -> (value:
        Option<i64>)
        requires
            self.registered_in(*registry),
        ensures
            value == gauge_at(self.gauges_in(*registry).capacity, labels.key()),
    {
        let pairs = labels.pairs();
        registry_get(registry, self.capacity_bytes, &pairs)
    }

    /// The used-bytes gauge of the label set, if it was ever set.
    pub fn used(&self, registry: &GaugeRegistry, labels: &EphemeralStorageLabels) -> (value: Option<
        i64,
    >)
        requires
            self.registered_in(*registry),
        ensures
            value == gauge_at(self.gauges_in(*registry).used, labels.key()),
    {
        let pairs = labels.pairs();
        registry_get(registry, self.used_bytes, &pairs)
    }
}

impl BuildInfoMetrics {
    /// The position of the build-info metric.
    pub closed spec fn entry(&self) -> int {
        self.build_info as int
    }

    /// Whether this is a metric of the registry: at its position the
    /// registry exposes the build-info metric, under its name and help
    /// text.
    pub open spec fn registered_in(&self, registry: GaugeRegistry) -> bool {
        let metrics = exposed(registry);
        &&& 0 <= self.entry() < metrics.len()
        &&& metrics[self.entry()] == build_info_metric(metrics[self.entry()].gauges)
    }

    /// What the metric holds in the registry.
    pub open spec fn gauges_in(&self, registry: GaugeRegistry) -> Map<
        Seq<(Seq<char>, Seq<char>)>,
        i64,
    > {
        exposed(registry)[self.entry()].gauges
    }

    /// Registers the metric with the registry, after the metrics that it
    /// holds, under its name and without a gauge. From now on this is the
    /// metric that `set` writes.
    pub fn register(&mut self, registry: &mut GaugeRegistry)
        ensures
            exposed(*final(registry)) == exposed(*old(registry)).push(
                build_info_metric(no_gauges()),
            ),
            final(self).entry() == exposed(*old(registry)).len(),
            final(self).registered_in(*final(registry)),
            final(self).gauges_in(*final(registry)) == no_gauges(),
    {
        self.build_info = registry_register(
            registry,
            "kube_stats_exporter_build_info",
            "kube-stats-exporter build info",
        );
    }

    /// Sets the build-info gauge of the label set to 1. Nothing else in
    /// the registry changes.
    pub fn set(&self, registry: &mut GaugeRegistry, labels: &BuildInfoLabels)
        requires
            self.registered_in(*old(registry)),
        ensures
            exposed(*final(registry)) == exposed(*old(registry)).update(
                self.entry(),
                build_info_metric(self.gauges_in(*old(registry)).insert(labels.key(), 1i64)),
            ),
            self.registered_in(*final(registry)),
    {
        let pairs = labels.pairs();
        registry_set(registry, self.build_info, &pairs, 1);
    }

    /// The build-info gauge of the label set, if it was ever set.
    pub fn get(&self, registry: &GaugeRegistry, labels: &BuildInfoLabels) -> (value: Option<i64>)
        requires
            self.registered_in(*registry),
        ensures
            value == gauge_at(self.gauges_in(*registry), labels.key()),
    {
        let pairs = labels.pairs();
        registry_get(registry, self.build_info, &pairs)
    }
}

} // verus!
