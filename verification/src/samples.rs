//! The arithmetic of a scrape: which samples the fetched documents hold,
//! and what the gauges are once the samples are written in order.

use crate::metrics::{gauge_at, storage_key, Gauges, Sample};
use crate::stats::{NodeFailure, NodeStats, NodeStatsView, PodView};
use vstd::prelude::*;

verus! {

/// The sample that a pod contributes when `node` reports it.
pub open spec fn sample_of(node: Seq<char>, pod: PodView) -> Sample {
    Sample {
        key: storage_key(pod.pod_ref.name, pod.pod_ref.namespace, node, pod.pod_ref.uid),
        storage: pod.ephemeral_storage,
    }
}

/// The samples of one stats document: one for each pod, in the document's
/// order, labelled with the node that the document names.
pub open spec fn node_samples(stats: NodeStatsView) -> Seq<Sample> {
    Seq::new(stats.pods.len(), |j: int| sample_of(stats.node_name, stats.pods[j]))
}

/// The samples of one fetch: those of its document, or none if it failed.
pub open spec fn outcome_samples(outcome: Option<NodeStatsView>) -> Seq<Sample> {
    match outcome {
        Some(stats) => node_samples(stats),
        None => Seq::empty(),
    }
}

/// The samples of all fetches, node after node.
pub open spec fn all_samples(outcomes: Seq<Option<NodeStatsView>>) -> Seq<Sample>
    decreases outcomes.len(),
{
    if outcomes.len() == 0 {
        Seq::empty()
    } else {
        all_samples(outcomes.drop_last()) + outcome_samples(outcomes.last())
    }
}

/// The gauges after the samples are written one after the other.
pub open spec fn written(gauges: Gauges, samples: Seq<Sample>) -> Gauges
    decreases samples.len(),
{
    if samples.len() == 0 {
        gauges
    } else {
        written(gauges, samples.drop_last()).record(samples.last())
    }
}

/// The gauges of a scrape: the samples of all fetches written into empty
/// families.
pub open spec fn collected(outcomes: Seq<Option<NodeStatsView>>) -> Gauges {
    written(Gauges::empty(), all_samples(outcomes))
}

/// The last sample written under a key, if any was.
pub open spec fn last_write(samples: Seq<Sample>, key: Seq<(Seq<char>, Seq<char>)>) -> Option<
    Sample,
>
    decreases samples.len(),
{
    if samples.len() == 0 {
        None
    } else if samples.last().key == key {
        Some(samples.last())
    } else {
        last_write(samples.drop_last(), key)
    }
}

/// What the fetches of a scrape amount to in the model: the document of
/// each node that answered with one, and nothing for a node that failed.
pub open spec fn outcomes_view(outcomes: Seq<Result<NodeStats, NodeFailure>>) -> Seq<
    Option<NodeStatsView>,
> {
    Seq::new(
        outcomes.len(),
        |i: int|
            match outcomes[i] {
                Ok(stats) => Some(stats@),
                Err(_) => None,
            },
    )
}

/// Writing two runs of samples one after the other is writing their
/// concatenation.
pub proof fn lemma_written_concat(gauges: Gauges, first: Seq<Sample>, second: Seq<Sample>)
    ensures
        written(gauges, first + second) == written(written(gauges, first), second),
    decreases second.len(),
{
    if second.len() == 0 {
        assert(first + second =~= first);
    } else {
        lemma_written_concat(gauges, first, second.drop_last());
        assert((first + second).drop_last() =~= first + second.drop_last());
        assert((first + second).last() == second.last());
    }
}

/// The samples of a run of fetches followed by one more are the samples of
/// the run followed by those of the last fetch.
pub proof fn lemma_all_samples_push(
    outcomes: Seq<Option<NodeStatsView>>,
    outcome: Option<NodeStatsView>,
)
    ensures
        all_samples(outcomes.push(outcome)) == all_samples(outcomes) + outcome_samples(outcome),
{
    assert(outcomes.push(outcome).drop_last() =~= outcomes);
}

/// The samples of two runs of fetches are those of the first run followed
/// by those of the second.
pub proof fn lemma_all_samples_concat(
    first: Seq<Option<NodeStatsView>>,
    second: Seq<Option<NodeStatsView>>,
)
    ensures
        all_samples(first + second) == all_samples(first) + all_samples(second),
    decreases second.len(),
{
    if second.len() == 0 {
        assert(first + second =~= first);
        assert(all_samples(first) + all_samples(second) =~= all_samples(first));
    } else {
        lemma_all_samples_concat(first, second.drop_last());
        assert((first + second).drop_last() =~= first + second.drop_last());
        assert((first + second).last() == second.last());
        assert(all_samples(first + second) =~= all_samples(first) + all_samples(second));
    }
}

/// Whether `sample` is what pod `j` of the document of fetch `i`
/// contributes, fetch `i` having succeeded.
pub open spec fn is_fetched_sample(
    outcomes: Seq<Option<NodeStatsView>>,
    i: int,
    j: int,
    sample: Sample,
) -> bool {
    &&& 0 <= i < outcomes.len()
    &&& outcomes[i] matches Some(stats)
    &&& 0 <= j < stats.pods.len()
    &&& sample == sample_of(stats.node_name, stats.pods[j])
}

/// Two label keys are equal only if pod, namespace, node and UID are: the
/// gauges of one pod on one node never stand under the key of another.
pub proof fn law_key_identifies_pod_and_node(
    pod: Seq<char>,
    namespace: Seq<char>,
    node: Seq<char>,
    uid: Seq<char>,
    other_pod: Seq<char>,
    other_namespace: Seq<char>,
    other_node: Seq<char>,
    other_uid: Seq<char>,
)
    ensures
        storage_key(pod, namespace, node, uid) == storage_key(
            other_pod,
            other_namespace,
            other_node,
            other_uid,
        ) <==> pod == other_pod && namespace == other_namespace && node == other_node && uid
            == other_uid,
{
    let a = storage_key(pod, namespace, node, uid);
    let b = storage_key(other_pod, other_namespace, other_node, other_uid);
    if a == b {
        assert(a[0].1 == b[0].1);
        assert(a[1].1 == b[1].1);
        assert(a[2].1 == b[2].1);
        assert(a[3].1 == b[3].1);
    }
}

/// The samples of a scrape are exactly the union of the samples of the
/// nodes that were fetched: each pod of each fetched document contributes
/// its sample, and nothing else is among them.
pub proof fn law_samples_are_union_of_fetched(
    outcomes: Seq<Option<NodeStatsView>>,
    sample: Sample,
)
    ensures
        all_samples(outcomes).contains(sample) <==> exists|i: int, j: int|
            is_fetched_sample(outcomes, i, j, sample),
    decreases outcomes.len(),
{
    if outcomes.len() == 0 {
    } else {
        let front = outcomes.drop_last();
        let head = all_samples(front);
        let tail = outcome_samples(outcomes.last());
        law_samples_are_union_of_fetched(front, sample);
        if all_samples(outcomes).contains(sample) {
            let k = choose|k: int| 0 <= k < (head + tail).len() && (head + tail)[k] == sample;
            if k < head.len() {
                assert(head[k] == sample);
                assert(head.contains(sample));
                let (i, j) = choose|i: int, j: int| is_fetched_sample(front, i, j, sample);
                assert(is_fetched_sample(outcomes, i, j, sample));
            } else {
                assert(tail[k - head.len()] == sample);
                assert(is_fetched_sample(outcomes, outcomes.len() - 1, k - head.len(), sample));
            }
        }
        if exists|i: int, j: int| is_fetched_sample(outcomes, i, j, sample) {
            let (i, j) = choose|i: int, j: int| is_fetched_sample(outcomes, i, j, sample);
            if i < outcomes.len() - 1 {
                assert(is_fetched_sample(front, i, j, sample));
                let k = choose|k: int| 0 <= k < head.len() && head[k] == sample;
                assert((head + tail)[k] == sample);
            } else {
                assert(tail[j] == sample);
                assert((head + tail)[head.len() + j] == sample);
            }
        }
    }
}

/// A failed fetch contributes no sample, wherever it stands among the
/// outcomes: the samples of the scrape, and so its gauges, are those of the
/// scrape without that node.
pub proof fn law_failed_node_contributes_nothing(outcomes: Seq<Option<NodeStatsView>>, i: int)
    requires
        0 <= i < outcomes.len(),
        outcomes[i] is None,
    ensures
        all_samples(outcomes) == all_samples(outcomes.remove(i)),
        collected(outcomes) == collected(outcomes.remove(i)),
{
    let before = outcomes.take(i);
    let failed = seq![outcomes[i]];
    let after = outcomes.skip(i + 1);
    assert(outcomes =~= before + failed + after);
    assert(outcomes.remove(i) =~= before + after);
    lemma_all_samples_concat(before + failed, after);
    lemma_all_samples_concat(before, failed);
    lemma_all_samples_concat(before, after);
    lemma_all_samples_push(Seq::empty(), outcomes[i]);
    assert(failed =~= Seq::<Option<NodeStatsView>>::empty().push(outcomes[i]));
    assert(all_samples(failed) =~= Seq::<Sample>::empty());
    assert(all_samples(before) + all_samples(failed) =~= all_samples(before));
}

/// The last write under a key is one of the samples and carries the key;
/// there is none exactly if no sample carries the key.
pub proof fn law_last_write_is_a_sample(samples: Seq<Sample>, key: Seq<(Seq<char>, Seq<char>)>)
    ensures
        match last_write(samples, key) {
            Some(sample) => sample.key == key && samples.contains(sample),
            None => true,
        },
        last_write(samples, key) is None <==> forall|i: int|
            0 <= i < samples.len() ==> (#[trigger] samples[i]).key != key,
    decreases samples.len(),
{
    if samples.len() == 0 {
    } else {
        let front = samples.drop_last();
        law_last_write_is_a_sample(front, key);
        if samples.last().key == key {
            assert(samples[samples.len() - 1] == samples.last());
        } else {
            if let Some(sample) = last_write(front, key) {
                let k = choose|k: int| 0 <= k < front.len() && front[k] == sample;
                assert(samples[k] == sample);
            }
            if last_write(front, key) is None {
                assert forall|i: int| 0 <= i < samples.len() implies (#[trigger] samples[i]).key
                    != key by {
                    if i < front.len() {
                        assert(front[i] == samples[i]);
                    }
                }
            } else {
                let k = choose|k: int| 0 <= k < front.len() && (#[trigger] front[k]).key == key;
                assert(samples[k].key == key);
            }
        }
    }
}

/// Later writes overwrite earlier ones, and nothing is summed: under every
/// key each gauge holds the value of the last sample written under that
/// key, and where no sample was written under it, what it held before.
pub proof fn law_last_write_wins(
    gauges: Gauges,
    samples: Seq<Sample>,
    key: Seq<(Seq<char>, Seq<char>)>,
)
    ensures
        match last_write(samples, key) {
            Some(sample) => {
                &&& gauge_at(written(gauges, samples).available, key) == Some(
                    sample.storage.available_bytes,
                )
                &&& gauge_at(written(gauges, samples).capacity, key) == Some(
                    sample.storage.capacity_bytes,
                )
                &&& gauge_at(written(gauges, samples).used, key) == Some(
                    sample.storage.used_bytes,
                )
            },
            None => {
                &&& gauge_at(written(gauges, samples).available, key) == gauge_at(
                    gauges.available,
                    key,
                )
                &&& gauge_at(written(gauges, samples).capacity, key) == gauge_at(
                    gauges.capacity,
                    key,
                )
                &&& gauge_at(written(gauges, samples).used, key) == gauge_at(gauges.used, key)
            },
        },
    decreases samples.len(),
{
    if samples.len() == 0 {
    } else {
        law_last_write_wins(gauges, samples.drop_last(), key);
    }
}

/// Two maps that hold the same gauge, or none, under every key are equal.
proof fn lemma_equal_gauges(
    left: Map<Seq<(Seq<char>, Seq<char>)>, i64>,
    right: Map<Seq<(Seq<char>, Seq<char>)>, i64>,
)
    requires
        forall|key: Seq<(Seq<char>, Seq<char>)>| gauge_at(left, key) == gauge_at(right, key),
    ensures
        left == right,
{
    assert forall|key: Seq<(Seq<char>, Seq<char>)>| #[trigger]
        left.dom().contains(key) == right.dom().contains(key) by {
        assert(gauge_at(left, key) == gauge_at(right, key));
    }
    assert forall|key: Seq<(Seq<char>, Seq<char>)>| left.dom().contains(key) implies #[trigger] left[key]
        == right[key] by {
        assert(gauge_at(left, key) == gauge_at(right, key));
    }
    assert(left =~= right);
}

/// Writing the same samples a second time changes nothing: values are
/// replaced, never accumulated.
pub proof fn law_rewriting_changes_nothing(gauges: Gauges, samples: Seq<Sample>)
    ensures
        written(written(gauges, samples), samples) == written(gauges, samples),
{
    let once = written(gauges, samples);
    let twice = written(once, samples);
    assert forall|key: Seq<(Seq<char>, Seq<char>)>|
        gauge_at(twice.available, key) == gauge_at(once.available, key) && gauge_at(
            twice.capacity,
            key,
        ) == gauge_at(once.capacity, key) && gauge_at(twice.used, key) == gauge_at(
            once.used,
            key,
        ) by {
        law_last_write_wins(gauges, samples, key);
        law_last_write_wins(once, samples, key);
    }
    lemma_equal_gauges(twice.available, once.available);
    lemma_equal_gauges(twice.capacity, once.capacity);
    lemma_equal_gauges(twice.used, once.used);
    assert(twice =~= once);
}

/// A scrape is repeatable: the gauges depend on nothing but the outcomes of
/// the fetches, so two scrapes over the same outcomes expose the same
/// gauges, and a scrape over the outcomes taken twice in a row exposes no
/// more than a scrape over them taken once.
pub proof fn law_collection_is_idempotent(
    first: Seq<Option<NodeStatsView>>,
    second: Seq<Option<NodeStatsView>>,
)
    requires
        first == second,
    ensures
        collected(first) == collected(second),
        collected(first + second) == collected(first),
{
    lemma_all_samples_concat(first, second);
    lemma_written_concat(Gauges::empty(), all_samples(first), all_samples(second));
    law_rewriting_changes_nothing(Gauges::empty(), all_samples(first));
}

/// The gauges of a scrape are exactly those of the fetched samples: a key
/// has gauges if and only if a pod of a fetched document carries it, the
/// three families hold the same keys, and the three values under a key are
/// those of one such pod.
pub proof fn law_gauges_are_union_of_fetched(
    outcomes: Seq<Option<NodeStatsView>>,
    key: Seq<(Seq<char>, Seq<char>)>,
)
    ensures
        collected(outcomes).used.contains_key(key) <==> exists|i: int, j: int, sample: Sample|
            is_fetched_sample(outcomes, i, j, sample) && sample.key == key,
        collected(outcomes).used.contains_key(key) == collected(outcomes).available.contains_key(
            key,
        ),
        collected(outcomes).used.contains_key(key) == collected(outcomes).capacity.contains_key(
            key,
        ),
        collected(outcomes).used.contains_key(key) ==> exists|i: int, j: int, sample: Sample|
            {
                &&& is_fetched_sample(outcomes, i, j, sample)
                &&& sample.key == key
                &&& collected(outcomes).used[key] == sample.storage.used_bytes
                &&& collected(outcomes).available[key] == sample.storage.available_bytes
                &&& collected(outcomes).capacity[key] == sample.storage.capacity_bytes
            },
{
    let samples = all_samples(outcomes);
    law_last_write_wins(Gauges::empty(), samples, key);
    law_last_write_is_a_sample(samples, key);
    match last_write(samples, key) {
        Some(sample) => {
            law_samples_are_union_of_fetched(outcomes, sample);
            let (i, j) = choose|i: int, j: int| is_fetched_sample(outcomes, i, j, sample);
            assert(is_fetched_sample(outcomes, i, j, sample) && sample.key == key);
        },
        None => {
            if exists|i: int, j: int, sample: Sample|
                is_fetched_sample(outcomes, i, j, sample) && sample.key == key {
                let (i, j, sample) = choose|i: int, j: int, sample: Sample|
                    is_fetched_sample(outcomes, i, j, sample) && sample.key == key;
                law_samples_are_union_of_fetched(outcomes, sample);
                let k = choose|k: int| 0 <= k < samples.len() && samples[k] == sample;
                assert(samples[k].key == key);
            }
        },
    }
}

/// A scrape in which every fetch failed exposes what a scrape without any
/// ready node exposes: no storage gauge at all.
pub proof fn law_all_failed_is_like_none_asked(outcomes: Seq<Option<NodeStatsView>>)
    requires
        forall|i: int| 0 <= i < outcomes.len() ==> outcomes[i] is None,
    ensures
        all_samples(outcomes) == Seq::<Sample>::empty(),
        collected(outcomes) == Gauges::empty(),
        collected(outcomes) == collected(Seq::empty()),
    decreases outcomes.len(),
{
    if outcomes.len() > 0 {
        law_all_failed_is_like_none_asked(outcomes.drop_last());
        assert(all_samples(outcomes) =~= Seq::<Sample>::empty());
    }
    assert(all_samples(Seq::<Option<NodeStatsView>>::empty()) =~= Seq::<Sample>::empty());
}

} // verus!
