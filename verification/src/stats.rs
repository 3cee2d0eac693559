//! The per-node stats document: what one node reports about the ephemeral
//! storage of its pods.

use crate::target::RequestError;
use vstd::prelude::*;

verus! {

/// The node that produced a stats document.
#[derive(Debug, Clone, PartialEq, Eq)]
pub struct NodeSummary {
    pub name: String,
}

/// The identity of a pod: its name, namespace and UID.
#[derive(Debug, Clone, PartialEq, Eq)]
pub struct PodRef {
    pub name: String,
    pub namespace: String,
    pub uid: String,
}

/// Ephemeral-storage figures of one pod, in bytes. The values are passed
/// through as the node reported them.
#[derive(Debug, Clone, Copy, PartialEq, Eq)]
pub struct EphemeralStorage {
    pub available_bytes: i64,
    pub capacity_bytes: i64,
    pub used_bytes: i64,
}

/// A single pod: its identity and its ephemeral-storage figures.
#[derive(Debug, Clone, PartialEq, Eq)]
pub struct Pod {
    pub pod_ref: PodRef,
    pub ephemeral_storage: EphemeralStorage,
}

/// Stats for a single node: the reporting node and its pods, in the order
/// in which the node listed them.
#[derive(Debug, Clone, PartialEq, Eq)]
pub struct NodeStats {
    pub node: NodeSummary,
    pub pods: Vec<Pod>,
}

/// A place in a stats document.
#[derive(Debug, Clone, Copy, PartialEq, Eq)]
pub enum DocumentField {
    /// The document as a whole.
    Document,
    /// `node`.
    Node,
    /// `node.nodeName`.
    NodeName,
    /// `pods`.
    Pods,
    /// An element of `pods`.
    Pod,
    /// `podRef` of a pod.
    PodRef,
    /// `podRef.name` of a pod.
    PodName,
    /// `podRef.namespace` of a pod.
    PodNamespace,
    /// `podRef.uid` of a pod.
    PodUid,
    /// `ephemeral-storage` of a pod.
    EphemeralStorage,
    /// `ephemeral-storage.availableBytes` of a pod.
    AvailableBytes,
    /// `ephemeral-storage.capacityBytes` of a pod.
    CapacityBytes,
    /// `ephemeral-storage.usedBytes` of a pod.
    UsedBytes,
}

/// Why a response body is no stats document.
#[derive(Debug, Clone, Copy, PartialEq, Eq)]
pub enum ParseError {
    /// The body is not JSON.
    Syntax,
    /// A required field is absent.
    MissingField(DocumentField),
    /// A field is present but holds a value of the wrong kind.
    InvalidField(DocumentField),
}

/// Why no response came back from a node's stats endpoint.
#[derive(Debug, Clone, Copy, PartialEq, Eq)]
pub enum FetchError {
    /// No request could be formed.
    Request(RequestError),
    /// The request was sent, and the transport failed.
    Transport,
}

/// Why a node contributes nothing to a scrape.
#[derive(Debug, Clone, Copy, PartialEq, Eq)]
pub enum NodeFailure {
    /// The node's stats endpoint could not be reached.
    Fetch(FetchError),
    /// The node answered, but not with a stats document.
    Parse(ParseError),
}

/// Mathematical model of a [`PodRef`].
pub struct PodRefView {
    pub name: Seq<char>,
    pub namespace: Seq<char>,
    pub uid: Seq<char>,
}

/// Mathematical model of a [`Pod`].
pub struct PodView {
    pub pod_ref: PodRefView,
    pub ephemeral_storage: EphemeralStorage,
}

/// Mathematical model of a [`NodeStats`].
pub struct NodeStatsView {
    pub node_name: Seq<char>,
    pub pods: Seq<PodView>,
}

impl View for PodRef {
    type V = PodRefView;

    open spec fn view(&self) -> PodRefView {
        PodRefView { name: self.name@, namespace: self.namespace@, uid: self.uid@ }
    }
}

impl View for Pod {
    type V = PodView;

    open spec fn view(&self) -> PodView {
        PodView { pod_ref: self.pod_ref@, ephemeral_storage: self.ephemeral_storage }
    }
}

impl View for NodeStats {
    type V = NodeStatsView;

    open spec fn view(&self) -> NodeStatsView {
        NodeStatsView {
            node_name: self.node.name@,
            pods: Seq::new(self.pods@.len(), |i: int| self.pods@[i]@),
        }
    }
}

} // verus!
