//! The node directory: which of the listed nodes are asked for stats.

use vstd::prelude::*;

verus! {

/// One condition that a node reports of itself.
#[derive(Debug, Clone, PartialEq, Eq)]
pub struct NodeCondition {
    /// The kind of condition, such as `Ready`.
    pub type_: String,
    /// `True`, `False` or `Unknown`.
    pub status: String,
}

/// The status of a listed node.
#[derive(Debug, Clone, PartialEq, Eq)]
pub struct NodeStatus {
    pub conditions: Option<Vec<NodeCondition>>,
}

/// A node as the cluster lists it, as far as the directory reads it.
#[derive(Debug, Clone, PartialEq, Eq)]
pub struct NodeEntry {
    pub name: Option<String>,
    pub status: Option<NodeStatus>,
}

/// Why a listed node is passed over.
#[derive(Debug, Clone, Copy, PartialEq, Eq)]
pub enum NodeNameError {
    /// The node has no status.
    MissingStatus,
    /// The node's status has no condition list.
    MissingConditions,
    /// No condition of the node says that it is ready.
    NotReady,
    /// The node is ready but has no name.
    MissingName,
}

/// Whether a condition says that the node is ready: its type is `Ready` and
/// its status is exactly `True`.
pub open spec fn is_ready_condition(condition: NodeCondition) -> bool {
    condition.status@ == "True"@ && condition.type_@ == "Ready"@
}

/// Readiness as a function of the condition list alone: some condition of
/// the list says that the node is ready.
pub open spec fn is_ready(conditions: Seq<NodeCondition>) -> bool {
    exists|i: int| 0 <= i < conditions.len() && is_ready_condition(#[trigger] conditions[i])
}

/// The name under which a node is asked for stats, or why it is not asked.
pub open spec fn node_name(node: NodeEntry) -> Result<Seq<char>, NodeNameError> {
    match node.status {
        None => Err(NodeNameError::MissingStatus),
        Some(status) => match status.conditions {
            None => Err(NodeNameError::MissingConditions),
            Some(conditions) => if !is_ready(conditions@) {
                Err(NodeNameError::NotReady)
            } else {
                match node.name {
                    None => Err(NodeNameError::MissingName),
                    Some(name) => Ok(name@),
                }
            },
        },
    }
}

/// The names of the nodes that are asked, in the order of the listing.
pub open spec fn ready_names(nodes: Seq<NodeEntry>) -> Seq<Seq<char>>
    decreases nodes.len(),
{
    if nodes.len() == 0 {
        Seq::empty()
    } else {
        match node_name(nodes.last()) {
            Ok(name) => ready_names(nodes.drop_last()).push(name),
            Err(_) => ready_names(nodes.drop_last()),
        }
    }
}

/// The model of a name that [`get_node_name`] returns.
pub open spec fn name_view(result: Result<String, NodeNameError>) -> Result<
    Seq<char>,
    NodeNameError,
> {
    match result {
        Ok(name) => Ok(name@),
        Err(error) => Err(error),
    }
}

/// The model of a list of names.
pub open spec fn names_view(names: Seq<String>) -> Seq<Seq<char>> {
    Seq::new(names.len(), |i: int| names[i]@)
}

/// Whether some condition of the list says that the node is ready.
pub fn has_ready_condition(conditions: &Vec<NodeCondition>) -> (ready: bool)
    ensures
        ready == is_ready(conditions@),
{
    let ready_type = String::from_str("Ready");
    let true_status = String::from_str("True");
    let mut i: usize = 0;
    while i < conditions.len()
        invariant
            i <= conditions.len(),
            ready_type@ == "Ready"@,
            true_status@ == "True"@,
            forall|k: int| 0 <= k < i ==> !is_ready_condition(#[trigger] conditions@[k]),
        decreases conditions.len() - i,
    {
        if conditions[i].status == true_status && conditions[i].type_ == ready_type {
            return true;
        }
        i += 1;
    }
    false
}

/// Gets the node's name, if the node is to be asked for stats.
///
/// A node is asked when its condition list holds a `Ready` condition with
/// status `True` and it has a name. Every other node is passed over, with
/// the first reason that applies: no status, no condition list, not ready,
/// no name.
pub fn get_node_name(node: &NodeEntry) -> (result: Result<String, NodeNameError>)
    ensures
        name_view(result) == node_name(*node),
{
    match &node.status {
        None => Err(NodeNameError::MissingStatus),
        Some(status) => match &status.conditions {
            None => Err(NodeNameError::MissingConditions),
            Some(conditions) => {
                if !has_ready_condition(conditions) {
                    Err(NodeNameError::NotReady)
                } else {
                    match &node.name {
                        None => Err(NodeNameError::MissingName),
                        Some(name) => Ok(name.clone()),
                    }
                }
            },
        },
    }
}

/// The names of the ready nodes of a listing, in the listing's order. A
/// node that is passed over is skipped; it does not fail the listing.
pub fn ready_node_names(nodes: &Vec<NodeEntry>) -> (names: Vec<String>)
    ensures
        names_view(names@) == ready_names(nodes@),
{
    let mut names: Vec<String> = Vec::new();
    let mut i: usize = 0;
    assert(nodes@.take(0) =~= Seq::empty());
    assert(names_view(names@) =~= Seq::empty());
    while i < nodes.len()
        invariant
            i <= nodes.len(),
            names_view(names@) == ready_names(nodes@.take(i as int)),
        decreases nodes.len() - i,
    {
        let ghost before = names@;
        assert(nodes@.take(i as int + 1).drop_last() =~= nodes@.take(i as int));
        assert(nodes@.take(i as int + 1).last() == nodes@[i as int]);
        match get_node_name(&nodes[i]) {
            Ok(name) => {
                names.push(name);
                assert(names_view(names@) =~= names_view(before).push(name@));
            },
            Err(_) => {},
        }
        i += 1;
    }
    assert(nodes@.take(i as int) =~= nodes@);
    names
}

/// Whether a listed node reports that it is ready: it has a status with a
/// condition list, and the list says so.
pub open spec fn node_is_ready(node: NodeEntry) -> bool {
    match node.status {
        None => false,
        Some(status) => match status.conditions {
            None => false,
            Some(conditions) => is_ready(conditions@),
        },
    }
}

/// A node whose condition list lacks a `Ready` condition with status
/// `True`, or that has no condition list at all, is never asked, whatever
/// else it holds; a node that is ready is asked if and only if it has a
/// name.
pub proof fn law_unready_node_is_passed_over(node: NodeEntry)
    ensures
        !node_is_ready(node) ==> node_name(node) is Err,
        node_is_ready(node) ==> (node_name(node) is Ok <==> node.name is Some),
{
}

/// The names that are asked are exactly those of the listed nodes that are
/// ready and named.
pub proof fn law_only_ready_nodes_are_asked(nodes: Seq<NodeEntry>, name: Seq<char>)
    ensures
        ready_names(nodes).contains(name) <==> exists|i: int|
            0 <= i < nodes.len() && node_is_ready(nodes[i]) && node_name(#[trigger] nodes[i])
                == Ok::<Seq<char>, NodeNameError>(name),
    decreases nodes.len(),
{
    if nodes.len() == 0 {
    } else {
        let front = nodes.drop_last();
        law_only_ready_nodes_are_asked(front, name);
        let names = ready_names(nodes);
        let wanted = Ok::<Seq<char>, NodeNameError>(name);
        if names.contains(name) {
            let k = choose|k: int| 0 <= k < names.len() && names[k] == name;
            if k < ready_names(front).len() {
                assert(ready_names(front)[k] == name);
                let i = choose|i: int|
                    0 <= i < front.len() && node_is_ready(front[i]) && node_name(
                        #[trigger] front[i],
                    ) == wanted;
                assert(node_name(nodes[i]) == wanted);
            } else {
                assert(node_name(nodes[nodes.len() - 1]) == wanted);
            }
        }
        if exists|i: int|
            0 <= i < nodes.len() && node_is_ready(nodes[i]) && node_name(#[trigger] nodes[i])
                == wanted {
            let i = choose|i: int|
                0 <= i < nodes.len() && node_is_ready(nodes[i]) && node_name(#[trigger] nodes[i])
                    == wanted;
            if i < front.len() {
                assert(node_name(front[i]) == wanted);
                let k = choose|k: int|
                    0 <= k < ready_names(front).len() && ready_names(front)[k] == name;
                assert(names[k] == name);
            } else {
                assert(names[names.len() - 1] == name);
            }
        }
    }
}

} // verus!
