use kube_stats_exporter::nodes::{
    get_node_name, has_ready_condition, ready_node_names, NodeCondition, NodeEntry, NodeNameError,
    NodeStatus,
};

fn condition(type_: &str, status: &str) -> NodeCondition {
    NodeCondition { type_: type_.to_string(), status: status.to_string() }
}

fn node(name: Option<&str>, conditions: Option<Vec<NodeCondition>>) -> NodeEntry {
    NodeEntry { name: name.map(|n| n.to_string()), status: Some(NodeStatus { conditions }) }
}

#[test]
fn ready_node_yields_its_name() {
    let entry = node(Some("node-a"), Some(vec![condition("Ready", "True")]));
    assert_eq!(get_node_name(&entry), Ok("node-a".to_string()));
}

#[test]
fn ready_condition_is_found_among_others() {
    let entry = node(
        Some("node-a"),
        Some(vec![
            condition("MemoryPressure", "False"),
            condition("DiskPressure", "True"),
            condition("Ready", "True"),
            condition("PIDPressure", "False"),
        ]),
    );
    assert_eq!(get_node_name(&entry), Ok("node-a".to_string()));
}

#[test]
fn node_without_status_is_passed_over() {
    let entry = NodeEntry { name: Some("node-a".to_string()), status: None };
    assert_eq!(get_node_name(&entry), Err(NodeNameError::MissingStatus));
}

#[test]
fn node_without_conditions_is_passed_over() {
    let entry = node(Some("node-a"), None);
    assert_eq!(get_node_name(&entry), Err(NodeNameError::MissingConditions));
}

#[test]
fn node_with_empty_conditions_is_not_ready() {
    let entry = node(Some("node-a"), Some(vec![]));
    assert_eq!(get_node_name(&entry), Err(NodeNameError::NotReady));
}

#[test]
fn ready_false_is_not_ready() {
    let entry = node(Some("node-a"), Some(vec![condition("Ready", "False")]));
    assert_eq!(get_node_name(&entry), Err(NodeNameError::NotReady));
}

#[test]
fn ready_unknown_is_not_ready() {
    let entry = node(Some("node-a"), Some(vec![condition("Ready", "Unknown")]));
    assert_eq!(get_node_name(&entry), Err(NodeNameError::NotReady));
}

#[test]
fn status_must_be_exactly_true() {
    for status in ["true", "TRUE", "True ", " True", ""] {
        let entry = node(Some("node-a"), Some(vec![condition("Ready", status)]));
        assert_eq!(get_node_name(&entry), Err(NodeNameError::NotReady));
    }
}

#[test]
fn type_must_be_exactly_ready() {
    for type_ in ["ready", "READY", "Ready ", "NotReady", ""] {
        let entry = node(Some("node-a"), Some(vec![condition(type_, "True")]));
        assert_eq!(get_node_name(&entry), Err(NodeNameError::NotReady));
    }
}

#[test]
fn true_and_ready_must_be_one_condition() {
    let entry = node(
        Some("node-a"),
        Some(vec![condition("Ready", "False"), condition("DiskPressure", "True")]),
    );
    assert_eq!(get_node_name(&entry), Err(NodeNameError::NotReady));
}

#[test]
fn ready_node_without_name_is_passed_over() {
    let entry = node(None, Some(vec![condition("Ready", "True")]));
    assert_eq!(get_node_name(&entry), Err(NodeNameError::MissingName));
}

#[test]
fn unready_node_without_name_is_not_ready() {
    let entry = node(None, Some(vec![condition("Ready", "False")]));
    assert_eq!(get_node_name(&entry), Err(NodeNameError::NotReady));
}

#[test]
fn has_ready_condition_reads_the_list_only() {
    assert!(!has_ready_condition(&vec![]));
    assert!(has_ready_condition(&vec![condition("Ready", "True")]));
    assert!(!has_ready_condition(&vec![condition("Ready", "False")]));
    assert!(has_ready_condition(&vec![condition("Ready", "False"), condition("Ready", "True")]));
}

#[test]
fn listing_keeps_ready_nodes_in_order() {
    let nodes = vec![
        node(Some("a"), Some(vec![condition("Ready", "True")])),
        node(Some("b"), Some(vec![condition("Ready", "False")])),
        NodeEntry { name: Some("c".to_string()), status: None },
        node(None, Some(vec![condition("Ready", "True")])),
        node(Some("e"), Some(vec![condition("Ready", "True")])),
        node(Some("f"), None),
    ];
    assert_eq!(ready_node_names(&nodes), vec!["a".to_string(), "e".to_string()]);
}

#[test]
fn empty_listing_has_no_ready_node() {
    assert_eq!(ready_node_names(&vec![]), Vec::<String>::new());
}

#[test]
fn listing_without_ready_node_is_empty() {
    let nodes = vec![
        node(Some("a"), Some(vec![condition("Ready", "Unknown")])),
        node(Some("b"), Some(vec![])),
    ];
    assert_eq!(ready_node_names(&nodes), Vec::<String>::new());
}

#[test]
fn same_name_listed_twice_is_asked_twice() {
    let nodes = vec![
        node(Some("a"), Some(vec![condition("Ready", "True")])),
        node(Some("a"), Some(vec![condition("Ready", "True")])),
    ];
    assert_eq!(ready_node_names(&nodes), vec!["a".to_string(), "a".to_string()]);
}
