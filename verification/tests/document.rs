use kube_stats_exporter::document::{
    decode_integer, decode_node_stats, decode_object, decode_pod, decode_pod_ref, decode_pods,
    decode_storage, decode_text, parse_node_stats,
};
use kube_stats_exporter::json::{find_member, parse_json, JsonValue};
use kube_stats_exporter::stats::{
    DocumentField, EphemeralStorage, NodeStats, NodeSummary, ParseError, Pod, PodRef,
};

fn text(value: &str) -> JsonValue {
    JsonValue::Text(value.to_string())
}

fn object(members: Vec<(&str, JsonValue)>) -> JsonValue {
    JsonValue::Object(members.into_iter().map(|(k, v)| (k.to_string(), v)).collect())
}

fn members(members: Vec<(&str, JsonValue)>) -> Vec<(String, JsonValue)> {
    members.into_iter().map(|(k, v)| (k.to_string(), v)).collect()
}

fn pod(name: &str, namespace: &str, uid: &str, available: i64, capacity: i64, used: i64) -> Pod {
    Pod {
        pod_ref: PodRef {
            name: name.to_string(),
            namespace: namespace.to_string(),
            uid: uid.to_string(),
        },
        ephemeral_storage: EphemeralStorage {
            available_bytes: available,
            capacity_bytes: capacity,
            used_bytes: used,
        },
    }
}

const FULL: &str = r#"{
  "node": {"nodeName": "node-a", "cpu": {"usageNanoCores": 12}},
  "pods": [
    {
      "podRef": {"name": "web-0", "namespace": "default", "uid": "uid-1"},
      "startTime": "2024-01-01T00:00:00Z",
      "ephemeral-storage": {"availableBytes": 900, "capacityBytes": 1000, "usedBytes": 100}
    },
    {
      "podRef": {"name": "db-0", "namespace": "data", "uid": "uid-2"},
      "ephemeral-storage": {"availableBytes": 5, "capacityBytes": 7}
    }
  ]
}"#;

#[test]
fn full_document_is_read() {
    let stats = parse_node_stats(FULL).unwrap();
    assert_eq!(
        stats,
        NodeStats {
            node: NodeSummary { name: "node-a".to_string() },
            pods: vec![
                pod("web-0", "default", "uid-1", 900, 1000, 100),
                pod("db-0", "data", "uid-2", 5, 7, 0),
            ],
        }
    );
}

#[test]
fn used_bytes_default_to_zero() {
    let body = r#"{"node":{"nodeName":"n"},"pods":[{"podRef":{"name":"p","namespace":"ns","uid":"u"},"ephemeral-storage":{"availableBytes":1,"capacityBytes":2}}]}"#;
    let stats = parse_node_stats(body).unwrap();
    assert_eq!(stats.pods[0].ephemeral_storage.used_bytes, 0);
    assert_eq!(stats.pods[0].ephemeral_storage.available_bytes, 1);
    assert_eq!(stats.pods[0].ephemeral_storage.capacity_bytes, 2);
}

#[test]
fn missing_available_bytes_fails_the_document() {
    let body = r#"{"node":{"nodeName":"n"},"pods":[{"podRef":{"name":"p","namespace":"ns","uid":"u"},"ephemeral-storage":{"capacityBytes":2,"usedBytes":3}}]}"#;
    assert_eq!(
        parse_node_stats(body),
        Err(ParseError::MissingField(DocumentField::AvailableBytes))
    );
}

#[test]
fn missing_capacity_bytes_fails_the_document() {
    let body = r#"{"node":{"nodeName":"n"},"pods":[{"podRef":{"name":"p","namespace":"ns","uid":"u"},"ephemeral-storage":{"availableBytes":2,"usedBytes":3}}]}"#;
    assert_eq!(
        parse_node_stats(body),
        Err(ParseError::MissingField(DocumentField::CapacityBytes))
    );
}

#[test]
fn one_bad_pod_fails_the_whole_document() {
    let body = r#"{"node":{"nodeName":"n"},"pods":[
        {"podRef":{"name":"p","namespace":"ns","uid":"u"},"ephemeral-storage":{"availableBytes":1,"capacityBytes":2}},
        {"podRef":{"name":"q","namespace":"ns","uid":"v"},"ephemeral-storage":{"usedBytes":2}}
    ]}"#;
    assert_eq!(
        parse_node_stats(body),
        Err(ParseError::MissingField(DocumentField::AvailableBytes))
    );
}

#[test]
fn negative_and_zero_values_pass_through() {
    let body = r#"{"node":{"nodeName":"n"},"pods":[{"podRef":{"name":"p","namespace":"ns","uid":"u"},"ephemeral-storage":{"availableBytes":-1,"capacityBytes":0,"usedBytes":-9223372036854775808}}]}"#;
    let stats = parse_node_stats(body).unwrap();
    assert_eq!(
        stats.pods[0].ephemeral_storage,
        EphemeralStorage { available_bytes: -1, capacity_bytes: 0, used_bytes: i64::MIN }
    );
}

#[test]
fn largest_value_passes_through() {
    let body = r#"{"node":{"nodeName":"n"},"pods":[{"podRef":{"name":"p","namespace":"ns","uid":"u"},"ephemeral-storage":{"availableBytes":9223372036854775807,"capacityBytes":1}}]}"#;
    let stats = parse_node_stats(body).unwrap();
    assert_eq!(stats.pods[0].ephemeral_storage.available_bytes, i64::MAX);
}

#[test]
fn value_beyond_i64_is_invalid() {
    let body = r#"{"node":{"nodeName":"n"},"pods":[{"podRef":{"name":"p","namespace":"ns","uid":"u"},"ephemeral-storage":{"availableBytes":9223372036854775808,"capacityBytes":1}}]}"#;
    assert_eq!(
        parse_node_stats(body),
        Err(ParseError::InvalidField(DocumentField::AvailableBytes))
    );
}

#[test]
fn fractional_value_is_invalid() {
    let body = r#"{"node":{"nodeName":"n"},"pods":[{"podRef":{"name":"p","namespace":"ns","uid":"u"},"ephemeral-storage":{"availableBytes":1,"capacityBytes":1.5}}]}"#;
    assert_eq!(
        parse_node_stats(body),
        Err(ParseError::InvalidField(DocumentField::CapacityBytes))
    );
}

#[test]
fn used_bytes_of_wrong_kind_are_invalid() {
    for used in ["null", "\"3\"", "3.0", "true", "[]", "{}"] {
        let body = format!(
            r#"{{"node":{{"nodeName":"n"}},"pods":[{{"podRef":{{"name":"p","namespace":"ns","uid":"u"}},"ephemeral-storage":{{"availableBytes":1,"capacityBytes":1,"usedBytes":{}}}}}]}}"#,
            used
        );
        assert_eq!(
            parse_node_stats(&body),
            Err(ParseError::InvalidField(DocumentField::UsedBytes))
        );
    }
}

#[test]
fn text_that_is_not_json_is_a_syntax_error() {
    for body in ["", "not json", "{", "{\"node\":", "Unauthorized", "{} trailing"] {
        assert_eq!(parse_node_stats(body), Err(ParseError::Syntax));
    }
}

#[test]
fn document_must_be_an_object() {
    for body in ["null", "[]", "1", "\"text\"", "true"] {
        assert_eq!(
            parse_node_stats(body),
            Err(ParseError::InvalidField(DocumentField::Document))
        );
    }
}

#[test]
fn node_is_required() {
    assert_eq!(
        parse_node_stats(r#"{"pods":[]}"#),
        Err(ParseError::MissingField(DocumentField::Node))
    );
    assert_eq!(
        parse_node_stats(r#"{"node":"n","pods":[]}"#),
        Err(ParseError::InvalidField(DocumentField::Node))
    );
}

#[test]
fn node_name_is_required() {
    assert_eq!(
        parse_node_stats(r#"{"node":{},"pods":[]}"#),
        Err(ParseError::MissingField(DocumentField::NodeName))
    );
    assert_eq!(
        parse_node_stats(r#"{"node":{"nodeName":7},"pods":[]}"#),
        Err(ParseError::InvalidField(DocumentField::NodeName))
    );
}

#[test]
fn pods_are_required() {
    assert_eq!(
        parse_node_stats(r#"{"node":{"nodeName":"n"}}"#),
        Err(ParseError::MissingField(DocumentField::Pods))
    );
    assert_eq!(
        parse_node_stats(r#"{"node":{"nodeName":"n"},"pods":{}}"#),
        Err(ParseError::InvalidField(DocumentField::Pods))
    );
    assert_eq!(
        parse_node_stats(r#"{"node":{"nodeName":"n"},"pods":null}"#),
        Err(ParseError::InvalidField(DocumentField::Pods))
    );
}

#[test]
fn node_is_read_before_pods() {
    assert_eq!(parse_node_stats("{}"), Err(ParseError::MissingField(DocumentField::Node)));
    assert_eq!(
        parse_node_stats(r#"{"pods":[1],"node":{}}"#),
        Err(ParseError::MissingField(DocumentField::NodeName))
    );
}

#[test]
fn node_without_pods_is_a_document() {
    let stats = parse_node_stats(r#"{"node":{"nodeName":"n"},"pods":[]}"#).unwrap();
    assert_eq!(stats, NodeStats { node: NodeSummary { name: "n".to_string() }, pods: vec![] });
}

#[test]
fn pod_must_be_an_object() {
    assert_eq!(
        parse_node_stats(r#"{"node":{"nodeName":"n"},"pods":[1]}"#),
        Err(ParseError::InvalidField(DocumentField::Pod))
    );
}

#[test]
fn pod_ref_fields_are_required() {
    let storage = r#""ephemeral-storage":{"availableBytes":1,"capacityBytes":1}"#;
    let cases = [
        (format!(r#"{{{}}}"#, storage), ParseError::MissingField(DocumentField::PodRef)),
        (
            format!(r#"{{"podRef":[],{}}}"#, storage),
            ParseError::InvalidField(DocumentField::PodRef),
        ),
        (
            format!(r#"{{"podRef":{{"namespace":"ns","uid":"u"}},{}}}"#, storage),
            ParseError::MissingField(DocumentField::PodName),
        ),
        (
            format!(r#"{{"podRef":{{"name":"p","uid":"u"}},{}}}"#, storage),
            ParseError::MissingField(DocumentField::PodNamespace),
        ),
        (
            format!(r#"{{"podRef":{{"name":"p","namespace":"ns"}},{}}}"#, storage),
            ParseError::MissingField(DocumentField::PodUid),
        ),
        (
            format!(r#"{{"podRef":{{"name":"p","namespace":null,"uid":"u"}},{}}}"#, storage),
            ParseError::InvalidField(DocumentField::PodNamespace),
        ),
        (
            format!(r#"{{"podRef":{{"name":1,"namespace":"ns","uid":"u"}},{}}}"#, storage),
            ParseError::InvalidField(DocumentField::PodName),
        ),
        (
            format!(r#"{{"podRef":{{"name":"p","namespace":"ns","uid":["u"]}},{}}}"#, storage),
            ParseError::InvalidField(DocumentField::PodUid),
        ),
    ];
    for (pod, error) in cases {
        let body = format!(r#"{{"node":{{"nodeName":"n"}},"pods":[{}]}}"#, pod);
        assert_eq!(parse_node_stats(&body), Err(error));
    }
}

#[test]
fn ephemeral_storage_is_required() {
    let body = r#"{"node":{"nodeName":"n"},"pods":[{"podRef":{"name":"p","namespace":"ns","uid":"u"}}]}"#;
    assert_eq!(
        parse_node_stats(body),
        Err(ParseError::MissingField(DocumentField::EphemeralStorage))
    );
    let body = r#"{"node":{"nodeName":"n"},"pods":[{"podRef":{"name":"p","namespace":"ns","uid":"u"},"ephemeral-storage":3}]}"#;
    assert_eq!(
        parse_node_stats(body),
        Err(ParseError::InvalidField(DocumentField::EphemeralStorage))
    );
}

#[test]
fn pod_ref_is_read_before_storage() {
    let body = r#"{"node":{"nodeName":"n"},"pods":[{"podRef":{},"ephemeral-storage":{}}]}"#;
    assert_eq!(parse_node_stats(body), Err(ParseError::MissingField(DocumentField::PodName)));
}

#[test]
fn first_failing_pod_decides_the_error() {
    let body = r#"{"node":{"nodeName":"n"},"pods":[{"podRef":{"name":"p","namespace":"ns","uid":"u"},"ephemeral-storage":{"availableBytes":1}}, 5]}"#;
    assert_eq!(
        parse_node_stats(body),
        Err(ParseError::MissingField(DocumentField::CapacityBytes))
    );
}

#[test]
fn text_is_unescaped_by_the_parser() {
    let body = r#"{"node":{"nodeName":"né\"1"},"pods":[]}"#;
    assert_eq!(parse_node_stats(body).unwrap().node.name, "n\u{e9}\"1");
}

#[test]
fn parser_turns_text_into_values() {
    assert_eq!(parse_json("null"), Some(JsonValue::Null));
    assert_eq!(parse_json(" true "), Some(JsonValue::Bool(true)));
    assert_eq!(parse_json("-12"), Some(JsonValue::Integer(-12)));
    assert_eq!(parse_json("18446744073709551615"), Some(JsonValue::OtherNumber));
    assert_eq!(parse_json("1e3"), Some(JsonValue::OtherNumber));
    assert_eq!(parse_json("\"a\\nb\""), Some(text("a\nb")));
    assert_eq!(
        parse_json("[1, [\"x\"], {}]"),
        Some(JsonValue::Array(vec![
            JsonValue::Integer(1),
            JsonValue::Array(vec![text("x")]),
            JsonValue::Object(vec![]),
        ]))
    );
    assert_eq!(
        parse_json(r#"{"a": 1, "b": {"c": null}}"#),
        Some(object(vec![
            ("a", JsonValue::Integer(1)),
            ("b", object(vec![("c", JsonValue::Null)])),
        ]))
    );
    assert_eq!(parse_json("{\"a\": }"), None);
    assert_eq!(parse_json("nul"), None);
}

#[test]
fn parser_keeps_each_key_once() {
    let value = parse_json(r#"{"k": 1, "k": 2}"#).unwrap();
    match value {
        JsonValue::Object(found) => {
            assert_eq!(found.len(), 1);
            assert_eq!(found[0].0, "k");
        }
        _ => panic!("an object was expected"),
    }
}

#[test]
fn first_member_under_a_key_is_found() {
    let list = members(vec![
        ("a", JsonValue::Integer(1)),
        ("b", JsonValue::Integer(2)),
        ("a", JsonValue::Integer(3)),
    ]);
    assert_eq!(find_member(&list, "a"), Some(&JsonValue::Integer(1)));
    assert_eq!(find_member(&list, "b"), Some(&JsonValue::Integer(2)));
    assert_eq!(find_member(&list, "c"), None);
    assert_eq!(find_member(&list, ""), None);
    assert_eq!(find_member(&vec![], "a"), None);
}

#[test]
fn members_are_decoded_by_kind() {
    let inner = members(vec![("x", JsonValue::Null)]);
    let list = members(vec![
        ("text", text("t")),
        ("number", JsonValue::Integer(4)),
        ("object", object(vec![("x", JsonValue::Null)])),
    ]);
    assert_eq!(decode_text(&list, "text", DocumentField::PodName), Ok("t".to_string()));
    assert_eq!(
        decode_text(&list, "number", DocumentField::PodName),
        Err(ParseError::InvalidField(DocumentField::PodName))
    );
    assert_eq!(
        decode_text(&list, "absent", DocumentField::PodUid),
        Err(ParseError::MissingField(DocumentField::PodUid))
    );
    assert_eq!(decode_integer(&list, "number", DocumentField::UsedBytes), Ok(4));
    assert_eq!(
        decode_integer(&list, "text", DocumentField::UsedBytes),
        Err(ParseError::InvalidField(DocumentField::UsedBytes))
    );
    assert_eq!(
        decode_integer(&list, "absent", DocumentField::CapacityBytes),
        Err(ParseError::MissingField(DocumentField::CapacityBytes))
    );
    assert_eq!(decode_object(&list, "object", DocumentField::Node), Ok(&inner));
    assert_eq!(
        decode_object(&list, "text", DocumentField::Node),
        Err(ParseError::InvalidField(DocumentField::Node))
    );
    assert_eq!(
        decode_object(&list, "absent", DocumentField::Node),
        Err(ParseError::MissingField(DocumentField::Node))
    );
}

#[test]
fn storage_is_decoded_from_members() {
    let full = members(vec![
        ("usedBytes", JsonValue::Integer(100)),
        ("availableBytes", JsonValue::Integer(900)),
        ("capacityBytes", JsonValue::Integer(1000)),
    ]);
    assert_eq!(
        decode_storage(&full),
        Ok(EphemeralStorage { available_bytes: 900, capacity_bytes: 1000, used_bytes: 100 })
    );
    let without_used = members(vec![
        ("availableBytes", JsonValue::Integer(900)),
        ("capacityBytes", JsonValue::Integer(1000)),
    ]);
    assert_eq!(
        decode_storage(&without_used),
        Ok(EphemeralStorage { available_bytes: 900, capacity_bytes: 1000, used_bytes: 0 })
    );
    assert_eq!(
        decode_storage(&vec![]),
        Err(ParseError::MissingField(DocumentField::AvailableBytes))
    );
    let wrong = members(vec![
        ("availableBytes", JsonValue::OtherNumber),
        ("capacityBytes", JsonValue::Integer(1000)),
    ]);
    assert_eq!(
        decode_storage(&wrong),
        Err(ParseError::InvalidField(DocumentField::AvailableBytes))
    );
}

#[test]
fn pod_ref_is_decoded_from_members() {
    let list = members(vec![("uid", text("u")), ("name", text("p")), ("namespace", text("ns"))]);
    assert_eq!(
        decode_pod_ref(&list),
        Ok(PodRef { name: "p".to_string(), namespace: "ns".to_string(), uid: "u".to_string() })
    );
}

#[test]
fn document_is_decoded_from_a_value() {
    let one = object(vec![
        (
            "podRef",
            object(vec![("name", text("p")), ("namespace", text("ns")), ("uid", text("u"))]),
        ),
        (
            "ephemeral-storage",
            object(vec![
                ("availableBytes", JsonValue::Integer(900)),
                ("capacityBytes", JsonValue::Integer(1000)),
                ("usedBytes", JsonValue::Integer(100)),
            ]),
        ),
    ]);
    assert_eq!(decode_pod(&one), Ok(pod("p", "ns", "u", 900, 1000, 100)));
    assert_eq!(decode_pods(&vec![]), Ok(vec![]));
    assert_eq!(
        decode_pods(&vec![JsonValue::Null]),
        Err(ParseError::InvalidField(DocumentField::Pod))
    );
    let document = object(vec![
        ("pods", JsonValue::Array(vec![one])),
        ("node", object(vec![("nodeName", text("node-a"))])),
    ]);
    assert_eq!(
        decode_node_stats(&document),
        Ok(NodeStats {
            node: NodeSummary { name: "node-a".to_string() },
            pods: vec![pod("p", "ns", "u", 900, 1000, 100)],
        })
    );
    assert_eq!(
        decode_node_stats(&JsonValue::Array(vec![])),
        Err(ParseError::InvalidField(DocumentField::Document))
    );
}
