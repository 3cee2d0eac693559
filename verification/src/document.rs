//! Reading a stats document out of a JSON value.
//!
//! A document is an object with `node.nodeName` and `pods[]`; each pod has
//! `podRef.{name,namespace,uid}` and
//! `ephemeral-storage.{availableBytes,capacityBytes,usedBytes}`. Every
//! field is required but `usedBytes`, which counts as 0 where it is
//! absent. Members that the document does not name are passed over.

use crate::json::{
    find_member, items_view, json_document, lemma_array_view, lemma_object_view, member,
    members_view, parse_json, Json, JsonMember, JsonValue,
};
use crate::stats::{
    DocumentField, EphemeralStorage, NodeStats, NodeStatsView, NodeSummary, ParseError, Pod,
    PodRef, PodRefView, PodView,
};
use vstd::prelude::*;

verus! {

/// The text under `key`, which must be there and be a string.
pub open spec fn text_field(
    members: Seq<JsonMember>,
    key: Seq<char>,
    field: DocumentField,
) -> Result<Seq<char>, ParseError> {
    match member(members, key) {
        None => Err(ParseError::MissingField(field)),
        Some(Json::Text(text)) => Ok(text),
        Some(_) => Err(ParseError::InvalidField(field)),
    }
}

/// The integer that a value holds, if it is one within the range of
/// `i64`.
pub open spec fn integer_of(value: Json) -> Option<i64> {
    match value {
        Json::Integer(number) => if i64::MIN <= number <= i64::MAX {
            Some(number as i64)
        } else {
            None
        },
        _ => None,
    }
}

/// The integer under `key`, which must be there and be an integer within
/// the range of `i64`.
pub open spec fn integer_field(
    members: Seq<JsonMember>,
    key: Seq<char>,
    field: DocumentField,
) -> Result<i64, ParseError> {
    match member(members, key) {
        None => Err(ParseError::MissingField(field)),
        Some(value) => match integer_of(value) {
            Some(number) => Ok(number),
            None => Err(ParseError::InvalidField(field)),
        },
    }
}

/// The members of the object under `key`, which must be there and be an
/// object.
pub open spec fn object_field(
    members: Seq<JsonMember>,
    key: Seq<char>,
    field: DocumentField,
) -> Result<Seq<JsonMember>, ParseError> {
    match member(members, key) {
        None => Err(ParseError::MissingField(field)),
        Some(Json::Object(inner)) => Ok(inner),
        Some(_) => Err(ParseError::InvalidField(field)),
    }
}

/// The used bytes of a pod: the integer under `usedBytes`, and 0 where
/// there is no such member.
pub open spec fn used_bytes_of(members: Seq<JsonMember>) -> Result<i64, ParseError> {
    match member(members, "usedBytes"@) {
        None => Ok(0i64),
        Some(value) => match integer_of(value) {
            Some(number) => Ok(number),
            None => Err(ParseError::InvalidField(DocumentField::UsedBytes)),
        },
    }
}

/// The figures that an `ephemeral-storage` object holds.
pub open spec fn storage_of(members: Seq<JsonMember>) -> Result<
    EphemeralStorage,
    ParseError,
> {
    match integer_field(members, "availableBytes"@, DocumentField::AvailableBytes) {
        Err(error) => Err(error),
        Ok(available_bytes) => match integer_field(
            members,
            "capacityBytes"@,
            DocumentField::CapacityBytes,
        ) {
            Err(error) => Err(error),
            Ok(capacity_bytes) => match used_bytes_of(members) {
                Err(error) => Err(error),
                Ok(used_bytes) => Ok(EphemeralStorage { available_bytes, capacity_bytes, used_bytes }),
            },
        },
    }
}

/// The identity that a `podRef` object holds.
pub open spec fn pod_ref_of(members: Seq<JsonMember>) -> Result<PodRefView, ParseError> {
    match text_field(members, "name"@, DocumentField::PodName) {
        Err(error) => Err(error),
        Ok(name) => match text_field(members, "namespace"@, DocumentField::PodNamespace) {
            Err(error) => Err(error),
            Ok(namespace) => match text_field(members, "uid"@, DocumentField::PodUid) {
                Err(error) => Err(error),
                Ok(uid) => Ok(PodRefView { name, namespace, uid }),
            },
        },
    }
}

/// The pod that an element of `pods` holds.
pub open spec fn pod_of(value: Json) -> Result<PodView, ParseError> {
    match value {
        Json::Object(members) => match object_field(members, "podRef"@, DocumentField::PodRef) {
            Err(error) => Err(error),
            Ok(reference) => match pod_ref_of(reference) {
                Err(error) => Err(error),
                Ok(pod_ref) => match object_field(
                    members,
                    "ephemeral-storage"@,
                    DocumentField::EphemeralStorage,
                ) {
                    Err(error) => Err(error),
                    Ok(storage) => match storage_of(storage) {
                        Err(error) => Err(error),
                        Ok(ephemeral_storage) => Ok(PodView { pod_ref, ephemeral_storage }),
                    },
                },
            },
        },
        _ => Err(ParseError::InvalidField(DocumentField::Pod)),
    }
}

/// The pods that the elements of `pods` hold, in their order; the error of
/// the first element that holds none.
pub open spec fn pods_of(items: Seq<Json>) -> Result<Seq<PodView>, ParseError>
    decreases items.len(),
{
    if items.len() == 0 {
        Ok(Seq::empty())
    } else {
        match pod_of(items[0]) {
            Err(error) => Err(error),
            Ok(pod) => match pods_of(items.skip(1)) {
                Err(error) => Err(error),
                Ok(rest) => Ok(seq![pod] + rest),
            },
        }
    }
}

/// The elements of the `pods` member, which must be there and be an array.
pub open spec fn pod_items(members: Seq<JsonMember>) -> Result<Seq<Json>, ParseError> {
    match member(members, "pods"@) {
        None => Err(ParseError::MissingField(DocumentField::Pods)),
        Some(Json::Array(items)) => Ok(items),
        Some(_) => Err(ParseError::InvalidField(DocumentField::Pods)),
    }
}

/// The stats document that a JSON value holds. The node is read first,
/// then the pods in their order; the first thing that is missing or of the
/// wrong kind is the error.
pub open spec fn node_stats_of(document: Json) -> Result<NodeStatsView, ParseError> {
    match document {
        Json::Object(members) => match object_field(members, "node"@, DocumentField::Node) {
            Err(error) => Err(error),
            Ok(node) => match text_field(node, "nodeName"@, DocumentField::NodeName) {
                Err(error) => Err(error),
                Ok(node_name) => match pod_items(members) {
                    Err(error) => Err(error),
                    Ok(items) => match pods_of(items) {
                        Err(error) => Err(error),
                        Ok(pods) => Ok(NodeStatsView { node_name, pods }),
                    },
                },
            },
        },
        _ => Err(ParseError::InvalidField(DocumentField::Document)),
    }
}

/// The stats document that a response body holds.
pub open spec fn body_stats(body: Seq<char>) -> Result<NodeStatsView, ParseError> {
    match json_document(body) {
        None => Err(ParseError::Syntax),
        Some(document) => node_stats_of(document),
    }
}

/// The model of a decoded text.
pub open spec fn text_view(result: Result<String, ParseError>) -> Result<Seq<char>, ParseError> {
    match result {
        Ok(text) => Ok(text@),
        Err(error) => Err(error),
    }
}

/// The model of decoded members.
pub open spec fn object_view(result: Result<&Vec<(String, JsonValue)>, ParseError>) -> Result<
    Seq<JsonMember>,
    ParseError,
> {
    match result {
        Ok(members) => Ok(members_view(members@)),
        Err(error) => Err(error),
    }
}

/// The model of a decoded pod identity.
pub open spec fn pod_ref_view(result: Result<PodRef, ParseError>) -> Result<PodRefView, ParseError> {
    match result {
        Ok(pod_ref) => Ok(pod_ref@),
        Err(error) => Err(error),
    }
}

/// The model of a decoded pod.
pub open spec fn pod_view(result: Result<Pod, ParseError>) -> Result<PodView, ParseError> {
    match result {
        Ok(pod) => Ok(pod@),
        Err(error) => Err(error),
    }
}

/// The model of a list of pods.
pub open spec fn pod_views(pods: Seq<Pod>) -> Seq<PodView> {
    Seq::new(pods.len(), |i: int| pods[i]@)
}

/// The model of a decoded list of pods.
pub open spec fn pods_view(result: Result<Vec<Pod>, ParseError>) -> Result<
    Seq<PodView>,
    ParseError,
> {
    match result {
        Ok(pods) => Ok(pod_views(pods@)),
        Err(error) => Err(error),
    }
}

/// The model of a decoded document.
pub open spec fn stats_view(result: Result<NodeStats, ParseError>) -> Result<
    NodeStatsView,
    ParseError,
> {
    match result {
        Ok(stats) => Ok(stats@),
        Err(error) => Err(error),
    }
}

/// Reads the string member under `key`.
pub fn decode_text(members: &Vec<(String, JsonValue)>, key: &str, field: DocumentField) -> (result:
    Result<String, ParseError>)
    ensures
        text_view(result) == text_field(members_view(members@), key@, field),
{
    match find_member(members, key) {
        None => Err(ParseError::MissingField(field)),
        Some(JsonValue::Text(text)) => Ok(text.clone()),
        Some(_) => Err(ParseError::InvalidField(field)),
    }
}

/// Reads the integer member under `key`.
pub fn decode_integer(members: &Vec<(String, JsonValue)>, key: &str, field: DocumentField) -> (result:
    Result<i64, ParseError>)
    ensures
        result == integer_field(members_view(members@), key@, field),
{
    match find_member(members, key) {
        None => Err(ParseError::MissingField(field)),
        Some(JsonValue::Integer(number)) => Ok(*number),
        Some(_) => Err(ParseError::InvalidField(field)),
    }
}

/// Reads the object member under `key`.
pub fn decode_object<'a>(
    members: &'a Vec<(String, JsonValue)>,
    key: &str,
    field: DocumentField,
) -> (result: Result<&'a Vec<(String, JsonValue)>, ParseError>)
    ensures
        object_view(result) == object_field(members_view(members@), key@, field),
{
    match find_member(members, key) {
        None => Err(ParseError::MissingField(field)),
        Some(JsonValue::Object(inner)) => {
            proof {
                lemma_object_view(*inner);
            }
            Ok(inner)
        },
        Some(_) => Err(ParseError::InvalidField(field)),
    }
}

/// Reads the figures of an `ephemeral-storage` object. `availableBytes`
/// and `capacityBytes` are required; `usedBytes` is 0 where it is absent.
pub fn decode_storage(members: &Vec<(String, JsonValue)>) -> (result: Result<
    EphemeralStorage,
    ParseError,
>)
    ensures
        result == storage_of(members_view(members@)),
{
    let available_bytes = match decode_integer(
        members,
        "availableBytes",
        DocumentField::AvailableBytes,
    ) {
        Ok(number) => number,
        Err(error) => return Err(error),
    };
    let capacity_bytes = match decode_integer(
        members,
        "capacityBytes",
        DocumentField::CapacityBytes,
    ) {
        Ok(number) => number,
        Err(error) => return Err(error),
    };
    let used_bytes = match find_member(members, "usedBytes") {
        None => 0,
        Some(JsonValue::Integer(number)) => *number,
        Some(_) => return Err(ParseError::InvalidField(DocumentField::UsedBytes)),
    };
    Ok(EphemeralStorage { available_bytes, capacity_bytes, used_bytes })
}

/// Reads the identity of a pod from a `podRef` object.
pub fn decode_pod_ref(members: &Vec<(String, JsonValue)>) -> (result: Result<PodRef, ParseError>)
    ensures
        pod_ref_view(result) == pod_ref_of(members_view(members@)),
{
    let name = match decode_text(members, "name", DocumentField::PodName) {
        Ok(text) => text,
        Err(error) => return Err(error),
    };
    let namespace = match decode_text(members, "namespace", DocumentField::PodNamespace) {
        Ok(text) => text,
        Err(error) => return Err(error),
    };
    let uid = match decode_text(members, "uid", DocumentField::PodUid) {
        Ok(text) => text,
        Err(error) => return Err(error),
    };
    Ok(PodRef { name, namespace, uid })
}

/// Reads one pod from an element of `pods`.
pub fn decode_pod(value: &JsonValue) -> (result: Result<Pod, ParseError>)
    ensures
        pod_view(result) == pod_of(value@),
{
    let members = match value {
        JsonValue::Object(members) => {
            proof {
                lemma_object_view(*members);
            }
            members
        },
        _ => return Err(ParseError::InvalidField(DocumentField::Pod)),
    };
    let reference = match decode_object(members, "podRef", DocumentField::PodRef) {
        Ok(inner) => inner,
        Err(error) => return Err(error),
    };
    let pod_ref = match decode_pod_ref(reference) {
        Ok(pod_ref) => pod_ref,
        Err(error) => return Err(error),
    };
    let storage = match decode_object(
        members,
        "ephemeral-storage",
        DocumentField::EphemeralStorage,
    ) {
        Ok(inner) => inner,
        Err(error) => return Err(error),
    };
    let ephemeral_storage = match decode_storage(storage) {
        Ok(figures) => figures,
        Err(error) => return Err(error),
    };
    Ok(Pod { pod_ref, ephemeral_storage })
}

/// What the pods of a whole list are, given the pods of its first
/// elements and what the remaining elements hold.
pub open spec fn pods_after(done: Seq<PodView>, rest: Result<Seq<PodView>, ParseError>) -> Result<
    Seq<PodView>,
    ParseError,
> {
    match rest {
        Err(error) => Err(error),
        Ok(pods) => Ok(done + pods),
    }
}

/// Reads the pods of a document, in their order. One element that holds
/// no pod fails the whole list.
pub fn decode_pods(items: &Vec<JsonValue>) -> (result: Result<Vec<Pod>, ParseError>)
    ensures
        pods_view(result) == pods_of(items_view(items@)),
{
    let ghost all = items_view(items@);
    let mut pods: Vec<Pod> = Vec::new();
    let mut i: usize = 0;
    assert(all.skip(0) =~= all);
    assert(pods_after(pod_views(pods@), pods_of(all)) =~= pods_of(all)) by {
        if let Ok(found) = pods_of(all) {
            assert(pod_views(pods@) + found =~= found);
        }
    }
    while i < items.len()
        invariant
            i <= items.len(),
            all == items_view(items@),
            pods_of(all) == pods_after(pod_views(pods@), pods_of(all.skip(i as int))),
        decreases items.len() - i,
    {
        let ghost done = pod_views(pods@);
        let ghost rest = all.skip(i as int);
        assert(rest[0] == items@[i as int]@);
        assert(rest.skip(1) =~= all.skip(i as int + 1));
        match decode_pod(&items[i]) {
            Err(error) => {
                return Err(error);
            },
            Ok(pod) => {
                pods.push(pod);
                assert(pod_views(pods@) =~= done + seq![pod@]);
                assert(pods_of(all) == pods_after(
                    pod_views(pods@),
                    pods_of(all.skip(i as int + 1)),
                )) by {
                    if let Ok(tail) = pods_of(rest.skip(1)) {
                        assert(done + (seq![pod@] + tail) =~= (done + seq![pod@]) + tail);
                    }
                }
            },
        }
        i += 1;
    }
    assert(all.skip(i as int) =~= Seq::<Json>::empty());
    assert(pod_views(pods@) + Seq::<PodView>::empty() =~= pod_views(pods@));
    Ok(pods)
}

/// Reads a stats document from a JSON value.
pub fn decode_node_stats(document: &JsonValue) -> (result: Result<NodeStats, ParseError>)
    ensures
        stats_view(result) == node_stats_of(document@),
{
    let members = match document {
        JsonValue::Object(members) => {
            proof {
                lemma_object_view(*members);
            }
            members
        },
        _ => return Err(ParseError::InvalidField(DocumentField::Document)),
    };
    let node = match decode_object(members, "node", DocumentField::Node) {
        Ok(inner) => inner,
        Err(error) => return Err(error),
    };
    let name = match decode_text(node, "nodeName", DocumentField::NodeName) {
        Ok(text) => text,
        Err(error) => return Err(error),
    };
    let items = match find_member(members, "pods") {
        None => return Err(ParseError::MissingField(DocumentField::Pods)),
        Some(JsonValue::Array(items)) => {
            proof {
                lemma_array_view(*items);
            }
            items
        },
        Some(_) => return Err(ParseError::InvalidField(DocumentField::Pods)),
    };
    let pods = match decode_pods(items) {
        Ok(pods) => pods,
        Err(error) => return Err(error),
    };
    let stats = NodeStats { node: NodeSummary { name }, pods };
    assert(stats@.pods =~= pod_views(stats.pods@));
    Ok(stats)
}

/// Reads a stats document from a response body: the body is parsed as
/// JSON, and the document is read from the parsed value.
pub fn parse_node_stats(body: &str) -> (result: Result<NodeStats, ParseError>)
    ensures
        stats_view(result) == body_stats(body@),
{
    match parse_json(body) {
        None => Err(ParseError::Syntax),
        Some(document) => decode_node_stats(&document),
    }
}

/// Where `usedBytes` is absent it counts as 0: the figures are those of
/// the two required members, with 0 used bytes.
pub proof fn law_used_bytes_default_to_zero(members: Seq<JsonMember>)
    requires
        member(members, "usedBytes"@) is None,
    ensures
        storage_of(members) == match integer_field(
            members,
            "availableBytes"@,
            DocumentField::AvailableBytes,
        ) {
            Err(error) => Err(error),
            Ok(available_bytes) => match integer_field(
                members,
                "capacityBytes"@,
                DocumentField::CapacityBytes,
            ) {
                Err(error) => Err(error),
                Ok(capacity_bytes) => Ok(
                    EphemeralStorage { available_bytes, capacity_bytes, used_bytes: 0 },
                ),
            },
        },
{
}

/// `availableBytes` and `capacityBytes` have no default: where either is
/// absent the object holds no figures, and the error names the first of
/// them that is missing, unless the other is there but no integer.
pub proof fn law_available_and_capacity_are_required(members: Seq<JsonMember>)
    ensures
        member(members, "availableBytes"@) is None || member(members, "capacityBytes"@) is None
            ==> storage_of(members) is Err,
        member(members, "availableBytes"@) is None ==> storage_of(members) == Err::<
            EphemeralStorage,
            ParseError,
        >(ParseError::MissingField(DocumentField::AvailableBytes)),
        integer_field(members, "availableBytes"@, DocumentField::AvailableBytes) is Ok && member(
            members,
            "capacityBytes"@,
        ) is None ==> storage_of(members) == Err::<EphemeralStorage, ParseError>(
            ParseError::MissingField(DocumentField::CapacityBytes),
        ),
{
}

/// Whether element `i` of the `pods` of a document holds no pod.
pub open spec fn has_unparsable_pod(document: Json, i: int) -> bool {
    match document {
        Json::Object(members) => match pod_items(members) {
            Ok(items) => 0 <= i < items.len() && pod_of(items[i]) is Err,
            Err(_) => false,
        },
        _ => false,
    }
}

/// One element that holds no pod fails the list that it is in.
pub proof fn lemma_unparsable_pod_fails_list(items: Seq<Json>, i: int)
    requires
        0 <= i < items.len(),
        pod_of(items[i]) is Err,
    ensures
        pods_of(items) is Err,
    decreases items.len(),
{
    if i > 0 {
        assert(items.skip(1)[i - 1] == items[i]);
        lemma_unparsable_pod_fails_list(items.skip(1), i - 1);
    }
}

/// A pod that cannot be read is no reason for a default: it makes the
/// whole document of its node unreadable.
pub proof fn law_unparsable_pod_fails_document(document: Json, i: int)
    requires
        has_unparsable_pod(document, i),
    ensures
        node_stats_of(document) is Err,
{
    match document {
        Json::Object(members) => {
            match pod_items(members) {
                Ok(items) => {
                    lemma_unparsable_pod_fails_list(items, i);
                },
                Err(_) => {},
            }
        },
        _ => {},
    }
}

/// A pod whose `ephemeral-storage` lacks `availableBytes` or
/// `capacityBytes` cannot be read.
pub proof fn law_pod_without_required_bytes_is_unparsable(
    members: Seq<JsonMember>,
    storage: Seq<JsonMember>,
)
    requires
        member(members, "ephemeral-storage"@) == Some(Json::Object(storage)),
        member(storage, "availableBytes"@) is None || member(storage, "capacityBytes"@) is None,
    ensures
        pod_of(Json::Object(members)) is Err,
{
    law_available_and_capacity_are_required(storage);
}

} // verus!
