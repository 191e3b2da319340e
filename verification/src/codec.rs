//! The wire form of the signaling envelopes: JSON text.
//!
//! An envelope is an object with one member, named after its kind. Identities
//! are strings in the hyphenated form; a session description is an object
//! with the members `type` and `sdp`. This module says which document stands
//! for which envelope and back, and proves that what is written is read back
//! unchanged.

use vstd::prelude::*;
use crate::identity::{format_id, hyphenated_text, parse_id, uuid_parse};
use crate::json::{
    array_value, distinct_keys, json_parse, json_tree, json_trees, members_of, object_value,
    shallow, text_value, value_from_text, value_items, value_member, value_member_count,
    value_text, value_to_text, JsonTree,
};
use crate::message::{
    ClientId, Message, MessageView, PeerMessage, PeerMessageView, SdpKind, SessionDescription,
    SessionDescriptionView,
};

verus! {

/// Whether the UUID parser reads the hyphenated form of `id` back as `id`.
pub open spec fn readable(id: ClientId) -> bool {
    uuid_parse(hyphenated_text(id)) == Some(id)
}

/// The document for an identity.
pub open spec fn id_tree(id: ClientId) -> JsonTree {
    JsonTree::Text(hyphenated_text(id))
}

/// An object with one member.
pub open spec fn object1(key: Seq<char>, value: JsonTree) -> JsonTree {
    JsonTree::Object(Map::empty().insert(key, value))
}

/// An object with two members.
pub open spec fn object2(k1: Seq<char>, v1: JsonTree, k2: Seq<char>, v2: JsonTree) -> JsonTree {
    JsonTree::Object(Map::empty().insert(k1, v1).insert(k2, v2))
}

/// How the kind of a session description is spelled.
pub open spec fn kind_text(kind: SdpKind) -> Seq<char> {
    match kind {
        SdpKind::Unspecified => "Unspecified"@,
        SdpKind::Offer => "offer"@,
        SdpKind::Pranswer => "pranswer"@,
        SdpKind::Answer => "answer"@,
        SdpKind::Rollback => "rollback"@,
    }
}

/// The kind that `text` spells.
pub open spec fn kind_of_text(text: Seq<char>) -> Option<SdpKind> {
    if text == "Unspecified"@ {
        Some(SdpKind::Unspecified)
    } else if text == "offer"@ {
        Some(SdpKind::Offer)
    } else if text == "pranswer"@ {
        Some(SdpKind::Pranswer)
    } else if text == "answer"@ {
        Some(SdpKind::Answer)
    } else if text == "rollback"@ {
        Some(SdpKind::Rollback)
    } else {
        None
    }
}

/// The document for a session description.
pub open spec fn description_tree(d: SessionDescriptionView) -> JsonTree {
    object2("type"@, JsonTree::Text(kind_text(d.kind)), "sdp"@, JsonTree::Text(d.sdp))
}

/// The identity that a document spells.
pub open spec fn id_of_tree(tree: JsonTree) -> Option<ClientId> {
    match tree {
        JsonTree::Text(s) => uuid_parse(s),
        _ => None,
    }
}

/// The identity under `key` of an object.
pub open spec fn member_id(tree: JsonTree, key: Seq<char>) -> Option<ClientId> {
    match tree.member(key) {
        Some(v) => id_of_tree(v),
        None => None,
    }
}

/// The string under `key` of an object.
pub open spec fn member_text(tree: JsonTree, key: Seq<char>) -> Option<Seq<char>> {
    match tree.member(key) {
        Some(v) => v.text(),
        None => None,
    }
}

/// The session description that a document stands for: an object with a
/// known kind under `type` and a string under `sdp`. Other members are
/// passed over.
pub open spec fn description_of_tree(tree: JsonTree) -> Option<SessionDescriptionView> {
    match (member_text(tree, "type"@), member_text(tree, "sdp"@)) {
        (Some(k), Some(sdp)) => match kind_of_text(k) {
            Some(kind) => Some(SessionDescriptionView { kind, sdp }),
            None => None,
        },
        _ => None,
    }
}

/// The session description under `key` of an object.
pub open spec fn member_description(tree: JsonTree, key: Seq<char>) -> Option<
    SessionDescriptionView,
> {
    match tree.member(key) {
        Some(v) => description_of_tree(v),
        None => None,
    }
}

/// The identities that the items of an array spell, if each spells one.
pub open spec fn ids_of_trees(items: Seq<JsonTree>) -> Option<Seq<ClientId>> {
    if forall|i: int| 0 <= i < items.len() ==> id_of_tree(#[trigger] items[i]) is Some {
        Some(Seq::new(items.len(), |i: int| id_of_tree(items[i]).unwrap()))
    } else {
        None
    }
}

/// The documents for a list of identities.
pub open spec fn id_trees(ids: Seq<ClientId>) -> Seq<JsonTree> {
    Seq::new(ids.len(), |i: int| id_tree(ids[i]))
}

/// The document for an envelope.
pub open spec fn tree_of_message(m: MessageView) -> JsonTree {
    match m {
        MessageView::Id(id) => object1("Id"@, id_tree(id)),
        MessageView::NewPeer { id } => object1("NewPeer"@, object1("id"@, id_tree(id))),
        MessageView::Peers(ids) => object1("Peers"@, JsonTree::Array(id_trees(ids))),
        MessageView::PeerDisconnected { id } => object1(
            "PeerDisconnected"@,
            object1("id"@, id_tree(id)),
        ),
        MessageView::Offer { id, offer } => object1(
            "Offer"@,
            object2("id"@, id_tree(id), "offer"@, description_tree(offer)),
        ),
        MessageView::Answer { id, answer } => object1(
            "Answer"@,
            object2("id"@, id_tree(id), "answer"@, description_tree(answer)),
        ),
        MessageView::IceCandidate { id, candidate } => object1(
            "IceCandidate"@,
            object2("id"@, id_tree(id), "candidate"@, JsonTree::Text(candidate)),
        ),
    }
}

/// Whether a document is an object with exactly one member.
pub open spec fn single_member(tree: JsonTree) -> bool {
    tree is Object && tree.members().dom().finite() && tree.members().dom().len() == 1
}

/// The body of an envelope of the kind `tag`, if `tree` is one.
pub open spec fn body_of(tree: JsonTree, tag: Seq<char>) -> Option<JsonTree> {
    if single_member(tree) {
        tree.member(tag)
    } else {
        None
    }
}

/// The envelope that a document stands for.
pub open spec fn message_of_tree(tree: JsonTree) -> Option<MessageView> {
    if let Some(body) = body_of(tree, "Id"@) {
        match id_of_tree(body) {
            Some(id) => Some(MessageView::Id(id)),
            None => None,
        }
    } else if let Some(body) = body_of(tree, "NewPeer"@) {
        match member_id(body, "id"@) {
            Some(id) => Some(MessageView::NewPeer { id }),
            None => None,
        }
    } else if let Some(body) = body_of(tree, "Peers"@) {
        match body.items() {
            Some(items) => match ids_of_trees(items) {
                Some(ids) => Some(MessageView::Peers(ids)),
                None => None,
            },
            None => None,
        }
    } else if let Some(body) = body_of(tree, "PeerDisconnected"@) {
        match member_id(body, "id"@) {
            Some(id) => Some(MessageView::PeerDisconnected { id }),
            None => None,
        }
    } else if let Some(body) = body_of(tree, "Offer"@) {
        match (member_id(body, "id"@), member_description(body, "offer"@)) {
            (Some(id), Some(offer)) => Some(MessageView::Offer { id, offer }),
            _ => None,
        }
    } else if let Some(body) = body_of(tree, "Answer"@) {
        match (member_id(body, "id"@), member_description(body, "answer"@)) {
            (Some(id), Some(answer)) => Some(MessageView::Answer { id, answer }),
            _ => None,
        }
    } else if let Some(body) = body_of(tree, "IceCandidate"@) {
        match (member_id(body, "id"@), member_text(body, "candidate"@)) {
            (Some(id), Some(candidate)) => Some(MessageView::IceCandidate { id, candidate }),
            _ => None,
        }
    } else {
        None
    }
}

/// The document for an addressed envelope.
pub open spec fn tree_of_peer_message(m: PeerMessageView) -> JsonTree {
    object2("peer_id"@, id_tree(m.peer_id), "content"@, tree_of_message(m.content))
}

/// The addressed envelope that a document stands for: an object with an
/// identity under `peer_id` and an envelope under `content`.
pub open spec fn peer_message_of_tree(tree: JsonTree) -> Option<PeerMessageView> {
    match (member_id(tree, "peer_id"@), tree.member("content"@)) {
        (Some(peer_id), Some(c)) => match message_of_tree(c) {
            Some(content) => Some(PeerMessageView { peer_id, content }),
            None => None,
        },
        _ => None,
    }
}

/// The envelope that `text` spells.
pub open spec fn decode_message(text: Seq<char>) -> Option<MessageView> {
    match json_parse(text) {
        Some(tree) => message_of_tree(tree),
        None => None,
    }
}

/// The addressed envelope that `text` spells.
pub open spec fn decode_peer_message(text: Seq<char>) -> Option<PeerMessageView> {
    match json_parse(text) {
        Some(tree) => peer_message_of_tree(tree),
        None => None,
    }
}

/// Whether every identity that the envelope holds is readable.
pub open spec fn ids_readable(m: MessageView) -> bool {
    match m {
        MessageView::Id(id) => readable(id),
        MessageView::NewPeer { id } => readable(id),
        MessageView::Peers(ids) => forall|i: int| 0 <= i < ids.len() ==> readable(#[trigger] ids[i]),
        MessageView::PeerDisconnected { id } => readable(id),
        MessageView::Offer { id, .. } => readable(id),
        MessageView::Answer { id, .. } => readable(id),
        MessageView::IceCandidate { id, .. } => readable(id),
    }
}

proof fn lemma_keys_differ()
    ensures
        "Id"@ != "NewPeer"@,
        "Id"@ != "Peers"@,
        "Id"@ != "PeerDisconnected"@,
        "Id"@ != "Offer"@,
        "Id"@ != "Answer"@,
        "Id"@ != "IceCandidate"@,
        "NewPeer"@ != "Peers"@,
        "NewPeer"@ != "PeerDisconnected"@,
        "NewPeer"@ != "Offer"@,
        "NewPeer"@ != "Answer"@,
        "NewPeer"@ != "IceCandidate"@,
        "Peers"@ != "PeerDisconnected"@,
        "Peers"@ != "Offer"@,
        "Peers"@ != "Answer"@,
        "Peers"@ != "IceCandidate"@,
        "PeerDisconnected"@ != "Offer"@,
        "PeerDisconnected"@ != "Answer"@,
        "PeerDisconnected"@ != "IceCandidate"@,
        "Offer"@ != "Answer"@,
        "Offer"@ != "IceCandidate"@,
        "Answer"@ != "IceCandidate"@,
        "id"@ != "offer"@,
        "id"@ != "answer"@,
        "id"@ != "candidate"@,
        "type"@ != "sdp"@,
        "peer_id"@ != "content"@,
{
    reveal_strlit("Id");
    reveal_strlit("NewPeer");
    reveal_strlit("Peers");
    reveal_strlit("PeerDisconnected");
    reveal_strlit("Offer");
    reveal_strlit("Answer");
    reveal_strlit("IceCandidate");
    reveal_strlit("id");
    reveal_strlit("offer");
    reveal_strlit("answer");
    reveal_strlit("candidate");
    reveal_strlit("type");
    reveal_strlit("sdp");
    reveal_strlit("peer_id");
    reveal_strlit("content");
    assert("Id"@.len() == 2);
    assert("Peers"@[1] == 'e');
    assert("Offer"@[0] == 'O');
    assert("NewPeer"@[0] == 'N');
    assert("Answer"@[0] == 'A');
    assert("PeerDisconnected"@.len() == 16);
    assert("IceCandidate"@.len() == 12);
    assert("id"@.len() == 2);
    assert("offer"@.len() == 5);
    assert("answer"@.len() == 6);
    assert("candidate"@.len() == 9);
    assert("type"@.len() == 4);
    assert("sdp"@.len() == 3);
    assert("peer_id"@[0] == 'p');
    assert("content"@[0] == 'c');
}

/// Each kind of session description is spelled in its own way.
pub proof fn lemma_kind_round_trip(kind: SdpKind)
    ensures
        kind_of_text(kind_text(kind)) == Some(kind),
{
    reveal_strlit("Unspecified");
    reveal_strlit("offer");
    reveal_strlit("pranswer");
    reveal_strlit("answer");
    reveal_strlit("rollback");
    assert("Unspecified"@.len() == 11);
    assert("offer"@.len() == 5);
    assert("pranswer"@.len() == 8);
    assert("answer"@.len() == 6);
    assert("rollback"@[0] == 'r');
    assert("pranswer"@[0] == 'p');
}

proof fn lemma_object1(key: Seq<char>, value: JsonTree)
    ensures
        single_member(object1(key, value)),
        object1(key, value).member(key) == Some(value),
        forall|other: Seq<char>| other != key ==> object1(key, value).member(other) is None,
{
    let m = Map::<Seq<char>, JsonTree>::empty().insert(key, value);
    assert(m.dom() =~= Set::<Seq<char>>::empty().insert(key));
}

proof fn lemma_object2(k1: Seq<char>, v1: JsonTree, k2: Seq<char>, v2: JsonTree)
    requires
        k1 != k2,
    ensures
        object2(k1, v1, k2, v2).member(k1) == Some(v1),
        object2(k1, v1, k2, v2).member(k2) == Some(v2),
{
}

/// A session description is read back from its document unchanged.
pub proof fn lemma_description_round_trip(d: SessionDescriptionView)
    ensures
        description_of_tree(description_tree(d)) == Some(d),
{
    lemma_keys_differ();
    lemma_kind_round_trip(d.kind);
    lemma_object2("type"@, JsonTree::Text(kind_text(d.kind)), "sdp"@, JsonTree::Text(d.sdp));
}

/// An envelope whose identities are readable is read back from its document
/// unchanged.
pub proof fn lemma_message_round_trip(m: MessageView)
    requires
        ids_readable(m),
    ensures
        message_of_tree(tree_of_message(m)) == Some(m),
{
    lemma_keys_differ();
    match m {
        MessageView::Id(id) => {
            lemma_object1("Id"@, id_tree(id));
        },
        MessageView::NewPeer { id } => {
            lemma_object1("NewPeer"@, object1("id"@, id_tree(id)));
            lemma_object1("id"@, id_tree(id));
        },
        MessageView::Peers(ids) => {
            let items = id_trees(ids);
            lemma_object1("Peers"@, JsonTree::Array(items));
            assert forall|i: int| 0 <= i < items.len() implies id_of_tree(#[trigger] items[i])
                == Some(ids[i]) by {
                assert(readable(ids[i]));
            }
            assert(ids_of_trees(items).unwrap() =~= ids);
        },
        MessageView::PeerDisconnected { id } => {
            lemma_object1("PeerDisconnected"@, object1("id"@, id_tree(id)));
            lemma_object1("id"@, id_tree(id));
        },
        MessageView::Offer { id, offer } => {
            let body = object2("id"@, id_tree(id), "offer"@, description_tree(offer));
            lemma_object1("Offer"@, body);
            lemma_object2("id"@, id_tree(id), "offer"@, description_tree(offer));
            lemma_description_round_trip(offer);
        },
        MessageView::Answer { id, answer } => {
            let body = object2("id"@, id_tree(id), "answer"@, description_tree(answer));
            lemma_object1("Answer"@, body);
            lemma_object2("id"@, id_tree(id), "answer"@, description_tree(answer));
            lemma_description_round_trip(answer);
        },
        MessageView::IceCandidate { id, candidate } => {
            let body = object2("id"@, id_tree(id), "candidate"@, JsonTree::Text(candidate));
            lemma_object1("IceCandidate"@, body);
            lemma_object2("id"@, id_tree(id), "candidate"@, JsonTree::Text(candidate));
        },
    }
}

/// An addressed envelope whose identities are readable is read back from its
/// document unchanged.
pub proof fn lemma_peer_message_round_trip(m: PeerMessageView)
    requires
        readable(m.peer_id),
        ids_readable(m.content),
    ensures
        peer_message_of_tree(tree_of_peer_message(m)) == Some(m),
{
    lemma_keys_differ();
    lemma_message_round_trip(m.content);
    lemma_object2("peer_id"@, id_tree(m.peer_id), "content"@, tree_of_message(m.content));
}

/// The document of an envelope is made of strings, arrays and objects and
/// nests three levels at most.
pub proof fn lemma_message_shallow(m: MessageView, depth: nat)
    requires
        depth >= 3,
    ensures
        shallow(tree_of_message(m), depth),
{
    reveal_with_fuel(shallow, 5);
    lemma_keys_differ();
    match m {
        MessageView::Peers(ids) => {
            let items = id_trees(ids);
            assert forall|i: int| 0 <= i < items.len() implies shallow(
                #[trigger] items[i],
                (depth - 2) as nat,
            ) by {}
        },
        _ => {},
    }
}

/// The value of what an optional result holds.
pub open spec fn viewed<T: View>(o: Option<T>) -> Option<T::V> {
    match o {
        Some(x) => Some(x@),
        None => None,
    }
}

fn id_value(id: ClientId) -> (r: serde_json::Value)
    ensures
        json_tree(r) == id_tree(id),
        readable(id),
{
    text_value(format_id(id))
}

pub(crate) fn object1_value(key: &str, value: serde_json::Value) -> (r: serde_json::Value)
    ensures
        json_tree(r) == object1(key@, json_tree(value)),
{
    let mut members: Vec<(String, serde_json::Value)> = Vec::new();
    members.push((key.to_owned(), value));
    proof {
        reveal_with_fuel(members_of, 2);
        assert(members@.drop_last() =~= Seq::<(String, serde_json::Value)>::empty());
    }
    object_value(members)
}

fn object2_value(k1: &str, v1: serde_json::Value, k2: &str, v2: serde_json::Value) -> (r: serde_json::Value)
    requires
        k1@ != k2@,
    ensures
        json_tree(r) == object2(k1@, json_tree(v1), k2@, json_tree(v2)),
{
    let mut members: Vec<(String, serde_json::Value)> = Vec::new();
    members.push((k1.to_owned(), v1));
    members.push((k2.to_owned(), v2));
    proof {
        reveal_with_fuel(members_of, 3);
        let first = members@.drop_last();
        assert(first.drop_last() =~= Seq::<(String, serde_json::Value)>::empty());
        assert(first.last() == members@[0]);
    }
    object_value(members)
}

fn kind_name(kind: SdpKind) -> (r: &'static str)
    ensures
        r@ == kind_text(kind),
{
    match kind {
        SdpKind::Unspecified => "Unspecified",
        SdpKind::Offer => "offer",
        SdpKind::Pranswer => "pranswer",
        SdpKind::Answer => "answer",
        SdpKind::Rollback => "rollback",
    }
}

fn kind_from_name(name: &str) -> (r: Option<SdpKind>)
    ensures
        r == kind_of_text(name@),
{
    let name = name.to_owned();
    if name == "Unspecified".to_owned() {
        Some(SdpKind::Unspecified)
    } else if name == "offer".to_owned() {
        Some(SdpKind::Offer)
    } else if name == "pranswer".to_owned() {
        Some(SdpKind::Pranswer)
    } else if name == "answer".to_owned() {
        Some(SdpKind::Answer)
    } else if name == "rollback".to_owned() {
        Some(SdpKind::Rollback)
    } else {
        None
    }
}

fn description_value(d: &SessionDescription) -> (r: serde_json::Value)
    ensures
        json_tree(r) == description_tree(d@),
{
    proof {
        lemma_keys_differ();
    }
    object2_value(
        "type",
        text_value(kind_name(d.kind).to_owned()),
        "sdp",
        text_value(d.sdp.clone()),
    )
}

fn id_from_value(value: &serde_json::Value) -> (r: Option<ClientId>)
    ensures
        r == id_of_tree(json_tree(*value)),
{
    match value_text(value) {
        Some(text) => parse_id(text),
        None => None,
    }
}

fn member_id_from(value: &serde_json::Value, key: &str) -> (r: Option<ClientId>)
    ensures
        r == member_id(json_tree(*value), key@),
{
    match value_member(value, key) {
        Some(v) => id_from_value(v),
        None => None,
    }
}

pub(crate) fn member_text_from(value: &serde_json::Value, key: &str) -> (r: Option<String>)
    ensures
        viewed(r) == member_text(json_tree(*value), key@),
{
    match value_member(value, key) {
        Some(v) => match value_text(v) {
            Some(text) => Some(text.to_owned()),
            None => None,
        },
        None => None,
    }
}

fn description_from_value(value: &serde_json::Value) -> (r: Option<SessionDescription>)
    ensures
        viewed(r) == description_of_tree(json_tree(*value)),
{
    let kind_text = member_text_from(value, "type");
    let sdp = member_text_from(value, "sdp");
    match (kind_text, sdp) {
        (Some(k), Some(sdp)) => match kind_from_name(k.as_str()) {
            Some(kind) => Some(SessionDescription { kind, sdp }),
            None => None,
        },
        _ => None,
    }
}

fn member_description_from(value: &serde_json::Value, key: &str) -> (r: Option<SessionDescription>)
    ensures
        viewed(r) == member_description(json_tree(*value), key@),
{
    match value_member(value, key) {
        Some(v) => description_from_value(v),
        None => None,
    }
}

fn ids_from_values(items: &Vec<serde_json::Value>) -> (r: Option<Vec<ClientId>>)
    ensures
        viewed(r) == ids_of_trees(json_trees(items@)),
{
    let ghost trees = json_trees(items@);
    let mut ids: Vec<ClientId> = Vec::new();
    let mut i: usize = 0;
    while i < items.len()
        invariant
            i <= items@.len(),
            trees == json_trees(items@),
            ids@.len() == i,
            forall|k: int| 0 <= k < i ==> id_of_tree(#[trigger] trees[k]) == Some(ids@[k]),
        decreases items@.len() - i,
    {
        match id_from_value(&items[i]) {
            Some(id) => {
                ids.push(id);
            },
            None => {
                assert(id_of_tree(trees[i as int]) is None);
                return None;
            },
        }
        i += 1;
    }
    assert(ids@ =~= ids_of_trees(trees).unwrap());
    Some(ids)
}

impl Message {
    /// The document for this envelope.
    fn to_value(&self) -> (r: serde_json::Value)
        ensures
            json_tree(r) == tree_of_message(self@),
            ids_readable(self@),
    {
        proof {
            lemma_keys_differ();
        }
        match self {
            Message::Id(id) => object1_value("Id", id_value(*id)),
            Message::NewPeer { id } => object1_value("NewPeer", object1_value("id", id_value(*id))),
            Message::Peers(ids) => {
                let mut items: Vec<serde_json::Value> = Vec::new();
                let mut i: usize = 0;
                while i < ids.len()
                    invariant
                        i <= ids@.len(),
                        items@.len() == i,
                        forall|k: int|
                            0 <= k < i ==> json_tree(#[trigger] items@[k]) == id_tree(ids@[k]),
                        forall|k: int| 0 <= k < i ==> readable(#[trigger] ids@[k]),
                    decreases ids@.len() - i,
                {
                    items.push(id_value(ids[i]));
                    i += 1;
                }
                assert(json_trees(items@) =~= id_trees(ids@));
                object1_value("Peers", array_value(items))
            },
            Message::PeerDisconnected { id } => object1_value(
                "PeerDisconnected",
                object1_value("id", id_value(*id)),
            ),
            Message::Offer { id, offer } => object1_value(
                "Offer",
                object2_value("id", id_value(*id), "offer", description_value(offer)),
            ),
            Message::Answer { id, answer } => object1_value(
                "Answer",
                object2_value("id", id_value(*id), "answer", description_value(answer)),
            ),
            Message::IceCandidate { id, candidate } => object1_value(
                "IceCandidate",
                object2_value("id", id_value(*id), "candidate", text_value(candidate.clone())),
            ),
        }
    }

    /// The envelope that a document stands for.
    fn from_value(value: &serde_json::Value) -> (r: Option<Message>)
        ensures
            viewed(r) == message_of_tree(json_tree(*value)),
    {
        match value_member_count(value) {
            Some(n) => {
                if n != 1 {
                    return None;
                }
            },
            None => {
                return None;
            },
        }
        assert(single_member(json_tree(*value)));
        if let Some(body) = value_member(value, "Id") {
            match id_from_value(body) {
                Some(id) => Some(Message::Id(id)),
                None => None,
            }
        } else if let Some(body) = value_member(value, "NewPeer") {
            match member_id_from(body, "id") {
                Some(id) => Some(Message::NewPeer { id }),
                None => None,
            }
        } else if let Some(body) = value_member(value, "Peers") {
            match value_items(body) {
                Some(items) => match ids_from_values(items) {
                    Some(ids) => Some(Message::Peers(ids)),
                    None => None,
                },
                None => None,
            }
        } else if let Some(body) = value_member(value, "PeerDisconnected") {
            match member_id_from(body, "id") {
                Some(id) => Some(Message::PeerDisconnected { id }),
                None => None,
            }
        } else if let Some(body) = value_member(value, "Offer") {
            match (member_id_from(body, "id"), member_description_from(body, "offer")) {
                (Some(id), Some(offer)) => Some(Message::Offer { id, offer }),
                _ => None,
            }
        } else if let Some(body) = value_member(value, "Answer") {
            match (member_id_from(body, "id"), member_description_from(body, "answer")) {
                (Some(id), Some(answer)) => Some(Message::Answer { id, answer }),
                _ => None,
            }
        } else if let Some(body) = value_member(value, "IceCandidate") {
            match (member_id_from(body, "id"), member_text_from(body, "candidate")) {
                (Some(id), Some(candidate)) => Some(Message::IceCandidate { id, candidate }),
                _ => None,
            }
        } else {
            None
        }
    }

    /// Writes the envelope as JSON text. Reading the text gives the envelope
    /// back: encoding and then decoding is the identity.
    pub fn to_json(&self) -> (r: String)
        ensures
            decode_message(r@) == Some(self@),
    {
        let value = self.to_value();
        proof {
            lemma_message_shallow(self@, 16);
            lemma_message_round_trip(self@);
        }
        value_to_text(&value)
    }

    /// Reads an envelope from JSON text: `None` where the text is no JSON
    /// document or the document stands for no envelope.
    pub fn from_json(text: &str) -> (r: Option<Message>)
        ensures
            viewed(r) == decode_message(text@),
    {
        match value_from_text(text) {
            Some(value) => Message::from_value(&value),
            None => None,
        }
    }
}

impl PeerMessage {
    /// Writes the addressed envelope as JSON text. Reading the text gives it
    /// back: encoding and then decoding is the identity.
    pub fn to_json(&self) -> (r: String)
        ensures
            decode_peer_message(r@) == Some(self@),
    {
        proof {
            lemma_keys_differ();
        }
        let content = self.content.to_value();
        let value = object2_value("peer_id", id_value(self.peer_id), "content", content);
        proof {
            reveal_with_fuel(shallow, 2);
            lemma_message_shallow(self.content@, 15);
            lemma_peer_message_round_trip(self@);
            assert(shallow(json_tree(value), 16));
        }
        value_to_text(&value)
    }

    /// Reads an addressed envelope from JSON text: `None` where the text is
    /// no JSON document or the document stands for none.
    pub fn from_json(text: &str) -> (r: Option<PeerMessage>)
        ensures
            viewed(r) == decode_peer_message(text@),
    {
        match value_from_text(text) {
            Some(value) => {
                let peer_id = member_id_from(&value, "peer_id");
                match (peer_id, value_member(&value, "content")) {
                    (Some(peer_id), Some(c)) => match Message::from_value(c) {
                        Some(content) => Some(PeerMessage { peer_id, content }),
                        None => None,
                    },
                    _ => None,
                }
            },
            None => None,
        }
    }
}

} // verus!
