//! From a decoded record back to a JSON value and to text.

use crate::json::{
    empty_object, json_text, members, object_insert, value_null, value_of_i64, value_of_str,
    value_text, value_tree, JsonNumber, JsonTree,
};
use crate::message::{
    entries_map, entry_index, IdView, JsonRpcRequest, JsonRpcResponse, Params, RequestId,
    RequestView, ResponseView,
};
use serde_json::Value;
use vstd::prelude::*;

verus! {

/// The JSON value of an identifier.
pub open spec fn id_tree(i: IdView) -> JsonTree {
    match i {
        IdView::String(s) => JsonTree::String(s),
        IdView::Number(n) => JsonTree::Number(JsonNumber::Int(n as int)),
        IdView::Null => JsonTree::Null,
    }
}

/// The JSON object of a request: its four fields under their names, absent
/// parameters written as null.
pub open spec fn request_tree(q: RequestView) -> JsonTree {
    JsonTree::Object(
        Map::<Seq<char>, JsonTree>::empty().insert("jsonrpc"@, JsonTree::String(q.jsonrpc)).insert(
            "id"@,
            id_tree(q.id),
        ).insert("method"@, JsonTree::String(q.method)).insert(
            "params"@,
            match q.params {
                Some(m) => JsonTree::Object(m),
                None => JsonTree::Null,
            },
        ),
    )
}

/// The JSON object of a success response: its three fields under their
/// names.
pub open spec fn response_tree(p: ResponseView) -> JsonTree {
    JsonTree::Object(
        Map::<Seq<char>, JsonTree>::empty().insert("jsonrpc"@, JsonTree::String(p.jsonrpc)).insert(
            "id"@,
            id_tree(p.id),
        ).insert("result"@, p.result),
    )
}

impl RequestId {
    /// The JSON value of this identifier.
    pub fn to_value(&self) -> (r: Value)
        ensures
            value_tree(r) == id_tree(self@),
    {
        match self {
            RequestId::String(s) => value_of_str(s.as_str()),
            RequestId::Number(n) => value_of_i64(*n),
            RequestId::Null => value_null(),
        }
    }
}

impl Params {
    /// The JSON object that holds these parameters.
    pub fn to_value(&self) -> (r: Value)
        requires
            self.wf(),
        ensures
            value_tree(r) == JsonTree::Object(self@),
    {
        let mut object = empty_object();
        let mut i: usize = 0;
        while i < self.entries.len()
            invariant
                self.wf(),
                i <= self.entries.len(),
                value_tree(object) is Object,
                forall|k: Seq<char>|
                    members(value_tree(object)).contains_key(k) <==> exists|j: int|
                        0 <= j < i && (#[trigger] self.entries@[j]).0@ == k,
                forall|j: int|
                    0 <= j < i ==> members(value_tree(object))[(#[trigger] self.entries@[j]).0@]
                        == value_tree(self.entries@[j].1),
            decreases self.entries.len() - i,
        {
            let ghost before = members(value_tree(object));
            let ghost s = self.entries@;
            object_insert(&mut object, self.entries[i].0.as_str(), self.entries[i].1.clone());
            proof {
                let after = members(value_tree(object));
                assert(after == before.insert(s[i as int].0@, value_tree(s[i as int].1)));
                assert forall|k: Seq<char>| after.contains_key(k) implies exists|j: int|
                    0 <= j < i + 1 && (#[trigger] s[j]).0@ == k by {
                    if k == s[i as int].0@ {
                    } else {
                        let j = choose|j: int| 0 <= j < i && (#[trigger] s[j]).0@ == k;
                        assert(0 <= j < i + 1 && s[j].0@ == k);
                    }
                }
                assert forall|j: int| 0 <= j < i + 1 implies after[(#[trigger] s[j]).0@]
                    == value_tree(s[j].1) by {
                    if j < i {
                        assert(s[j].0@ != s[i as int].0@);
                    }
                }
            }
            i += 1;
        }
        proof {
            let s = self.entries@;
            let m = members(value_tree(object));
            assert forall|k: Seq<char>| m.contains_key(k) implies m[k] == entries_map(s)[k] by {
                let c = entry_index(s, k);
                assert(s[c].0@ == k);
            }
            assert(m =~= entries_map(s));
        }
        object
    }
}

impl JsonRpcRequest {
    /// The JSON object of this request.
    pub fn to_value(&self) -> (r: Value)
        requires
            self.wf(),
        ensures
            value_tree(r) == request_tree(self@),
    {
        let mut object = empty_object();
        object_insert(&mut object, "jsonrpc", value_of_str(self.jsonrpc.as_str()));
        object_insert(&mut object, "id", self.id.to_value());
        object_insert(&mut object, "method", value_of_str(self.method.as_str()));
        let params = match &self.params {
            Some(p) => p.to_value(),
            None => value_null(),
        };
        object_insert(&mut object, "params", params);
        object
    }

    /// The compact JSON text of this request.
    pub fn to_json(&self) -> (r: String)
        requires
            self.wf(),
        ensures
            r@ == json_text(request_tree(self@)),
    {
        let value = self.to_value();
        value_text(&value)
    }
}

impl JsonRpcResponse {
    /// The JSON object of this response.
    pub fn to_value(&self) -> (r: Value)
        ensures
            value_tree(r) == response_tree(self@),
    {
        let mut object = empty_object();
        object_insert(&mut object, "jsonrpc", value_of_str(self.jsonrpc.as_str()));
        object_insert(&mut object, "id", self.id.to_value());
        object_insert(&mut object, "result", self.result.clone());
        object
    }

    /// The compact JSON text of this response.
    pub fn to_json(&self) -> (r: String)
        ensures
            r@ == json_text(response_tree(self@)),
    {
        let value = self.to_value();
        value_text(&value)
    }
}

} // verus!
