//! The decoders: from a generic JSON value, or from text, to a typed record
//! or the first structural rule that failed.

use crate::error::{ErrorView, ParseError};
use crate::json::{
    json_parse, lookup, members, object_keys, parse_text, tree_as_i64, tree_as_str, value_as_i64,
    value_as_str, value_get, value_is_null, value_is_object, value_tree, JsonTree,
};
use crate::message::{
    distinct_keys, entries_map, entry_index, IdView, JsonRpcRequest, JsonRpcResponse, Params,
    RequestId, RequestView, ResponseView,
};
use serde_json::Value;
use vstd::prelude::*;

verus! {

/// The identifier that a JSON value stands for: a string, an integer that
/// fits 64 signed bits exactly, or null. Anything else is no identifier.
pub open spec fn decode_id_spec(t: JsonTree) -> Result<IdView, ErrorView> {
    if let Some(s) = tree_as_str(t) {
        Ok(IdView::String(s))
    } else if let Some(n) = tree_as_i64(t) {
        Ok(IdView::Number(n))
    } else if t is Null {
        Ok(IdView::Null)
    } else {
        Err(ErrorView::InvalidId)
    }
}

/// The first rule of the envelope that a value breaks, if any: it must be
/// an object, `jsonrpc` must be a string, and that string must be "2.0".
pub open spec fn envelope_error(t: JsonTree) -> Option<ErrorView> {
    if !(t is Object) {
        Some(ErrorView::InvalidJson("expected object"@))
    } else {
        match lookup(t, "jsonrpc"@) {
            Some(JsonTree::String(s)) => if s == "2.0"@ {
                None
            } else {
                Some(ErrorView::InvalidVersion(s))
            },
            _ => Some(ErrorView::MissingField("jsonrpc"@)),
        }
    }
}

/// The request that a JSON value decodes to, or the first failure in the
/// order envelope, `id`, `method`, `params`.
pub open spec fn decode_request_spec(t: JsonTree) -> Result<RequestView, ErrorView> {
    if let Some(e) = envelope_error(t) {
        Err(e)
    } else if lookup(t, "id"@) is None {
        Err(ErrorView::MissingField("id"@))
    } else if let Err(e) = decode_id_spec(lookup(t, "id"@)->Some_0) {
        Err(e)
    } else if !(lookup(t, "method"@) matches Some(JsonTree::String(_))) {
        Err(ErrorView::MissingField("method"@))
    } else if !(lookup(t, "params"@) matches Some(p) ==> p is Null || p is Object) {
        Err(ErrorView::InvalidFieldType("params"@, "object or null"@))
    } else {
        Ok(
            RequestView {
                jsonrpc: "2.0"@,
                id: decode_id_spec(lookup(t, "id"@)->Some_0)->Ok_0,
                method: lookup(t, "method"@)->Some_0->String_0,
                params: match lookup(t, "params"@) {
                    Some(JsonTree::Object(m)) => Some(m),
                    _ => None,
                },
            },
        )
    }
}

/// The response that a JSON value decodes to, or the first failure in the
/// order envelope, `id`, `result`. A missing `id` is null.
pub open spec fn decode_response_spec(t: JsonTree) -> Result<ResponseView, ErrorView> {
    if let Some(e) = envelope_error(t) {
        Err(e)
    } else if lookup(t, "id"@) matches Some(i) && decode_id_spec(i) is Err {
        Err(decode_id_spec(lookup(t, "id"@)->Some_0)->Err_0)
    } else if lookup(t, "result"@) is None {
        Err(ErrorView::MissingField("result"@))
    } else {
        Ok(
            ResponseView {
                jsonrpc: "2.0"@,
                id: match lookup(t, "id"@) {
                    Some(i) => decode_id_spec(i)->Ok_0,
                    None => IdView::Null,
                },
                result: lookup(t, "result"@)->Some_0,
            },
        )
    }
}

/// What decoding a text as a request gives: the parser's diagnostic as
/// `InvalidJson`, or what the parsed value decodes to.
pub open spec fn request_of_text(text: Seq<char>) -> Result<RequestView, ErrorView> {
    match json_parse(text) {
        Ok(t) => decode_request_spec(t),
        Err(d) => Err(ErrorView::InvalidJson(d)),
    }
}

/// What decoding a text as a response gives.
pub open spec fn response_of_text(text: Seq<char>) -> Result<ResponseView, ErrorView> {
    match json_parse(text) {
        Ok(t) => decode_response_spec(t),
        Err(d) => Err(ErrorView::InvalidJson(d)),
    }
}

/// The model of an identifier decoder's outcome.
pub open spec fn id_outcome(r: Result<RequestId, ParseError>) -> Result<IdView, ErrorView> {
    match r {
        Ok(i) => Ok(i@),
        Err(e) => Err(e@),
    }
}

/// The model of a request decoder's outcome.
pub open spec fn request_outcome(r: Result<JsonRpcRequest, ParseError>) -> Result<
    RequestView,
    ErrorView,
> {
    match r {
        Ok(q) => Ok(q@),
        Err(e) => Err(e@),
    }
}

/// The model of a response decoder's outcome.
pub open spec fn response_outcome(r: Result<JsonRpcResponse, ParseError>) -> Result<
    ResponseView,
    ErrorView,
> {
    match r {
        Ok(p) => Ok(p@),
        Err(e) => Err(e@),
    }
}

/// Decodes the `id` member of a message.
pub fn parse_id(value: &Value) -> (r: Result<RequestId, ParseError>)
    ensures
        id_outcome(r) == decode_id_spec(value_tree(*value)),
{
    if let Some(s) = value_as_str(value) {
        Ok(RequestId::String(s.to_owned()))
    } else if let Some(n) = value_as_i64(value) {
        Ok(RequestId::Number(n))
    } else if value_is_null(value) {
        Ok(RequestId::Null)
    } else {
        Err(ParseError::InvalidId)
    }
}

/// The text of a member that is a string; `None` where the member is
/// missing or of another type.
fn string_member<'a>(v: &'a Value, key: &str) -> (r: Option<&'a str>)
    ensures
        match r {
            Some(s) => lookup(value_tree(*v), key@) == Some(JsonTree::String(s@)),
            None => !(lookup(value_tree(*v), key@) matches Some(JsonTree::String(_))),
        },
{
    match value_get(v, key) {
        Some(f) => value_as_str(f),
        None => None,
    }
}

/// Checks the envelope of a message: an object whose `jsonrpc` is "2.0".
fn check_envelope(v: &Value) -> (r: Result<(), ParseError>)
    ensures
        match r {
            Ok(_) => envelope_error(value_tree(*v)) is None,
            Err(e) => envelope_error(value_tree(*v)) == Some(e@),
        },
{
    if !value_is_object(v) {
        return Err(ParseError::InvalidJson("expected object".to_owned()));
    }
    match string_member(v, "jsonrpc") {
        None => Err(ParseError::MissingField("jsonrpc")),
        Some(version) => {
            let found = version.to_owned();
            let wanted = "2.0".to_owned();
            if found == wanted {
                Ok(())
            } else {
                Err(ParseError::InvalidVersion(found))
            }
        },
    }
}

/// Copies the members of an object into a parameter list.
fn copy_params(v: &Value) -> (r: Params)
    requires
        value_tree(*v) is Object,
    ensures
        r.wf(),
        r@ == members(value_tree(*v)),
{
    let keys = object_keys(v);
    let mut entries: Vec<(String, Value)> = Vec::new();
    let mut i: usize = 0;
    while i < keys.len()
        invariant
            i <= keys.len(),
            entries.len() == i,
            value_tree(*v) is Object,
            forall|j: int|
                0 <= j < keys.len() ==> members(value_tree(*v)).contains_key(#[trigger] keys[j]@),
            forall|j: int|
                0 <= j < i ==> (#[trigger] entries[j]).0@ == keys[j]@ && value_tree(entries[j].1)
                    == members(value_tree(*v))[keys[j]@],
        decreases keys.len() - i,
    {
        let key = &keys[i];
        let found = value_get(v, key.as_str());
        assert(found is Some);
        let member = found.unwrap();
        entries.push((key.clone(), member.clone()));
        i += 1;
    }
    proof {
        let s = entries@;
        let m = members(value_tree(*v));
        assert forall|k: Seq<char>| entries_map(s).contains_key(k) implies m.contains_key(k) by {
            let c = entry_index(s, k);
            assert(s[c].0@ == keys[c]@);
        }
        assert forall|k: Seq<char>| m.contains_key(k) implies entries_map(s).contains_key(k) by {
            let c = choose|c: int| 0 <= c < keys.len() && keys[c]@ == k;
            assert(s[c].0@ == k);
        }
        assert forall|k: Seq<char>| entries_map(s).contains_key(k) implies entries_map(s)[k]
            == m[k] by {
            let c = entry_index(s, k);
            assert(s[c].0@ == keys[c]@);
        }
        assert(entries_map(s) =~= m);
        assert(distinct_keys(s)) by {
            assert forall|a: int, b: int| 0 <= a < b < s.len() implies (#[trigger] s[a]).0@ != (
            #[trigger] s[b]).0@ by {
                assert(s[a].0@ == keys[a]@);
                assert(s[b].0@ == keys[b]@);
            }
        }
    }
    Params { entries }
}

/// Decodes a parsed JSON value as a request. The rules are checked in a
/// fixed order and the first one broken is the error returned.
pub fn decode_request(v: &Value) -> (r: Result<JsonRpcRequest, ParseError>)
    ensures
        request_outcome(r) == decode_request_spec(value_tree(*v)),
        r matches Ok(q) ==> q.wf(),
{
    if let Err(e) = check_envelope(v) {
        return Err(e);
    }
    let id = match value_get(v, "id") {
        None => { return Err(ParseError::MissingField("id")); },
        Some(f) => match parse_id(f) {
            Ok(id) => id,
            Err(e) => { return Err(e); },
        },
    };
    let method = match string_member(v, "method") {
        None => { return Err(ParseError::MissingField("method")); },
        Some(m) => m.to_owned(),
    };
    let params = match value_get(v, "params") {
        None => None,
        Some(p) => {
            if value_is_object(p) {
                Some(copy_params(p))
            } else if value_is_null(p) {
                None
            } else {
                return Err(ParseError::InvalidFieldType("params", "object or null"));
            }
        },
    };
    Ok(JsonRpcRequest { jsonrpc: "2.0".to_owned(), id, method, params })
}

/// Decodes a parsed JSON value as a success response. A missing `id` is
/// taken as null; `result` is required and kept as it is.
pub fn decode_response(v: &Value) -> (r: Result<JsonRpcResponse, ParseError>)
    ensures
        response_outcome(r) == decode_response_spec(value_tree(*v)),
{
    if let Err(e) = check_envelope(v) {
        return Err(e);
    }
    let id = match value_get(v, "id") {
        None => RequestId::Null,
        Some(f) => match parse_id(f) {
            Ok(id) => id,
            Err(e) => { return Err(e); },
        },
    };
    let result = match value_get(v, "result") {
        None => { return Err(ParseError::MissingField("result")); },
        Some(f) => f.clone(),
    };
    Ok(JsonRpcResponse { jsonrpc: "2.0".to_owned(), id, result })
}

/// Parses a text and decodes it as a request.
pub fn parse_request_impl(input: &str) -> (r: Result<JsonRpcRequest, ParseError>)
    ensures
        request_outcome(r) == request_of_text(input@),
        r matches Ok(q) ==> q.wf(),
{
    match parse_text(input) {
        Ok(v) => decode_request(&v),
        Err(d) => Err(ParseError::InvalidJson(d)),
    }
}

/// Parses a text and decodes it as a success response.
pub fn parse_response_impl(input: &str) -> (r: Result<JsonRpcResponse, ParseError>)
    ensures
        response_outcome(r) == response_of_text(input@),
{
    match parse_text(input) {
        Ok(v) => decode_response(&v),
        Err(d) => Err(ParseError::InvalidJson(d)),
    }
}

/// Decodes each text as a request, in order. Either every text decodes and
/// the requests come back in the order of the texts, or the error of the
/// first text that fails is returned and nothing else.
pub fn parse_requests_batch(inputs: Vec<&str>) -> (r: Result<Vec<JsonRpcRequest>, ParseError>)
    ensures
        match r {
            Ok(out) => out.len() == inputs.len() && forall|i: int|
                0 <= i < inputs.len() ==> request_of_text(inputs[i]@) == Ok::<
                    RequestView,
                    ErrorView,
                >((#[trigger] out[i])@) && out[i].wf(),
            Err(e) => exists|k: int|
                0 <= k < inputs.len() && request_of_text((#[trigger] inputs[k])@) == Err::<
                    RequestView,
                    ErrorView,
                >(e@) && forall|j: int|
                    0 <= j < k ==> request_of_text((#[trigger] inputs[j])@) is Ok,
        },
{
    let mut out: Vec<JsonRpcRequest> = Vec::new();
    let mut i: usize = 0;
    while i < inputs.len()
        invariant
            i <= inputs.len(),
            out.len() == i,
            forall|j: int|
                0 <= j < i ==> request_of_text(inputs[j]@) == Ok::<RequestView, ErrorView>(
                    (#[trigger] out[j])@,
                ) && out[j].wf(),
        decreases inputs.len() - i,
    {
        match parse_request_impl(inputs[i]) {
            Ok(q) => {
                out.push(q);
            },
            Err(e) => {
                proof {
                    assert(request_of_text(inputs[i as int]@) == Err::<RequestView, ErrorView>(e@));
                    assert forall|j: int| 0 <= j < i implies request_of_text(
                        (#[trigger] inputs[j])@,
                    ) is Ok by {
                        let q = out[j];
                    }
                }
                return Err(e);
            },
        }
        i += 1;
    }
    Ok(out)
}

} // verus!
