//! What holds of the decoders on whole classes of inputs.

use crate::decode::{
    decode_id_spec, decode_request_spec, decode_response_spec, envelope_error, request_of_text,
    response_of_text,
};
use crate::encode::{request_tree, response_tree};
use crate::error::ErrorView;
use crate::json::{json_parse, json_text, lookup, tree_as_i64, JsonNumber, JsonTree};
use crate::message::{IdView, RequestView, ResponseView};
use crate::validate::plausible;
use vstd::prelude::*;

verus! {

/// A text parses to an object whose `jsonrpc` is the string "2.0".
pub open spec fn has_sound_envelope(text: Seq<char>) -> bool {
    json_parse(text) matches Ok(t) && t is Object && lookup(t, "jsonrpc"@) == Some(
        JsonTree::String("2.0"@),
    )
}

/// A value that an identifier may be: a string, an integer within the
/// signed 64-bit range, or null.
pub open spec fn is_identifier(t: JsonTree) -> bool {
    t is String || tree_as_i64(t) is Some || t is Null
}

/// A well-formed request decodes, and every field of the record is the
/// field of the input: the identifier in its decoded variant, the method,
/// and the parameters as a lookup table, absent where the input has none or
/// has null.
pub proof fn lemma_well_formed_request_decodes(text: Seq<char>)
    requires
        has_sound_envelope(text),
        lookup(json_parse(text)->Ok_0, "id"@) matches Some(i) && is_identifier(i),
        lookup(json_parse(text)->Ok_0, "method"@) matches Some(JsonTree::String(_)),
        lookup(json_parse(text)->Ok_0, "params"@) matches Some(p) ==> p is Null || p is Object,
    ensures
        request_of_text(text) matches Ok(q) && {
            let t = json_parse(text)->Ok_0;
            &&& q.jsonrpc == "2.0"@
            &&& Ok::<IdView, ErrorView>(q.id) == decode_id_spec(lookup(t, "id"@)->Some_0)
            &&& JsonTree::String(q.method) == lookup(t, "method"@)->Some_0
            &&& match q.params {
                Some(m) => lookup(t, "params"@) == Some(JsonTree::Object(m)),
                None => lookup(t, "params"@) is None || lookup(t, "params"@) == Some(
                    JsonTree::Null,
                ),
            }
        },
{
}

/// An identifier decodes to the variant of its JSON type and keeps its
/// value.
pub proof fn lemma_identifier_keeps_value(t: JsonTree)
    requires
        is_identifier(t),
    ensures
        match decode_id_spec(t) {
            Ok(IdView::String(s)) => t == JsonTree::String(s),
            Ok(IdView::Number(n)) => t == JsonTree::Number(JsonNumber::Int(n as int)),
            Ok(IdView::Null) => t is Null,
            Err(_) => false,
        },
{
}

/// An object without `jsonrpc`, or with one that is no string, is refused
/// for the missing field `jsonrpc`, as a request and as a response.
pub proof fn lemma_version_missing(text: Seq<char>)
    requires
        json_parse(text) matches Ok(t) && t is Object && !(lookup(t, "jsonrpc"@) matches Some(
            JsonTree::String(_),
        )),
    ensures
        request_of_text(text) == Err::<RequestView, ErrorView>(
            ErrorView::MissingField("jsonrpc"@),
        ),
        response_of_text(text) == Err::<ResponseView, ErrorView>(
            ErrorView::MissingField("jsonrpc"@),
        ),
{
}

/// An object whose `jsonrpc` is a string other than "2.0" is refused with
/// that very string, as a request and as a response.
pub proof fn lemma_version_mismatch(text: Seq<char>, found: Seq<char>)
    requires
        json_parse(text) matches Ok(t) && t is Object && lookup(t, "jsonrpc"@) == Some(
            JsonTree::String(found),
        ),
        found != "2.0"@,
    ensures
        request_of_text(text) == Err::<RequestView, ErrorView>(ErrorView::InvalidVersion(found)),
        response_of_text(text) == Err::<ResponseView, ErrorView>(
            ErrorView::InvalidVersion(found),
        ),
{
}

/// A JSON value that is a number with a fractional part, an integer beyond
/// the signed 64-bit range, a boolean, an array or an object is no
/// identifier.
pub proof fn lemma_not_an_identifier(t: JsonTree)
    requires
        t is Bool || t is Array || t is Object || (t is Number && tree_as_i64(t) is None),
    ensures
        decode_id_spec(t) == Err::<IdView, ErrorView>(ErrorView::InvalidId),
{
}

/// Behind a sound envelope, an `id` that is no identifier has the message
/// refused as `InvalidId`, as a request and as a response.
pub proof fn lemma_bad_identifier_refused(text: Seq<char>)
    requires
        has_sound_envelope(text),
        lookup(json_parse(text)->Ok_0, "id"@) matches Some(i) && !is_identifier(i),
    ensures
        request_of_text(text) == Err::<RequestView, ErrorView>(ErrorView::InvalidId),
        response_of_text(text) == Err::<ResponseView, ErrorView>(ErrorView::InvalidId),
{
}

/// The two decoders differ on a missing `id`: a request is refused for the
/// missing field, a response takes the identifier to be null and goes on to
/// `result`.
pub proof fn lemma_missing_id_asymmetry(text: Seq<char>)
    requires
        has_sound_envelope(text),
        lookup(json_parse(text)->Ok_0, "id"@) is None,
    ensures
        request_of_text(text) == Err::<RequestView, ErrorView>(ErrorView::MissingField("id"@)),
        match lookup(json_parse(text)->Ok_0, "result"@) {
            Some(res) => response_of_text(text) == Ok::<ResponseView, ErrorView>(
                ResponseView { jsonrpc: "2.0"@, id: IdView::Null, result: res },
            ),
            None => response_of_text(text) == Err::<ResponseView, ErrorView>(
                ErrorView::MissingField("result"@),
            ),
        },
{
}

/// Decoding is all or nothing and fails on the envelope first: whatever
/// else a value holds, a broken envelope is the error reported.
pub proof fn lemma_envelope_checked_first(t: JsonTree)
    requires
        envelope_error(t) is Some,
    ensures
        decode_request_spec(t) == Err::<RequestView, ErrorView>(envelope_error(t)->Some_0),
        decode_response_spec(t) == Err::<ResponseView, ErrorView>(envelope_error(t)->Some_0),
{
}

/// A decoded record always names version "2.0".
pub proof fn lemma_decoded_version(t: JsonTree)
    ensures
        decode_request_spec(t) matches Ok(q) ==> q.jsonrpc == "2.0"@,
        decode_response_spec(t) matches Ok(p) ==> p.jsonrpc == "2.0"@,
{
}

/// A text that the admission filter lets through has a sound envelope: a
/// decoder can still refuse it, but only for a field behind the version.
pub proof fn lemma_filter_implies_envelope(text: Seq<char>)
    requires
        plausible(text),
    ensures
        has_sound_envelope(text),
        envelope_error(json_parse(text)->Ok_0) is None,
{
}

/// A text that does not parse, or that lacks a sound envelope, is turned
/// away by the admission filter.
pub proof fn lemma_filter_rejects(text: Seq<char>)
    requires
        !has_sound_envelope(text),
    ensures
        !plausible(text),
{
}

/// The names of the fields are five different strings.
pub proof fn lemma_field_names_differ()
    ensures
        "jsonrpc"@ != "id"@,
        "jsonrpc"@ != "method"@,
        "jsonrpc"@ != "params"@,
        "jsonrpc"@ != "result"@,
        "id"@ != "method"@,
        "id"@ != "params"@,
        "id"@ != "result"@,
        "method"@ != "params"@,
        "method"@ != "result"@,
        "params"@ != "result"@,
{
    reveal_strlit("jsonrpc");
    reveal_strlit("id");
    reveal_strlit("method");
    reveal_strlit("params");
    reveal_strlit("result");
    assert("jsonrpc"@.len() == 7);
    assert("id"@.len() == 2);
    assert("method"@[0] == 'm');
    assert("params"@[0] == 'p');
    assert("result"@[0] == 'r');
}

/// Writing a decoded request as a JSON value and decoding that value gives
/// the same request again.
pub proof fn lemma_request_round_trip(t: JsonTree, q: RequestView)
    requires
        decode_request_spec(t) == Ok::<RequestView, ErrorView>(q),
    ensures
        decode_request_spec(request_tree(q)) == Ok::<RequestView, ErrorView>(q),
{
    lemma_field_names_differ();
    let back = request_tree(q);
    assert(q.jsonrpc == "2.0"@);
    assert(lookup(back, "jsonrpc"@) == Some(JsonTree::String(q.jsonrpc)));
    assert(lookup(back, "id"@) == Some(crate::encode::id_tree(q.id)));
    assert(lookup(back, "method"@) == Some(JsonTree::String(q.method)));
    assert(decode_id_spec(crate::encode::id_tree(q.id)) == Ok::<IdView, ErrorView>(q.id));
    assert(decode_request_spec(back) is Ok);
    let again = decode_request_spec(back)->Ok_0;
    assert(again.params == q.params);
}

/// Writing a decoded response as a JSON value and decoding that value gives
/// the same response again.
pub proof fn lemma_response_round_trip(t: JsonTree, p: ResponseView)
    requires
        decode_response_spec(t) == Ok::<ResponseView, ErrorView>(p),
    ensures
        decode_response_spec(response_tree(p)) == Ok::<ResponseView, ErrorView>(p),
{
    lemma_field_names_differ();
    let back = response_tree(p);
    assert(p.jsonrpc == "2.0"@);
    assert(lookup(back, "jsonrpc"@) == Some(JsonTree::String(p.jsonrpc)));
    assert(lookup(back, "id"@) == Some(crate::encode::id_tree(p.id)));
    assert(lookup(back, "result"@) == Some(p.result));
    assert(decode_id_spec(crate::encode::id_tree(p.id)) == Ok::<IdView, ErrorView>(p.id));
}

/// The same through text, for a request whose written text the parser reads
/// back as the value that was written: decoding the text gives the request
/// again.
pub proof fn lemma_request_text_round_trip(text: Seq<char>, q: RequestView)
    requires
        request_of_text(text) == Ok::<RequestView, ErrorView>(q),
        json_parse(json_text(request_tree(q))) == Ok::<JsonTree, Seq<char>>(request_tree(q)),
    ensures
        request_of_text(json_text(request_tree(q))) == Ok::<RequestView, ErrorView>(q),
{
    lemma_request_round_trip(json_parse(text)->Ok_0, q);
}

/// The same through text, for a response whose written text the parser
/// reads back as the value that was written.
pub proof fn lemma_response_text_round_trip(text: Seq<char>, p: ResponseView)
    requires
        response_of_text(text) == Ok::<ResponseView, ErrorView>(p),
        json_parse(json_text(response_tree(p))) == Ok::<JsonTree, Seq<char>>(response_tree(p)),
    ensures
        response_of_text(json_text(response_tree(p))) == Ok::<ResponseView, ErrorView>(p),
{
    lemma_response_round_trip(json_parse(text)->Ok_0, p);
}

} // verus!
