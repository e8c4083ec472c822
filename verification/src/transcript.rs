//! Retrieving the transcript from a persisted transcription-job result.
//!
//! The persisted result is a JSON document; its transcript sits under
//! `results.transcripts`, an array of objects each carrying a
//! `transcript` string, and the retrieved transcript is those strings in
//! order. The document tree is modeled by `JsonValue`, so the shape
//! rules — and exactly which documents are malformed — are verified;
//! only the JSON parse itself is delegated to an outside parser.

use vstd::prelude::*;

use crate::errors::CoreError;
use crate::strutil::str_eq;

verus! {

/// A parsed JSON document. Numbers carry no payload: no rule here reads
/// one, and the core holds no floating point.
#[derive(Debug)]
pub enum JsonValue {
    Null,
    Bool(bool),
    Number,
    Text(String),
    Array(Vec<JsonValue>),
    Object(Vec<(String, JsonValue)>),
}

/// The value under the first member with the given key.
pub open spec fn member_lookup(members: Seq<(String, JsonValue)>, key: Seq<char>) -> Option<
    JsonValue,
>
    decreases members.len(),
{
    if members.len() == 0 {
        None
    } else if members[0].0@ == key {
        Some(members[0].1)
    } else {
        member_lookup(members.drop_first(), key)
    }
}

/// The transcript text of the entries of the `transcripts` array, in
/// order; `None` when any entry is not an object carrying a `transcript`
/// string.
pub open spec fn transcript_parts(entries: Seq<JsonValue>) -> Option<Seq<char>>
    decreases entries.len(),
{
    if entries.len() == 0 {
        Some(Seq::empty())
    } else {
        match entries[0] {
            JsonValue::Object(members) => match member_lookup(members@, "transcript"@) {
                Some(JsonValue::Text(part)) => match transcript_parts(entries.drop_first()) {
                    Some(rest) => Some(part@ + rest),
                    None => None,
                },
                _ => None,
            },
            _ => None,
        }
    }
}

/// The transcript a well-shaped job result document yields: the
/// document is an object, `results` is an object, `transcripts` is an
/// array, and every entry contributes its `transcript` string. `None`
/// for any other shape.
pub open spec fn extract_spec(doc: JsonValue) -> Option<Seq<char>> {
    match doc {
        JsonValue::Object(members) => match member_lookup(members@, "results"@) {
            Some(JsonValue::Object(results)) => match member_lookup(results@, "transcripts"@) {
                Some(JsonValue::Array(entries)) => transcript_parts(entries@),
                _ => None,
            },
            _ => None,
        },
        _ => None,
    }
}

/// The value under the first member with the given key.
fn find_member<'a>(members: &'a Vec<(String, JsonValue)>, key: &str) -> (r: Option<&'a JsonValue>)
    ensures
        match member_lookup(members@, key@) {
            Some(v) => r matches Some(found) && *found == v,
            None => r is None,
        },
{
    let n = members.len();
    let mut i: usize = 0;
    proof {
        assert(members@.skip(0) =~= members@);
    }
    while i < n
        invariant
            n == members@.len(),
            i <= n,
            member_lookup(members@, key@) == member_lookup(members@.skip(i as int), key@),
        decreases n - i,
    {
        proof {
            assert(members@.skip(i as int)[0] == members@[i as int]);
            assert(members@.skip(i as int).drop_first() =~= members@.skip(i as int + 1));
        }
        if str_eq(members[i].0.as_str(), key) {
            return Some(&members[i].1);
        }
        i += 1;
    }
    proof {
        assert(members@.skip(n as int) =~= Seq::<(String, JsonValue)>::empty());
    }
    None
}

fn collect_parts(entries: &Vec<JsonValue>, i: usize) -> (r: Option<String>)
    requires
        i <= entries@.len(),
    ensures
        match transcript_parts(entries@.skip(i as int)) {
            Some(t) => r matches Some(s) && s@ == t,
            None => r is None,
        },
    decreases entries@.len() - i,
{
    if i == entries.len() {
        proof {
            assert(entries@.skip(i as int) =~= Seq::<JsonValue>::empty());
        }
        return Some(String::new());
    }
    proof {
        assert(entries@.skip(i as int)[0] == entries@[i as int]);
        assert(entries@.skip(i as int).drop_first() =~= entries@.skip(i as int + 1));
    }
    match &entries[i] {
        JsonValue::Object(members) => {
            match find_member(members, "transcript") {
                Some(JsonValue::Text(part)) => {
                    match collect_parts(entries, i + 1) {
                        Some(rest) => {
                            let mut out = part.clone();
                            out.append(rest.as_str());
                            Some(out)
                        },
                        None => None,
                    }
                },
                _ => None,
            }
        },
        _ => None,
    }
}

/// Retrieves the transcript from a parsed job result document: the
/// `transcript` strings under `results.transcripts`, concatenated in
/// order. Any other document shape is a malformed result and fails with
/// a `Parse` error — fatal for this one retrieval, nothing else.
pub fn extract_transcript(doc: &JsonValue) -> (r: Result<String, CoreError>)
    ensures
        match extract_spec(*doc) {
            Some(t) => r matches Ok(s) && s@ == t,
            None => r matches Err(e) && e matches CoreError::Parse { detail } && detail@
                == "the job result does not hold transcripts"@,
        },
{
    let malformed = || -> (e: CoreError)
        ensures
            e matches CoreError::Parse { detail } && detail@
                == "the job result does not hold transcripts"@,
        { CoreError::Parse { detail: String::from_str("the job result does not hold transcripts") } };
    match doc {
        JsonValue::Object(members) => {
            match find_member(members, "results") {
                Some(JsonValue::Object(results)) => {
                    match find_member(results, "transcripts") {
                        Some(JsonValue::Array(entries)) => {
                            proof {
                                assert(entries@.skip(0) =~= entries@);
                            }
                            match collect_parts(entries, 0) {
                                Some(text) => Ok(text),
                                None => Err(malformed()),
                            }
                        },
                        _ => Err(malformed()),
                    }
                },
                _ => Err(malformed()),
            }
        },
        _ => Err(malformed()),
    }
}

#[verifier::external_type_specification]
#[verifier::external_body]
pub struct ExSerdeValue(serde_json::Value);

pub uninterp spec fn json_doc_of(text: Seq<char>) -> Option<JsonValue>;

/// Relies on serde_json::from_str: whether a text parses as JSON, and
/// the value tree it parses to, depend on the text alone.
#[verifier::external_body]
fn parse_json(text: &str) -> (r: Option<JsonValue>)
    ensures
        r == json_doc_of(text@),
{
    match serde_json::from_str::<serde_json::Value>(text) {
        Ok(v) => Some(value_tree(&v)),
        Err(_) => None,
    }
}

/// Relies on the variants of serde_json::Value: each is carried over to
/// the matching `JsonValue` variant, members and elements in order.
#[verifier::external_body]
fn value_tree(v: &serde_json::Value) -> JsonValue {
    match v {
        serde_json::Value::Null => JsonValue::Null,
        serde_json::Value::Bool(b) => JsonValue::Bool(*b),
        serde_json::Value::Number(_) => JsonValue::Number,
        serde_json::Value::String(s) => JsonValue::Text(s.clone()),
        serde_json::Value::Array(items) => JsonValue::Array(items.iter().map(value_tree).collect()),
        serde_json::Value::Object(members) => JsonValue::Object(
            members.iter().map(|(k, x)| (k.clone(), value_tree(x))).collect(),
        ),
    }
}

/// Retrieves the transcript from the text of a persisted job result:
/// parses it as JSON and extracts the `transcript` strings under
/// `results.transcripts`. A text that is not JSON, or a document of any
/// other shape, is a malformed result and fails with a `Parse` error.
pub fn transcript_from_text(text: &str) -> (r: Result<String, CoreError>)
    ensures
        match json_doc_of(text@) {
            None => r matches Err(e) && e matches CoreError::Parse { detail } && detail@
                == "the job result is not valid JSON"@,
            Some(doc) => match extract_spec(doc) {
                Some(t) => r matches Ok(s) && s@ == t,
                None => r matches Err(e) && e matches CoreError::Parse { detail } && detail@
                    == "the job result does not hold transcripts"@,
            },
        },
{
    match parse_json(text) {
        Some(doc) => extract_transcript(&doc),
        None => Err(
            CoreError::Parse { detail: String::from_str("the job result is not valid JSON") },
        ),
    }
}

} // verus!
