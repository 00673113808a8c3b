//! The tool dispatcher's two halves: decoding an untyped caller payload
//! into the typed request a tool expects, and encoding the typed result
//! — or any failure — back into a caller-agnostic payload.
//!
//! Every failure from every layer below is converted here into the one
//! error shape `{"error": <message>}`; nothing else ever escapes to the
//! caller.

use vstd::prelude::*;
use vstd::string::StringExecFns;
use crate::codec::decode_note;
use crate::codec::encode_notes;
use crate::codec::f_str_req;
use crate::codec::sf_str_req;
use crate::codec::spec_decode_note;
use crate::codec::spec_encode_note;
use crate::json::JsonValue;
use crate::json::JsonView;
use crate::json::obj_get;
use crate::json::lemma_view_of_json_fields;
use crate::json::view_of_json_fields;
use crate::note::Note;
use crate::note::NoteView;
use crate::transport::ApiError;
use crate::transport::ApiErrorView;
use crate::transport::message_of;
use crate::transport::lemma_message_nonempty;

verus! {

/// What a `{name: ...}` tool payload holds.
pub open spec fn spec_name_param(v: JsonView) -> Option<Seq<char>> {
    match v {
        JsonView::Obj(f) => sf_str_req(f, "name"@),
        _ => None,
    }
}

/// Decodes the one-field payload that names a note.
pub fn decode_name_param(v: &JsonValue) -> (r: Result<String, ApiError>)
    ensures
        spec_name_param(v@) matches Some(nm) ==> (r matches Ok(s) && s@ == nm),
        spec_name_param(v@) is None ==> (r matches Err(e) && e@ == ApiErrorView::Decode),
{
    match v {
        JsonValue::Obj(fields) => match f_str_req(fields, "name") {
            Some(s) => Ok(s),
            None => Err(ApiError::Decode),
        },
        _ => Err(ApiError::Decode),
    }
}

/// Decodes a full note payload.
pub fn decode_note_param(v: &JsonValue) -> (r: Result<Note, ApiError>)
    ensures
        spec_decode_note(v@) matches Some(nv) ==> (r matches Ok(n) && n@ == nv),
        spec_decode_note(v@) is None ==> (r matches Err(e) && e@ == ApiErrorView::Decode),
{
    match decode_note(v) {
        Some(n) => Ok(n),
        None => Err(ApiError::Decode),
    }
}

/// What a comment-creation payload holds: the parent note's name and
/// the comment itself.
pub open spec fn spec_comment_param(v: JsonView) -> Option<(Seq<char>, NoteView)> {
    match v {
        JsonView::Obj(f) => {
            let name = sf_str_req(f, "memo_name"@);
            let comment = match obj_get(f, "comment"@) {
                Some(c) => spec_decode_note(c),
                None => None,
            };
            if name is Some && comment is Some {
                Some((name->Some_0, comment->Some_0))
            } else {
                None
            }
        },
        _ => None,
    }
}

/// Decodes a comment-creation payload.
pub fn decode_comment_param(v: &JsonValue) -> (r: Result<(String, Note), ApiError>)
    ensures
        spec_comment_param(v@) matches Some(p) ==> (r matches Ok(q) && (q.0@, q.1@) == p),
        spec_comment_param(v@) is None ==> (r matches Err(e) && e@ == ApiErrorView::Decode),
{
    match v {
        JsonValue::Obj(fields) => {
            let name = match f_str_req(fields, "memo_name") {
                Some(x) => x,
                None => {
                    return Err(ApiError::Decode);
                },
            };
            let k = String::from_str("comment");
            let comment = match JsonValue::lookup(fields, &k) {
                Some(c) => match decode_note(c) {
                    Some(n) => n,
                    None => {
                        return Err(ApiError::Decode);
                    },
                },
                None => {
                    return Err(ApiError::Decode);
                },
            };
            Ok((name, comment))
        },
        _ => Err(ApiError::Decode),
    }
}

/// A mutating tool needs the note's name; a payload without one is a
/// caller contract violation, refused before any request is built, so
/// no exchange is ever issued for it.
pub fn require_name(note: &Note) -> (r: Result<String, ApiError>)
    ensures
        note@.name matches Some(nm) ==> (r matches Ok(s) && s@ == nm),
        note@.name is None ==> (r matches Err(e) && e@ == ApiErrorView::MissingName),
{
    match &note.name {
        Some(nm) => Ok(nm.clone()),
        None => Err(ApiError::MissingName),
    }
}

/// The one caller-visible error shape.
pub open spec fn error_payload(e: ApiErrorView) -> JsonView {
    JsonView::Obj(seq![("error"@, JsonView::Str(message_of(e)))])
}

/// The error payload always carries a non-empty message under the one
/// `error` key: no failure ever looks like a success payload.
pub proof fn lemma_error_payload_shape(e: ApiErrorView)
    ensures
        error_payload(e) == JsonView::Obj(seq![("error"@, JsonView::Str(message_of(e)))]),
        message_of(e).len() > 0,
{
    lemma_message_nonempty(e);
}

/// Encodes a tool outcome: a success payload passes through untouched,
/// every failure becomes `{"error": <message>}` and nothing else.
pub fn encode_outcome(outcome: Result<JsonValue, ApiError>) -> (r: JsonValue)
    ensures
        outcome matches Ok(v) ==> r@ == v@,
        outcome matches Err(e) ==> r@ == error_payload(e@),
        outcome matches Err(e) ==> message_of(e@).len() > 0,
{
    match outcome {
        Ok(v) => v,
        Err(e) => {
            proof {
                lemma_message_nonempty(e@);
            }
            let mut fs: Vec<(String, JsonValue)> = Vec::new();
            fs.push((String::from_str("error"), JsonValue::Str(e.message())));
            proof {
                lemma_view_of_json_fields(fs@);
                assert(view_of_json_fields(fs@) =~= error_payload(e@)->Obj_0);
            }
            JsonValue::Obj(fs)
        },
    }
}

/// The payload of a successful listing: the notes as one wire array.
pub fn notes_payload(notes: &Vec<Note>) -> (r: JsonValue)
    ensures
        r@ == JsonView::Arr(notes.deep_view().map_values(|n: NoteView| spec_encode_note(n))),
{
    JsonValue::Arr(encode_notes(notes))
}

/// The payload of a successful deletion.
pub fn success_payload() -> (r: JsonValue)
    ensures
        r@ == JsonView::Obj(seq![("status"@, JsonView::Str("success"@))]),
{
    let mut fs: Vec<(String, JsonValue)> = Vec::new();
    fs.push((String::from_str("status"), JsonValue::Str(String::from_str("success"))));
    proof {
        lemma_view_of_json_fields(fs@);
        assert(view_of_json_fields(fs@) =~= seq![
            ("status"@, JsonView::Str("success"@)),
        ]);
    }
    JsonValue::Obj(fs)
}

} // verus!
