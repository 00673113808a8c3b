//! The JSON wire codec for every entity the client exchanges.
//!
//! Each entity has a spec-level encoder and decoder over views, an
//! executable pair proved against them, and a round-trip law: decoding
//! an encoded value gives the value back.

use vstd::prelude::*;
use vstd::string::StringExecFns;
use crate::json::JsonValue;
use crate::json::JsonView;
use crate::json::obj_get;
use crate::json::view_of_json_fields;
use crate::json::view_of_json_seq;
use crate::json::lemma_view_of_json_fields;
use crate::json::lemma_view_of_json_seq;
use crate::note::Attachment;
use crate::note::AttachmentView;
use crate::note::Note;
use crate::note::NoteView;
use crate::note::Reaction;
use crate::note::ReactionView;
use crate::note::Relation;
use crate::note::RelationView;
use crate::note::State;
use crate::note::Visibility;
use crate::note::RelationType;
use crate::note::state_wire;
use crate::note::state_of_wire;
use crate::note::visibility_wire;
use crate::note::visibility_of_wire;
use crate::note::relation_type_wire;
use crate::note::relation_type_of_wire;
use crate::note::lemma_state_wire_round;
use crate::note::lemma_visibility_wire_round;
use crate::note::lemma_relation_type_wire_round;

verus! {

// ---------------------------------------------------------------------
// Field readers: how one field of a JSON object is interpreted. `None`
// as the outer option always means the object is malformed.
// ---------------------------------------------------------------------
/// A required string field.
pub open spec fn sf_str_req(f: Seq<(Seq<char>, JsonView)>, key: Seq<char>) -> Option<Seq<char>> {
    match obj_get(f, key) {
        Some(JsonView::Str(s)) => Some(s),
        _ => None,
    }
}

/// A string field that defaults to empty when missing.
pub open spec fn sf_str_def(f: Seq<(Seq<char>, JsonView)>, key: Seq<char>) -> Option<Seq<char>> {
    match obj_get(f, key) {
        Some(JsonView::Str(s)) => Some(s),
        None => Some(Seq::empty()),
        _ => None,
    }
}

/// An optional string field that defaults to absent when missing.
pub open spec fn sf_opt_str_def(f: Seq<(Seq<char>, JsonView)>, key: Seq<char>) -> Option<
    Option<Seq<char>>,
> {
    match obj_get(f, key) {
        Some(JsonView::Str(s)) => Some(Some(s)),
        Some(JsonView::Null) => Some(None),
        None => Some(None),
        _ => None,
    }
}

/// A boolean field that defaults to false when missing.
pub open spec fn sf_bool_def(f: Seq<(Seq<char>, JsonView)>, key: Seq<char>) -> Option<bool> {
    match obj_get(f, key) {
        Some(JsonView::Bool(b)) => Some(b),
        None => Some(false),
        _ => None,
    }
}

/// A free-form field that defaults to null when missing.
pub open spec fn sf_json_def(f: Seq<(Seq<char>, JsonView)>, key: Seq<char>) -> JsonView {
    match obj_get(f, key) {
        Some(v) => v,
        None => JsonView::Null,
    }
}

/// An optional free-form field: absent when missing or null.
pub open spec fn sf_opt_json_def(f: Seq<(Seq<char>, JsonView)>, key: Seq<char>) -> Option<
    JsonView,
> {
    match obj_get(f, key) {
        Some(JsonView::Null) => None,
        Some(v) => Some(v),
        None => None,
    }
}

pub fn f_str_req(fields: &Vec<(String, JsonValue)>, key: &str) -> (r: Option<String>)
    ensures
        r.deep_view() == sf_str_req(view_of_json_fields(fields@), key@),
{
    let k = String::from_str(key);
    match JsonValue::lookup(fields, &k) {
        Some(JsonValue::Str(s)) => Some(s.clone()),
        _ => None,
    }
}

pub fn f_str_def(fields: &Vec<(String, JsonValue)>, key: &str) -> (r: Option<String>)
    ensures
        r.deep_view() == sf_str_def(view_of_json_fields(fields@), key@),
{
    let k = String::from_str(key);
    match JsonValue::lookup(fields, &k) {
        Some(JsonValue::Str(s)) => Some(s.clone()),
        None => Some(String::new()),
        _ => None,
    }
}

pub fn f_opt_str_def(fields: &Vec<(String, JsonValue)>, key: &str) -> (r: Option<Option<String>>)
    ensures
        r.deep_view() == sf_opt_str_def(view_of_json_fields(fields@), key@),
{
    let k = String::from_str(key);
    match JsonValue::lookup(fields, &k) {
        Some(JsonValue::Str(s)) => Some(Some(s.clone())),
        Some(JsonValue::Null) => Some(None),
        None => Some(None),
        _ => None,
    }
}

pub fn f_bool_def(fields: &Vec<(String, JsonValue)>, key: &str) -> (r: Option<bool>)
    ensures
        r == sf_bool_def(view_of_json_fields(fields@), key@),
{
    let k = String::from_str(key);
    match JsonValue::lookup(fields, &k) {
        Some(JsonValue::Bool(b)) => Some(*b),
        None => Some(false),
        _ => None,
    }
}

pub fn f_json_def(fields: &Vec<(String, JsonValue)>, key: &str) -> (r: JsonValue)
    ensures
        r@ == sf_json_def(view_of_json_fields(fields@), key@),
{
    let k = String::from_str(key);
    match JsonValue::lookup(fields, &k) {
        Some(v) => v.duplicate(),
        None => JsonValue::Null,
    }
}

pub fn f_opt_json_def(fields: &Vec<(String, JsonValue)>, key: &str) -> (r: Option<JsonValue>)
    ensures
        r.deep_view() == sf_opt_json_def(view_of_json_fields(fields@), key@),
{
    let k = String::from_str(key);
    match JsonValue::lookup(fields, &k) {
        Some(JsonValue::Null) => None,
        Some(v) => Some(v.duplicate()),
        None => None,
    }
}

/// How an optional string is put on the wire: absent becomes null.
pub open spec fn enc_opt_str(o: Option<Seq<char>>) -> JsonView {
    match o {
        Some(s) => JsonView::Str(s),
        None => JsonView::Null,
    }
}

fn encode_opt_str(o: &Option<String>) -> (r: JsonValue)
    ensures
        r@ == enc_opt_str(o.deep_view()),
{
    match o {
        Some(s) => JsonValue::Str(s.clone()),
        None => JsonValue::Null,
    }
}

// ---------------------------------------------------------------------
// Attachment
// ---------------------------------------------------------------------
pub open spec fn spec_encode_attachment(a: AttachmentView) -> JsonView {
    JsonView::Obj(
        seq![
            ("name"@, JsonView::Str(a.name)),
            ("createTime"@, JsonView::Str(a.create_time)),
            ("filename"@, JsonView::Str(a.filename)),
            ("externalLink"@, JsonView::Str(a.external_link)),
            ("type"@, JsonView::Str(a.mime_type)),
            ("size"@, JsonView::Str(a.size)),
            ("memo"@, JsonView::Str(a.memo)),
        ],
    )
}

pub open spec fn spec_decode_attachment(v: JsonView) -> Option<AttachmentView> {
    match v {
        JsonView::Obj(f) => {
            let name = sf_str_def(f, "name"@);
            let create_time = sf_str_def(f, "createTime"@);
            let filename = sf_str_def(f, "filename"@);
            let external_link = sf_str_def(f, "externalLink"@);
            let mime_type = sf_str_req(f, "type"@);
            let size = sf_str_def(f, "size"@);
            let memo = sf_str_def(f, "memo"@);
            if name is Some && create_time is Some && filename is Some && external_link is Some
                && mime_type is Some && size is Some && memo is Some {
                Some(
                    AttachmentView {
                        name: name->Some_0,
                        create_time: create_time->Some_0,
                        filename: filename->Some_0,
                        external_link: external_link->Some_0,
                        mime_type: mime_type->Some_0,
                        size: size->Some_0,
                        memo: memo->Some_0,
                    },
                )
            } else {
                None
            }
        },
        _ => None,
    }
}

/// Encodes an attachment to its wire object.
pub fn encode_attachment(a: &Attachment) -> (r: JsonValue)
    ensures
        r@ == spec_encode_attachment(a@),
{
    let mut fs: Vec<(String, JsonValue)> = Vec::new();
    fs.push((String::from_str("name"), JsonValue::Str(a.name.clone())));
    fs.push((String::from_str("createTime"), JsonValue::Str(a.create_time.clone())));
    fs.push((String::from_str("filename"), JsonValue::Str(a.filename.clone())));
    fs.push((String::from_str("externalLink"), JsonValue::Str(a.external_link.clone())));
    fs.push((String::from_str("type"), JsonValue::Str(a.mime_type.clone())));
    fs.push((String::from_str("size"), JsonValue::Str(a.size.clone())));
    fs.push((String::from_str("memo"), JsonValue::Str(a.memo.clone())));
    proof {
        lemma_view_of_json_fields(fs@);
        assert(view_of_json_fields(fs@) =~= spec_encode_attachment(a@)->Obj_0);
    }
    JsonValue::Obj(fs)
}

/// Decodes an attachment from its wire object.
pub fn decode_attachment(v: &JsonValue) -> (r: Option<Attachment>)
    ensures
        r.deep_view() == spec_decode_attachment(v@),
{
    match v {
        JsonValue::Obj(fields) => {
            let name = match f_str_def(fields, "name") {
                Some(x) => x,
                None => {
                    return None;
                },
            };
            let create_time = match f_str_def(fields, "createTime") {
                Some(x) => x,
                None => {
                    return None;
                },
            };
            let filename = match f_str_def(fields, "filename") {
                Some(x) => x,
                None => {
                    return None;
                },
            };
            let external_link = match f_str_def(fields, "externalLink") {
                Some(x) => x,
                None => {
                    return None;
                },
            };
            let mime_type = match f_str_req(fields, "type") {
                Some(x) => x,
                None => {
                    return None;
                },
            };
            let size = match f_str_def(fields, "size") {
                Some(x) => x,
                None => {
                    return None;
                },
            };
            let memo = match f_str_def(fields, "memo") {
                Some(x) => x,
                None => {
                    return None;
                },
            };
            Some(Attachment { name, create_time, filename, external_link, mime_type, size, memo })
        },
        _ => None,
    }
}

/// Decoding an encoded attachment gives the attachment back.
pub proof fn lemma_attachment_round(a: AttachmentView)
    ensures
        spec_decode_attachment(spec_encode_attachment(a)) == Some(a),
{
    reveal_strlit("name");
    reveal_strlit("createTime");
    reveal_strlit("filename");
    reveal_strlit("externalLink");
    reveal_strlit("type");
    reveal_strlit("size");
    reveal_strlit("memo");
    reveal_with_fuel(obj_get, 9);
    assert("name"@.len() == 4);
    assert("createTime"@.len() == 10);
    assert("filename"@.len() == 8);
    assert("externalLink"@.len() == 12);
    assert("type"@.len() == 4);
    assert("size"@.len() == 4);
    assert("memo"@.len() == 4);
    assert("name"@[0] == 'n' && "type"@[0] == 't' && "size"@[0] == 's' && "memo"@[0] == 'm');
    assert("name"@ != "type"@);
    assert("name"@ != "size"@);
    assert("name"@ != "memo"@);
    assert("type"@ != "size"@);
    assert("type"@ != "memo"@);
    assert("size"@ != "memo"@);
    let f = spec_encode_attachment(a)->Obj_0;
    assert(obj_get(f, "name"@) == Some(JsonView::Str(a.name)));
    assert(obj_get(f, "createTime"@) == Some(JsonView::Str(a.create_time)));
    assert(obj_get(f, "filename"@) == Some(JsonView::Str(a.filename)));
    assert(obj_get(f, "externalLink"@) == Some(JsonView::Str(a.external_link)));
    assert(obj_get(f, "type"@) == Some(JsonView::Str(a.mime_type)));
    assert(obj_get(f, "size"@) == Some(JsonView::Str(a.size)));
    assert(obj_get(f, "memo"@) == Some(JsonView::Str(a.memo)));
}

// ---------------------------------------------------------------------
// Enum wire tokens
// ---------------------------------------------------------------------
fn state_str(s: &State) -> (r: &'static str)
    ensures
        r@ == state_wire(*s),
{
    match s {
        State::StateUnspecified => "STATE_UNSPECIFIED",
        State::Normal => "NORMAL",
        State::Archived => "ARCHIVED",
    }
}

fn state_parse(s: &String) -> (r: Option<State>)
    ensures
        r == state_of_wire(s@),
{
    if *s == String::from_str("STATE_UNSPECIFIED") {
        Some(State::StateUnspecified)
    } else if *s == String::from_str("NORMAL") {
        Some(State::Normal)
    } else if *s == String::from_str("ARCHIVED") {
        Some(State::Archived)
    } else {
        None
    }
}

fn visibility_str(v: &Visibility) -> (r: &'static str)
    ensures
        r@ == visibility_wire(*v),
{
    match v {
        Visibility::VisibilityUnspecified => "VISIBILITY_UNSPECIFIED",
        Visibility::Private => "PRIVATE",
        Visibility::Protected => "PROTECTED",
        Visibility::Public => "PUBLIC",
    }
}

fn visibility_parse(s: &String) -> (r: Option<Visibility>)
    ensures
        r == visibility_of_wire(s@),
{
    if *s == String::from_str("VISIBILITY_UNSPECIFIED") {
        Some(Visibility::VisibilityUnspecified)
    } else if *s == String::from_str("PRIVATE") {
        Some(Visibility::Private)
    } else if *s == String::from_str("PROTECTED") {
        Some(Visibility::Protected)
    } else if *s == String::from_str("PUBLIC") {
        Some(Visibility::Public)
    } else {
        None
    }
}

fn relation_type_str(t: &RelationType) -> (r: &'static str)
    ensures
        r@ == relation_type_wire(*t),
{
    match t {
        RelationType::RelationTypeUnspecified => "TYPE_UNSPECIFIED",
        RelationType::Reference => "REFERENCE",
        RelationType::Comment => "COMMENT",
    }
}

fn relation_type_parse(s: &String) -> (r: Option<RelationType>)
    ensures
        r == relation_type_of_wire(s@),
{
    if *s == String::from_str("TYPE_UNSPECIFIED") {
        Some(RelationType::RelationTypeUnspecified)
    } else if *s == String::from_str("REFERENCE") {
        Some(RelationType::Reference)
    } else if *s == String::from_str("COMMENT") {
        Some(RelationType::Comment)
    } else {
        None
    }
}

// ---------------------------------------------------------------------
// Relation
// ---------------------------------------------------------------------
pub open spec fn spec_encode_relation(r: RelationView) -> JsonView {
    JsonView::Obj(
        seq![
            ("memo"@, r.memo),
            ("relatedMemo"@, r.related_memo),
            ("type"@, JsonView::Str(relation_type_wire(r.relation_type))),
        ],
    )
}

pub open spec fn spec_decode_relation(v: JsonView) -> Option<RelationView> {
    match v {
        JsonView::Obj(f) => {
            let memo = sf_json_def(f, "memo"@);
            let related_memo = sf_json_def(f, "relatedMemo"@);
            let rt = match obj_get(f, "type"@) {
                Some(JsonView::Str(s)) => relation_type_of_wire(s),
                _ => None,
            };
            if rt is Some {
                Some(RelationView { memo, related_memo, relation_type: rt->Some_0 })
            } else {
                None
            }
        },
        _ => None,
    }
}

/// Encodes a relation to its wire object.
pub fn encode_relation(r: &Relation) -> (res: JsonValue)
    ensures
        res@ == spec_encode_relation(r@),
{
    let mut fs: Vec<(String, JsonValue)> = Vec::new();
    fs.push((String::from_str("memo"), r.memo.duplicate()));
    fs.push((String::from_str("relatedMemo"), r.related_memo.duplicate()));
    fs.push(
        (String::from_str("type"), JsonValue::Str(String::from_str(
            relation_type_str(&r.relation_type),
        ))),
    );
    proof {
        lemma_view_of_json_fields(fs@);
        assert(view_of_json_fields(fs@) =~= spec_encode_relation(r@)->Obj_0);
    }
    JsonValue::Obj(fs)
}

/// Decodes a relation from its wire object.
pub fn decode_relation(v: &JsonValue) -> (r: Option<Relation>)
    ensures
        r.deep_view() == spec_decode_relation(v@),
{
    match v {
        JsonValue::Obj(fields) => {
            let memo = f_json_def(fields, "memo");
            let related_memo = f_json_def(fields, "relatedMemo");
            let rt = match f_str_req(fields, "type") {
                Some(x) => x,
                None => {
                    return None;
                },
            };
            let relation_type = match relation_type_parse(&rt) {
                Some(t) => t,
                None => {
                    return None;
                },
            };
            Some(Relation { memo, related_memo, relation_type })
        },
        _ => None,
    }
}

/// Decoding an encoded relation gives the relation back.
pub proof fn lemma_relation_round(r: RelationView)
    ensures
        spec_decode_relation(spec_encode_relation(r)) == Some(r),
{
    reveal_strlit("memo");
    reveal_strlit("relatedMemo");
    reveal_strlit("type");
    reveal_with_fuel(obj_get, 5);
    assert("memo"@.len() == 4);
    assert("relatedMemo"@.len() == 11);
    assert("type"@.len() == 4);
    assert("memo"@[0] == 'm' && "type"@[0] == 't');
    assert("memo"@ != "type"@);
    lemma_relation_type_wire_round(r.relation_type);
    let f = spec_encode_relation(r)->Obj_0;
    assert(obj_get(f, "memo"@) == Some(r.memo));
    assert(obj_get(f, "relatedMemo"@) == Some(r.related_memo));
    assert(obj_get(f, "type"@) == Some(
        JsonView::Str(relation_type_wire(r.relation_type)),
    ));
}

// ---------------------------------------------------------------------
// Reaction
// ---------------------------------------------------------------------
pub open spec fn spec_encode_reaction(r: ReactionView) -> JsonView {
    JsonView::Obj(
        seq![
            ("name"@, enc_opt_str(r.name)),
            ("creator"@, enc_opt_str(r.creator)),
            ("contentId"@, JsonView::Str(r.content_id)),
            ("reactionType"@, JsonView::Str(r.reaction_type)),
            ("createTime"@, enc_opt_str(r.create_time)),
        ],
    )
}

pub open spec fn spec_decode_reaction(v: JsonView) -> Option<ReactionView> {
    match v {
        JsonView::Obj(f) => {
            let name = sf_opt_str_def(f, "name"@);
            let creator = sf_opt_str_def(f, "creator"@);
            let content_id = sf_str_def(f, "contentId"@);
            let reaction_type = sf_str_def(f, "reactionType"@);
            let create_time = sf_opt_str_def(f, "createTime"@);
            if name is Some && creator is Some && content_id is Some && reaction_type is Some
                && create_time is Some {
                Some(
                    ReactionView {
                        name: name->Some_0,
                        creator: creator->Some_0,
                        content_id: content_id->Some_0,
                        reaction_type: reaction_type->Some_0,
                        create_time: create_time->Some_0,
                    },
                )
            } else {
                None
            }
        },
        _ => None,
    }
}

/// Encodes a reaction to its wire object.
pub fn encode_reaction(r: &Reaction) -> (res: JsonValue)
    ensures
        res@ == spec_encode_reaction(r@),
{
    let mut fs: Vec<(String, JsonValue)> = Vec::new();
    fs.push((String::from_str("name"), encode_opt_str(&r.name)));
    fs.push((String::from_str("creator"), encode_opt_str(&r.creator)));
    fs.push((String::from_str("contentId"), JsonValue::Str(r.content_id.clone())));
    fs.push((String::from_str("reactionType"), JsonValue::Str(r.reaction_type.clone())));
    fs.push((String::from_str("createTime"), encode_opt_str(&r.create_time)));
    proof {
        lemma_view_of_json_fields(fs@);
        assert(view_of_json_fields(fs@) =~= spec_encode_reaction(r@)->Obj_0);
    }
    JsonValue::Obj(fs)
}

/// Decodes a reaction from its wire object.
pub fn decode_reaction(v: &JsonValue) -> (r: Option<Reaction>)
    ensures
        r.deep_view() == spec_decode_reaction(v@),
{
    match v {
        JsonValue::Obj(fields) => {
            let name = match f_opt_str_def(fields, "name") {
                Some(x) => x,
                None => {
                    return None;
                },
            };
            let creator = match f_opt_str_def(fields, "creator") {
                Some(x) => x,
                None => {
                    return None;
                },
            };
            let content_id = match f_str_def(fields, "contentId") {
                Some(x) => x,
                None => {
                    return None;
                },
            };
            let reaction_type = match f_str_def(fields, "reactionType") {
                Some(x) => x,
                None => {
                    return None;
                },
            };
            let create_time = match f_opt_str_def(fields, "createTime") {
                Some(x) => x,
                None => {
                    return None;
                },
            };
            Some(Reaction { name, creator, content_id, reaction_type, create_time })
        },
        _ => None,
    }
}

/// Decoding an encoded reaction gives the reaction back.
pub proof fn lemma_reaction_round(r: ReactionView)
    ensures
        spec_decode_reaction(spec_encode_reaction(r)) == Some(r),
{
    reveal_strlit("name");
    reveal_strlit("creator");
    reveal_strlit("contentId");
    reveal_strlit("reactionType");
    reveal_strlit("createTime");
    reveal_with_fuel(obj_get, 7);
    assert("name"@.len() == 4);
    assert("creator"@.len() == 7);
    assert("contentId"@.len() == 9);
    assert("reactionType"@.len() == 12);
    assert("createTime"@.len() == 10);
    let f = spec_encode_reaction(r)->Obj_0;
    assert(obj_get(f, "name"@) == Some(enc_opt_str(r.name)));
    assert(obj_get(f, "creator"@) == Some(enc_opt_str(r.creator)));
    assert(obj_get(f, "contentId"@) == Some(JsonView::Str(r.content_id)));
    assert(obj_get(f, "reactionType"@) == Some(JsonView::Str(r.reaction_type)));
    assert(obj_get(f, "createTime"@) == Some(enc_opt_str(r.create_time)));
}

// ---------------------------------------------------------------------
// Lists of wire values
// ---------------------------------------------------------------------
/// Decodes a wire array whose elements must all be strings.
pub open spec fn decode_str_list(vs: Seq<JsonView>) -> Option<Seq<Seq<char>>>
    decreases vs.len(),
{
    if vs.len() == 0 {
        Some(Seq::empty())
    } else {
        match vs[0] {
            JsonView::Str(s) => match decode_str_list(vs.drop_first()) {
                Some(rest) => Some(seq![s] + rest),
                None => None,
            },
            _ => None,
        }
    }
}

/// Decodes a wire array of attachments.
pub open spec fn decode_att_list(vs: Seq<JsonView>) -> Option<Seq<AttachmentView>>
    decreases vs.len(),
{
    if vs.len() == 0 {
        Some(Seq::empty())
    } else {
        match spec_decode_attachment(vs[0]) {
            Some(a) => match decode_att_list(vs.drop_first()) {
                Some(rest) => Some(seq![a] + rest),
                None => None,
            },
            None => None,
        }
    }
}

/// Decodes a wire array of relations.
pub open spec fn decode_rel_list(vs: Seq<JsonView>) -> Option<Seq<RelationView>>
    decreases vs.len(),
{
    if vs.len() == 0 {
        Some(Seq::empty())
    } else {
        match spec_decode_relation(vs[0]) {
            Some(a) => match decode_rel_list(vs.drop_first()) {
                Some(rest) => Some(seq![a] + rest),
                None => None,
            },
            None => None,
        }
    }
}

/// Decodes a wire array of reactions.
pub open spec fn decode_reaction_list(vs: Seq<JsonView>) -> Option<Seq<ReactionView>>
    decreases vs.len(),
{
    if vs.len() == 0 {
        Some(Seq::empty())
    } else {
        match spec_decode_reaction(vs[0]) {
            Some(a) => match decode_reaction_list(vs.drop_first()) {
                Some(rest) => Some(seq![a] + rest),
                None => None,
            },
            None => None,
        }
    }
}

/// Encodes the tag list.
#[verifier::loop_isolation(false)]
pub fn encode_tags(ts: &Vec<String>) -> (r: Vec<JsonValue>)
    ensures
        view_of_json_seq(r@) == ts.deep_view().map_values(|t: Seq<char>| JsonView::Str(t)),
{
    let mut r: Vec<JsonValue> = Vec::new();
    let mut i: usize = 0;
    while i < ts.len()
        invariant
            0 <= i <= ts.len(),
            r@.len() == i,
            forall|j: int| 0 <= j < i ==> r@[j]@ == JsonView::Str(ts@[j]@),
        decreases ts.len() - i,
    {
        r.push(JsonValue::Str(ts[i].clone()));
        i = i + 1;
    }
    proof {
        lemma_view_of_json_seq(r@);
        assert(view_of_json_seq(r@) =~= ts.deep_view().map_values(
            |t: Seq<char>| JsonView::Str(t),
        ));
    }
    r
}

/// Encodes the attachment list.
#[verifier::loop_isolation(false)]
pub fn encode_attachments(xs: &Vec<Attachment>) -> (r: Vec<JsonValue>)
    ensures
        view_of_json_seq(r@) == xs.deep_view().map_values(
            |a: AttachmentView| spec_encode_attachment(a),
        ),
{
    let mut r: Vec<JsonValue> = Vec::new();
    let mut i: usize = 0;
    while i < xs.len()
        invariant
            0 <= i <= xs.len(),
            r@.len() == i,
            forall|j: int| 0 <= j < i ==> r@[j]@ == spec_encode_attachment(xs@[j]@),
        decreases xs.len() - i,
    {
        let e = encode_attachment(&xs[i]);
        r.push(e);
        i = i + 1;
    }
    proof {
        lemma_view_of_json_seq(r@);
        assert(view_of_json_seq(r@) =~= xs.deep_view().map_values(
            |a: AttachmentView| spec_encode_attachment(a),
        ));
    }
    r
}

/// Encodes the relation list.
#[verifier::loop_isolation(false)]
pub fn encode_relations(xs: &Vec<Relation>) -> (r: Vec<JsonValue>)
    ensures
        view_of_json_seq(r@) == xs.deep_view().map_values(
            |a: RelationView| spec_encode_relation(a),
        ),
{
    let mut r: Vec<JsonValue> = Vec::new();
    let mut i: usize = 0;
    while i < xs.len()
        invariant
            0 <= i <= xs.len(),
            r@.len() == i,
            forall|j: int| 0 <= j < i ==> r@[j]@ == spec_encode_relation(xs@[j]@),
        decreases xs.len() - i,
    {
        let e = encode_relation(&xs[i]);
        r.push(e);
        i = i + 1;
    }
    proof {
        lemma_view_of_json_seq(r@);
        assert(view_of_json_seq(r@) =~= xs.deep_view().map_values(
            |a: RelationView| spec_encode_relation(a),
        ));
    }
    r
}

/// Encodes the reaction list.
#[verifier::loop_isolation(false)]
pub fn encode_reactions(xs: &Vec<Reaction>) -> (r: Vec<JsonValue>)
    ensures
        view_of_json_seq(r@) == xs.deep_view().map_values(
            |a: ReactionView| spec_encode_reaction(a),
        ),
{
    let mut r: Vec<JsonValue> = Vec::new();
    let mut i: usize = 0;
    while i < xs.len()
        invariant
            0 <= i <= xs.len(),
            r@.len() == i,
            forall|j: int| 0 <= j < i ==> r@[j]@ == spec_encode_reaction(xs@[j]@),
        decreases xs.len() - i,
    {
        let e = encode_reaction(&xs[i]);
        r.push(e);
        i = i + 1;
    }
    proof {
        lemma_view_of_json_seq(r@);
        assert(view_of_json_seq(r@) =~= xs.deep_view().map_values(
            |a: ReactionView| spec_encode_reaction(a),
        ));
    }
    r
}

/// Decodes a wire array whose elements must all be strings.
#[verifier::loop_isolation(false)]
pub fn decode_tags(vs: &Vec<JsonValue>) -> (r: Option<Vec<String>>)
    ensures
        r.deep_view() == decode_str_list(view_of_json_seq(vs@)),
{
    let ghost s = view_of_json_seq(vs@);
    proof {
        lemma_view_of_json_seq(vs@);
        assert(s.skip(0) =~= s);
    }
    let mut out: Vec<String> = Vec::new();
    let mut i: usize = 0;
    while i < vs.len()
        invariant
            0 <= i <= vs.len(),
            out@.len() == i,
            decode_str_list(s) is Some <==> decode_str_list(s.skip(i as int)) is Some,
            decode_str_list(s) is Some ==> decode_str_list(s) == Some(
                out.deep_view() + decode_str_list(s.skip(i as int))->Some_0,
            ),
        decreases vs.len() - i,
    {
        proof {
            let tail = s.skip(i as int);
            assert(tail[0] == s[i as int]);
            assert(tail.drop_first() =~= s.skip(i as int + 1));
        }
        match &vs[i] {
            JsonValue::Str(x) => {
                let c = x.clone();
                out.push(c);
                proof {
                    if decode_str_list(s.skip(i as int + 1)) is Some {
                        assert(out.deep_view() + decode_str_list(s.skip(i as int + 1))->Some_0
                            =~= out.deep_view().take(i as int) + (seq![x@] + decode_str_list(
                            s.skip(i as int + 1),
                        )->Some_0));
                    }
                }
            },
            _ => {
                return None;
            },
        }
        i = i + 1;
    }
    proof {
        assert(s.skip(vs.len() as int) =~= Seq::empty());
        assert(out.deep_view() + Seq::<Seq<char>>::empty() =~= out.deep_view());
    }
    Some(out)
}

/// Decodes a wire array of attachments.
#[verifier::loop_isolation(false)]
pub fn decode_attachments(vs: &Vec<JsonValue>) -> (r: Option<Vec<Attachment>>)
    ensures
        r.deep_view() == decode_att_list(view_of_json_seq(vs@)),
{
    let ghost s = view_of_json_seq(vs@);
    proof {
        lemma_view_of_json_seq(vs@);
        assert(s.skip(0) =~= s);
    }
    let mut out: Vec<Attachment> = Vec::new();
    let mut i: usize = 0;
    while i < vs.len()
        invariant
            0 <= i <= vs.len(),
            out@.len() == i,
            decode_att_list(s) is Some <==> decode_att_list(s.skip(i as int)) is Some,
            decode_att_list(s) is Some ==> decode_att_list(s) == Some(
                out.deep_view() + decode_att_list(s.skip(i as int))->Some_0,
            ),
        decreases vs.len() - i,
    {
        proof {
            let tail = s.skip(i as int);
            assert(tail[0] == s[i as int]);
            assert(tail.drop_first() =~= s.skip(i as int + 1));
        }
        match decode_attachment(&vs[i]) {
            Some(a) => {
                let ghost av = a@;
                out.push(a);
                proof {
                    if decode_att_list(s.skip(i as int + 1)) is Some {
                        assert(out.deep_view() + decode_att_list(s.skip(i as int + 1))->Some_0
                            =~= out.deep_view().take(i as int) + (seq![av] + decode_att_list(
                            s.skip(i as int + 1),
                        )->Some_0));
                    }
                }
            },
            None => {
                return None;
            },
        }
        i = i + 1;
    }
    proof {
        assert(s.skip(vs.len() as int) =~= Seq::empty());
        assert(out.deep_view() + Seq::<AttachmentView>::empty() =~= out.deep_view());
    }
    Some(out)
}

/// Decodes a wire array of relations.
#[verifier::loop_isolation(false)]
pub fn decode_relations(vs: &Vec<JsonValue>) -> (r: Option<Vec<Relation>>)
    ensures
        r.deep_view() == decode_rel_list(view_of_json_seq(vs@)),
{
    let ghost s = view_of_json_seq(vs@);
    proof {
        lemma_view_of_json_seq(vs@);
        assert(s.skip(0) =~= s);
    }
    let mut out: Vec<Relation> = Vec::new();
    let mut i: usize = 0;
    while i < vs.len()
        invariant
            0 <= i <= vs.len(),
            out@.len() == i,
            decode_rel_list(s) is Some <==> decode_rel_list(s.skip(i as int)) is Some,
            decode_rel_list(s) is Some ==> decode_rel_list(s) == Some(
                out.deep_view() + decode_rel_list(s.skip(i as int))->Some_0,
            ),
        decreases vs.len() - i,
    {
        proof {
            let tail = s.skip(i as int);
            assert(tail[0] == s[i as int]);
            assert(tail.drop_first() =~= s.skip(i as int + 1));
        }
        match decode_relation(&vs[i]) {
            Some(a) => {
                let ghost av = a@;
                out.push(a);
                proof {
                    if decode_rel_list(s.skip(i as int + 1)) is Some {
                        assert(out.deep_view() + decode_rel_list(s.skip(i as int + 1))->Some_0
                            =~= out.deep_view().take(i as int) + (seq![av] + decode_rel_list(
                            s.skip(i as int + 1),
                        )->Some_0));
                    }
                }
            },
            None => {
                return None;
            },
        }
        i = i + 1;
    }
    proof {
        assert(s.skip(vs.len() as int) =~= Seq::empty());
        assert(out.deep_view() + Seq::<RelationView>::empty() =~= out.deep_view());
    }
    Some(out)
}

/// Decodes a wire array of reactions.
#[verifier::loop_isolation(false)]
pub fn decode_reactions(vs: &Vec<JsonValue>) -> (r: Option<Vec<Reaction>>)
    ensures
        r.deep_view() == decode_reaction_list(view_of_json_seq(vs@)),
{
    let ghost s = view_of_json_seq(vs@);
    proof {
        lemma_view_of_json_seq(vs@);
        assert(s.skip(0) =~= s);
    }
    let mut out: Vec<Reaction> = Vec::new();
    let mut i: usize = 0;
    while i < vs.len()
        invariant
            0 <= i <= vs.len(),
            out@.len() == i,
            decode_reaction_list(s) is Some <==> decode_reaction_list(s.skip(i as int)) is Some,
            decode_reaction_list(s) is Some ==> decode_reaction_list(s) == Some(
                out.deep_view() + decode_reaction_list(s.skip(i as int))->Some_0,
            ),
        decreases vs.len() - i,
    {
        proof {
            let tail = s.skip(i as int);
            assert(tail[0] == s[i as int]);
            assert(tail.drop_first() =~= s.skip(i as int + 1));
        }
        match decode_reaction(&vs[i]) {
            Some(a) => {
                let ghost av = a@;
                out.push(a);
                proof {
                    if decode_reaction_list(s.skip(i as int + 1)) is Some {
                        assert(out.deep_view() + decode_reaction_list(
                            s.skip(i as int + 1),
                        )->Some_0 =~= out.deep_view().take(i as int) + (seq![av]
                            + decode_reaction_list(s.skip(i as int + 1))->Some_0));
                    }
                }
            },
            None => {
                return None;
            },
        }
        i = i + 1;
    }
    proof {
        assert(s.skip(vs.len() as int) =~= Seq::empty());
        assert(out.deep_view() + Seq::<ReactionView>::empty() =~= out.deep_view());
    }
    Some(out)
}

// ---------------------------------------------------------------------
// Collection-valued fields, defaulting to empty when missing
// ---------------------------------------------------------------------
/// A string-list field that defaults to empty when missing.
pub open spec fn sf_tags_def(f: Seq<(Seq<char>, JsonView)>, key: Seq<char>) -> Option<
    Seq<Seq<char>>,
> {
    match obj_get(f, key) {
        Some(JsonView::Arr(vs)) => decode_str_list(vs),
        None => Some(Seq::empty()),
        _ => None,
    }
}

/// An attachment-list field that defaults to empty when missing.
pub open spec fn sf_atts_def(f: Seq<(Seq<char>, JsonView)>, key: Seq<char>) -> Option<
    Seq<AttachmentView>,
> {
    match obj_get(f, key) {
        Some(JsonView::Arr(vs)) => decode_att_list(vs),
        None => Some(Seq::empty()),
        _ => None,
    }
}

/// A relation-list field that defaults to empty when missing.
pub open spec fn sf_rels_def(f: Seq<(Seq<char>, JsonView)>, key: Seq<char>) -> Option<
    Seq<RelationView>,
> {
    match obj_get(f, key) {
        Some(JsonView::Arr(vs)) => decode_rel_list(vs),
        None => Some(Seq::empty()),
        _ => None,
    }
}

/// A reaction-list field that defaults to empty when missing.
pub open spec fn sf_reacts_def(f: Seq<(Seq<char>, JsonView)>, key: Seq<char>) -> Option<
    Seq<ReactionView>,
> {
    match obj_get(f, key) {
        Some(JsonView::Arr(vs)) => decode_reaction_list(vs),
        None => Some(Seq::empty()),
        _ => None,
    }
}

pub fn f_tags_def(fields: &Vec<(String, JsonValue)>, key: &str) -> (r: Option<Vec<String>>)
    ensures
        r.deep_view() == sf_tags_def(view_of_json_fields(fields@), key@),
{
    let k = String::from_str(key);
    match JsonValue::lookup(fields, &k) {
        Some(JsonValue::Arr(vs)) => decode_tags(vs),
        None => {
            let v: Vec<String> = Vec::new();
            proof {
                assert(v.deep_view() =~= Seq::<Seq<char>>::empty());
            }
            Some(v)
        },
        _ => None,
    }
}

pub fn f_atts_def(fields: &Vec<(String, JsonValue)>, key: &str) -> (r: Option<Vec<Attachment>>)
    ensures
        r.deep_view() == sf_atts_def(view_of_json_fields(fields@), key@),
{
    let k = String::from_str(key);
    match JsonValue::lookup(fields, &k) {
        Some(JsonValue::Arr(vs)) => decode_attachments(vs),
        None => {
            let v: Vec<Attachment> = Vec::new();
            proof {
                assert(v.deep_view() =~= Seq::<AttachmentView>::empty());
            }
            Some(v)
        },
        _ => None,
    }
}

pub fn f_rels_def(fields: &Vec<(String, JsonValue)>, key: &str) -> (r: Option<Vec<Relation>>)
    ensures
        r.deep_view() == sf_rels_def(view_of_json_fields(fields@), key@),
{
    let k = String::from_str(key);
    match JsonValue::lookup(fields, &k) {
        Some(JsonValue::Arr(vs)) => decode_relations(vs),
        None => {
            let v: Vec<Relation> = Vec::new();
            proof {
                assert(v.deep_view() =~= Seq::<RelationView>::empty());
            }
            Some(v)
        },
        _ => None,
    }
}

pub fn f_reacts_def(fields: &Vec<(String, JsonValue)>, key: &str) -> (r: Option<Vec<Reaction>>)
    ensures
        r.deep_view() == sf_reacts_def(view_of_json_fields(fields@), key@),
{
    let k = String::from_str(key);
    match JsonValue::lookup(fields, &k) {
        Some(JsonValue::Arr(vs)) => decode_reactions(vs),
        None => {
            let v: Vec<Reaction> = Vec::new();
            proof {
                assert(v.deep_view() =~= Seq::<ReactionView>::empty());
            }
            Some(v)
        },
        _ => None,
    }
}

// ---------------------------------------------------------------------
// Note
// ---------------------------------------------------------------------
pub open spec fn spec_encode_note(n: NoteView) -> JsonView {
    JsonView::Obj(
        seq![
            ("name"@, enc_opt_str(n.name)),
            ("state"@, JsonView::Str(state_wire(n.state))),
            ("creator"@, enc_opt_str(n.creator)),
            ("createTime"@, enc_opt_str(n.create_time)),
            ("updateTime"@, enc_opt_str(n.update_time)),
            ("displayTime"@, enc_opt_str(n.display_time)),
            ("content"@, JsonView::Str(n.content)),
            ("visibility"@, JsonView::Str(visibility_wire(n.visibility))),
            ("tags"@, JsonView::Arr(n.tags.map_values(|t: Seq<char>| JsonView::Str(t)))),
            ("pinned"@, JsonView::Bool(n.pinned)),
            (
                "attachments"@,
                JsonView::Arr(
                    n.attachments.map_values(|a: AttachmentView| spec_encode_attachment(a)),
                ),
            ),
            (
                "relations"@,
                JsonView::Arr(n.relations.map_values(|a: RelationView| spec_encode_relation(a))),
            ),
            (
                "reactions"@,
                JsonView::Arr(n.reactions.map_values(|a: ReactionView| spec_encode_reaction(a))),
            ),
            (
                "property"@,
                match n.property {
                    Some(p) => p,
                    None => JsonView::Null,
                },
            ),
            ("parent"@, JsonView::Str(n.parent)),
            ("snippet"@, JsonView::Str(n.snippet)),
            ("location"@, enc_opt_str(n.location)),
        ],
    )
}

pub open spec fn spec_decode_note(v: JsonView) -> Option<NoteView> {
    match v {
        JsonView::Obj(f) => {
            let name = sf_opt_str_def(f, "name"@);
            let state = match obj_get(f, "state"@) {
                Some(JsonView::Str(s)) => state_of_wire(s),
                _ => None,
            };
            let creator = sf_opt_str_def(f, "creator"@);
            let create_time = sf_opt_str_def(f, "createTime"@);
            let update_time = sf_opt_str_def(f, "updateTime"@);
            let display_time = sf_opt_str_def(f, "displayTime"@);
            let content = sf_str_req(f, "content"@);
            let visibility = match obj_get(f, "visibility"@) {
                Some(JsonView::Str(s)) => visibility_of_wire(s),
                _ => None,
            };
            let tags = sf_tags_def(f, "tags"@);
            let pinned = sf_bool_def(f, "pinned"@);
            let attachments = sf_atts_def(f, "attachments"@);
            let relations = sf_rels_def(f, "relations"@);
            let reactions = sf_reacts_def(f, "reactions"@);
            let property = sf_opt_json_def(f, "property"@);
            let parent = sf_str_def(f, "parent"@);
            let snippet = sf_str_def(f, "snippet"@);
            let location = sf_opt_str_def(f, "location"@);
            if name is Some && state is Some && creator is Some && create_time is Some
                && update_time is Some && display_time is Some && content is Some
                && visibility is Some && tags is Some && pinned is Some && attachments is Some
                && relations is Some && reactions is Some && parent is Some && snippet is Some
                && location is Some {
                Some(
                    NoteView {
                        name: name->Some_0,
                        state: state->Some_0,
                        creator: creator->Some_0,
                        create_time: create_time->Some_0,
                        update_time: update_time->Some_0,
                        display_time: display_time->Some_0,
                        content: content->Some_0,
                        visibility: visibility->Some_0,
                        tags: tags->Some_0,
                        pinned: pinned->Some_0,
                        attachments: attachments->Some_0,
                        relations: relations->Some_0,
                        reactions: reactions->Some_0,
                        property,
                        parent: parent->Some_0,
                        snippet: snippet->Some_0,
                        location: location->Some_0,
                    },
                )
            } else {
                None
            }
        },
        _ => None,
    }
}

/// Encodes a note to its wire object.
pub fn encode_note(n: &Note) -> (r: JsonValue)
    ensures
        r@ == spec_encode_note(n@),
{
    let mut fs: Vec<(String, JsonValue)> = Vec::new();
    fs.push((String::from_str("name"), encode_opt_str(&n.name)));
    fs.push((String::from_str("state"), JsonValue::Str(String::from_str(state_str(&n.state)))));
    fs.push((String::from_str("creator"), encode_opt_str(&n.creator)));
    fs.push((String::from_str("createTime"), encode_opt_str(&n.create_time)));
    fs.push((String::from_str("updateTime"), encode_opt_str(&n.update_time)));
    fs.push((String::from_str("displayTime"), encode_opt_str(&n.display_time)));
    fs.push((String::from_str("content"), JsonValue::Str(n.content.clone())));
    fs.push(
        (String::from_str("visibility"), JsonValue::Str(String::from_str(
            visibility_str(&n.visibility),
        ))),
    );
    fs.push((String::from_str("tags"), JsonValue::Arr(encode_tags(&n.tags))));
    fs.push((String::from_str("pinned"), JsonValue::Bool(n.pinned)));
    fs.push((String::from_str("attachments"), JsonValue::Arr(encode_attachments(&n.attachments))));
    fs.push((String::from_str("relations"), JsonValue::Arr(encode_relations(&n.relations))));
    fs.push((String::from_str("reactions"), JsonValue::Arr(encode_reactions(&n.reactions))));
    let property = match &n.property {
        Some(p) => p.duplicate(),
        None => JsonValue::Null,
    };
    fs.push((String::from_str("property"), property));
    fs.push((String::from_str("parent"), JsonValue::Str(n.parent.clone())));
    fs.push((String::from_str("snippet"), JsonValue::Str(n.snippet.clone())));
    fs.push((String::from_str("location"), encode_opt_str(&n.location)));
    proof {
        lemma_view_of_json_fields(fs@);
        assert(view_of_json_fields(fs@) =~= spec_encode_note(n@)->Obj_0);
    }
    JsonValue::Obj(fs)
}

/// Decodes a note from its wire object.
pub fn decode_note(v: &JsonValue) -> (r: Option<Note>)
    ensures
        r.deep_view() == spec_decode_note(v@),
{
    match v {
        JsonValue::Obj(fields) => {
            let name = match f_opt_str_def(fields, "name") {
                Some(x) => x,
                None => {
                    return None;
                },
            };
            let state_s = match f_str_req(fields, "state") {
                Some(x) => x,
                None => {
                    return None;
                },
            };
            let state = match state_parse(&state_s) {
                Some(x) => x,
                None => {
                    return None;
                },
            };
            let creator = match f_opt_str_def(fields, "creator") {
                Some(x) => x,
                None => {
                    return None;
                },
            };
            let create_time = match f_opt_str_def(fields, "createTime") {
                Some(x) => x,
                None => {
                    return None;
                },
            };
            let update_time = match f_opt_str_def(fields, "updateTime") {
                Some(x) => x,
                None => {
                    return None;
                },
            };
            let display_time = match f_opt_str_def(fields, "displayTime") {
                Some(x) => x,
                None => {
                    return None;
                },
            };
            let content = match f_str_req(fields, "content") {
                Some(x) => x,
                None => {
                    return None;
                },
            };
            let visibility_s = match f_str_req(fields, "visibility") {
                Some(x) => x,
                None => {
                    return None;
                },
            };
            let visibility = match visibility_parse(&visibility_s) {
                Some(x) => x,
                None => {
                    return None;
                },
            };
            let tags = match f_tags_def(fields, "tags") {
                Some(x) => x,
                None => {
                    return None;
                },
            };
            let pinned = match f_bool_def(fields, "pinned") {
                Some(x) => x,
                None => {
                    return None;
                },
            };
            let attachments = match f_atts_def(fields, "attachments") {
                Some(x) => x,
                None => {
                    return None;
                },
            };
            let relations = match f_rels_def(fields, "relations") {
                Some(x) => x,
                None => {
                    return None;
                },
            };
            let reactions = match f_reacts_def(fields, "reactions") {
                Some(x) => x,
                None => {
                    return None;
                },
            };
            let property = f_opt_json_def(fields, "property");
            let parent = match f_str_def(fields, "parent") {
                Some(x) => x,
                None => {
                    return None;
                },
            };
            let snippet = match f_str_def(fields, "snippet") {
                Some(x) => x,
                None => {
                    return None;
                },
            };
            let location = match f_opt_str_def(fields, "location") {
                Some(x) => x,
                None => {
                    return None;
                },
            };
            Some(
                Note {
                    name,
                    state,
                    creator,
                    create_time,
                    update_time,
                    display_time,
                    content,
                    visibility,
                    tags,
                    pinned,
                    attachments,
                    relations,
                    reactions,
                    property,
                    parent,
                    snippet,
                    location,
                },
            )
        },
        _ => None,
    }
}

/// Decodes a wire array of notes.
pub open spec fn decode_note_list(vs: Seq<JsonView>) -> Option<Seq<NoteView>>
    decreases vs.len(),
{
    if vs.len() == 0 {
        Some(Seq::empty())
    } else {
        match spec_decode_note(vs[0]) {
            Some(a) => match decode_note_list(vs.drop_first()) {
                Some(rest) => Some(seq![a] + rest),
                None => None,
            },
            None => None,
        }
    }
}

/// Decodes a wire array of notes.
#[verifier::loop_isolation(false)]
pub fn decode_notes(vs: &Vec<JsonValue>) -> (r: Option<Vec<Note>>)
    ensures
        r.deep_view() == decode_note_list(view_of_json_seq(vs@)),
{
    let ghost s = view_of_json_seq(vs@);
    proof {
        lemma_view_of_json_seq(vs@);
        assert(s.skip(0) =~= s);
    }
    let mut out: Vec<Note> = Vec::new();
    let mut i: usize = 0;
    while i < vs.len()
        invariant
            0 <= i <= vs.len(),
            out@.len() == i,
            decode_note_list(s) is Some <==> decode_note_list(s.skip(i as int)) is Some,
            decode_note_list(s) is Some ==> decode_note_list(s) == Some(
                out.deep_view() + decode_note_list(s.skip(i as int))->Some_0,
            ),
        decreases vs.len() - i,
    {
        proof {
            let tail = s.skip(i as int);
            assert(tail[0] == s[i as int]);
            assert(tail.drop_first() =~= s.skip(i as int + 1));
        }
        match decode_note(&vs[i]) {
            Some(a) => {
                let ghost av = a@;
                out.push(a);
                proof {
                    if decode_note_list(s.skip(i as int + 1)) is Some {
                        assert(out.deep_view() + decode_note_list(s.skip(i as int + 1))->Some_0
                            =~= out.deep_view().take(i as int) + (seq![av] + decode_note_list(
                            s.skip(i as int + 1),
                        )->Some_0));
                    }
                }
            },
            None => {
                return None;
            },
        }
        i = i + 1;
    }
    proof {
        assert(s.skip(vs.len() as int) =~= Seq::empty());
        assert(out.deep_view() + Seq::<NoteView>::empty() =~= out.deep_view());
    }
    Some(out)
}

/// Encodes a list of notes as a wire array.
#[verifier::loop_isolation(false)]
pub fn encode_notes(xs: &Vec<Note>) -> (r: Vec<JsonValue>)
    ensures
        view_of_json_seq(r@) == xs.deep_view().map_values(|n: NoteView| spec_encode_note(n)),
{
    let mut r: Vec<JsonValue> = Vec::new();
    let mut i: usize = 0;
    while i < xs.len()
        invariant
            0 <= i <= xs.len(),
            r@.len() == i,
            forall|j: int| 0 <= j < i ==> r@[j]@ == spec_encode_note(xs@[j]@),
        decreases xs.len() - i,
    {
        let e = encode_note(&xs[i]);
        r.push(e);
        i = i + 1;
    }
    proof {
        lemma_view_of_json_seq(r@);
        assert(view_of_json_seq(r@) =~= xs.deep_view().map_values(
            |n: NoteView| spec_encode_note(n),
        ));
    }
    r
}

// ---------------------------------------------------------------------
// Round-trip laws
// ---------------------------------------------------------------------
/// Decoding an encoded string list gives the list back.
pub proof fn lemma_str_list_round(ts: Seq<Seq<char>>)
    ensures
        decode_str_list(ts.map_values(|t: Seq<char>| JsonView::Str(t))) == Some(ts),
    decreases ts.len(),
{
    let m = ts.map_values(|t: Seq<char>| JsonView::Str(t));
    if ts.len() == 0 {
        assert(Seq::<Seq<char>>::empty() =~= ts);
    } else {
        assert(m[0] == JsonView::Str(ts[0]));
        assert(m.drop_first() =~= ts.drop_first().map_values(|t: Seq<char>| JsonView::Str(t)));
        lemma_str_list_round(ts.drop_first());
        assert(seq![ts[0]] + ts.drop_first() =~= ts);
    }
}

/// Decoding an encoded attachment list gives the list back.
pub proof fn lemma_att_list_round(xs: Seq<AttachmentView>)
    ensures
        decode_att_list(xs.map_values(|a: AttachmentView| spec_encode_attachment(a))) == Some(xs),
    decreases xs.len(),
{
    let m = xs.map_values(|a: AttachmentView| spec_encode_attachment(a));
    if xs.len() == 0 {
        assert(Seq::<AttachmentView>::empty() =~= xs);
    } else {
        assert(m[0] == spec_encode_attachment(xs[0]));
        lemma_attachment_round(xs[0]);
        assert(m.drop_first() =~= xs.drop_first().map_values(
            |a: AttachmentView| spec_encode_attachment(a),
        ));
        lemma_att_list_round(xs.drop_first());
        assert(seq![xs[0]] + xs.drop_first() =~= xs);
    }
}

/// Decoding an encoded relation list gives the list back.
pub proof fn lemma_rel_list_round(xs: Seq<RelationView>)
    ensures
        decode_rel_list(xs.map_values(|a: RelationView| spec_encode_relation(a))) == Some(xs),
    decreases xs.len(),
{
    let m = xs.map_values(|a: RelationView| spec_encode_relation(a));
    if xs.len() == 0 {
        assert(Seq::<RelationView>::empty() =~= xs);
    } else {
        assert(m[0] == spec_encode_relation(xs[0]));
        lemma_relation_round(xs[0]);
        assert(m.drop_first() =~= xs.drop_first().map_values(
            |a: RelationView| spec_encode_relation(a),
        ));
        lemma_rel_list_round(xs.drop_first());
        assert(seq![xs[0]] + xs.drop_first() =~= xs);
    }
}

/// Decoding an encoded reaction list gives the list back.
pub proof fn lemma_react_list_round(xs: Seq<ReactionView>)
    ensures
        decode_reaction_list(xs.map_values(|a: ReactionView| spec_encode_reaction(a))) == Some(xs),
    decreases xs.len(),
{
    let m = xs.map_values(|a: ReactionView| spec_encode_reaction(a));
    if xs.len() == 0 {
        assert(Seq::<ReactionView>::empty() =~= xs);
    } else {
        assert(m[0] == spec_encode_reaction(xs[0]));
        lemma_reaction_round(xs[0]);
        assert(m.drop_first() =~= xs.drop_first().map_values(
            |a: ReactionView| spec_encode_reaction(a),
        ));
        lemma_react_list_round(xs.drop_first());
        assert(seq![xs[0]] + xs.drop_first() =~= xs);
    }
}

/// Round trip: encoding a note to its wire object and decoding it back
/// gives a note equal on every field. The one shape the wire format
/// cannot keep is a property that is present but null: null on the wire
/// always decodes as an absent property.
#[verifier::rlimit(60)]
pub proof fn lemma_note_round_trip(n: NoteView)
    requires
        n.property != Some(JsonView::Null),
    ensures
        spec_decode_note(spec_encode_note(n)) == Some(n),
{
    reveal_strlit("name");
    reveal_strlit("state");
    reveal_strlit("creator");
    reveal_strlit("createTime");
    reveal_strlit("updateTime");
    reveal_strlit("displayTime");
    reveal_strlit("content");
    reveal_strlit("visibility");
    reveal_strlit("tags");
    reveal_strlit("pinned");
    reveal_strlit("attachments");
    reveal_strlit("relations");
    reveal_strlit("reactions");
    reveal_strlit("property");
    reveal_strlit("parent");
    reveal_strlit("snippet");
    reveal_strlit("location");
    reveal_with_fuel(obj_get, 18);
    assert("name"@.len() == 4);
    assert("state"@.len() == 5);
    assert("creator"@.len() == 7);
    assert("createTime"@.len() == 10);
    assert("updateTime"@.len() == 10);
    assert("displayTime"@.len() == 11);
    assert("content"@.len() == 7);
    assert("visibility"@.len() == 10);
    assert("tags"@.len() == 4);
    assert("pinned"@.len() == 6);
    assert("attachments"@.len() == 11);
    assert("relations"@.len() == 9);
    assert("reactions"@.len() == 9);
    assert("property"@.len() == 8);
    assert("parent"@.len() == 6);
    assert("snippet"@.len() == 7);
    assert("location"@.len() == 8);
    assert("name"@[0] == 'n' && "tags"@[0] == 't');
    assert("creator"@[1] == 'r' && "content"@[1] == 'o' && "snippet"@[0] == 's');
    assert("creator"@[0] == 'c' && "content"@[0] == 'c');
    assert("createTime"@[0] == 'c' && "updateTime"@[0] == 'u' && "visibility"@[0] == 'v');
    assert("displayTime"@[0] == 'd' && "attachments"@[0] == 'a');
    assert("pinned"@[1] == 'i' && "parent"@[1] == 'a');
    assert("relations"@[2] == 'l' && "reactions"@[2] == 'a');
    assert("property"@[0] == 'p' && "location"@[0] == 'l');
    assert("name"@ != "tags"@);
    assert("creator"@ != "content"@);
    assert("creator"@ != "snippet"@);
    assert("content"@ != "snippet"@);
    assert("createTime"@ != "updateTime"@);
    assert("createTime"@ != "visibility"@);
    assert("updateTime"@ != "visibility"@);
    assert("displayTime"@ != "attachments"@);
    assert("pinned"@ != "parent"@);
    assert("relations"@ != "reactions"@);
    assert("property"@ != "location"@);
    lemma_state_wire_round(n.state);
    lemma_visibility_wire_round(n.visibility);
    lemma_str_list_round(n.tags);
    lemma_att_list_round(n.attachments);
    lemma_rel_list_round(n.relations);
    lemma_react_list_round(n.reactions);
    let f = spec_encode_note(n)->Obj_0;
    assert(obj_get(f, "name"@) == Some(enc_opt_str(n.name)));
    assert(obj_get(f, "state"@) == Some(JsonView::Str(state_wire(n.state))));
    assert(obj_get(f, "creator"@) == Some(enc_opt_str(n.creator)));
    assert(obj_get(f, "createTime"@) == Some(enc_opt_str(n.create_time)));
    assert(obj_get(f, "updateTime"@) == Some(enc_opt_str(n.update_time)));
    assert(obj_get(f, "displayTime"@) == Some(enc_opt_str(n.display_time)));
    assert(obj_get(f, "content"@) == Some(JsonView::Str(n.content)));
    assert(obj_get(f, "visibility"@) == Some(JsonView::Str(visibility_wire(n.visibility))));
    assert(obj_get(f, "tags"@) == Some(
        JsonView::Arr(n.tags.map_values(|t: Seq<char>| JsonView::Str(t))),
    ));
    assert(obj_get(f, "pinned"@) == Some(JsonView::Bool(n.pinned)));
    assert(obj_get(f, "attachments"@) == Some(
        JsonView::Arr(n.attachments.map_values(|a: AttachmentView| spec_encode_attachment(a))),
    ));
    assert(obj_get(f, "relations"@) == Some(
        JsonView::Arr(n.relations.map_values(|a: RelationView| spec_encode_relation(a))),
    ));
    assert(obj_get(f, "reactions"@) == Some(
        JsonView::Arr(n.reactions.map_values(|a: ReactionView| spec_encode_reaction(a))),
    ));
    assert(obj_get(f, "property"@) == Some(
        match n.property {
            Some(p) => p,
            None => JsonView::Null,
        },
    ));
    assert(obj_get(f, "parent"@) == Some(JsonView::Str(n.parent)));
    assert(obj_get(f, "snippet"@) == Some(JsonView::Str(n.snippet)));
    assert(obj_get(f, "location"@) == Some(enc_opt_str(n.location)));
}

/// What a note keeps through one wire round trip: in particular its
/// content, visibility, and state are exactly the input's, so a create
/// that the remote service echoes back verbatim answers a following get
/// with the same content, visibility, and state.
pub proof fn lemma_note_round_trip_fields(n: NoteView)
    requires
        n.property != Some(JsonView::Null),
    ensures
        spec_decode_note(spec_encode_note(n)) is Some,
        spec_decode_note(spec_encode_note(n))->Some_0.content == n.content,
        spec_decode_note(spec_encode_note(n))->Some_0.visibility == n.visibility,
        spec_decode_note(spec_encode_note(n))->Some_0.state == n.state,
{
    lemma_note_round_trip(n);
}

} // verus!
