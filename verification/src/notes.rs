//! The note service: one request builder and one response acceptor per
//! operation, and the pagination drain for listing.
//!
//! A builder pins the verb, the URL, and the JSON body of the exchange;
//! an acceptor pins what every possible response turns into. The
//! surrounding program only carries the request to the wire and the
//! response back.

use vstd::prelude::*;
use vstd::string::StringExecFns;
use crate::codec::decode_att_list;
use crate::codec::decode_note_list;
use crate::codec::decode_reaction_list;
use crate::codec::decode_rel_list;
use crate::codec::decode_attachments;
use crate::codec::decode_notes;
use crate::codec::decode_reactions;
use crate::codec::decode_relations;
use crate::codec::decode_note;
use crate::codec::decode_reaction;
use crate::codec::encode_attachments;
use crate::codec::encode_note;
use crate::codec::encode_reaction;
use crate::codec::encode_relations;
use crate::codec::sf_str_def;
use crate::codec::spec_decode_note;
use crate::codec::spec_decode_reaction;
use crate::codec::spec_encode_attachment;
use crate::codec::spec_encode_note;
use crate::codec::spec_encode_reaction;
use crate::codec::spec_encode_relation;
use crate::json::JsonValue;
use crate::json::JsonView;
use crate::json::obj_get;
use crate::json::lemma_view_of_json_fields;
use crate::json::view_of_json_fields;
use crate::note::Attachment;
use crate::note::AttachmentView;
use crate::note::Note;
use crate::note::NoteView;
use crate::note::Reaction;
use crate::note::ReactionView;
use crate::note::Relation;
use crate::note::RelationView;
use crate::session::Server;
use crate::session::url_of;
use crate::transport::ApiError;
use crate::transport::ApiErrorView;
use crate::transport::Method;
use crate::transport::Request;
use crate::transport::RequestView;

verus! {

/// The query string that marks which note fields an update may change:
/// exactly content, state, visibility, tags, and pinned, whatever else
/// the payload carries.
pub open spec fn update_mask_query() -> Seq<char> {
    "?updateMask=content,state,visibility,tags,pinned"@
}

/// The body of a set-attachments exchange.
pub open spec fn set_attachments_body(name: Seq<char>, xs: Seq<AttachmentView>) -> JsonView {
    JsonView::Obj(
        seq![
            ("name"@, JsonView::Str(name)),
            (
                "attachments"@,
                JsonView::Arr(xs.map_values(|a: AttachmentView| spec_encode_attachment(a))),
            ),
        ],
    )
}

/// The body of a set-relations exchange.
pub open spec fn set_relations_body(name: Seq<char>, xs: Seq<RelationView>) -> JsonView {
    JsonView::Obj(
        seq![
            ("name"@, JsonView::Str(name)),
            (
                "relations"@,
                JsonView::Arr(xs.map_values(|a: RelationView| spec_encode_relation(a))),
            ),
        ],
    )
}

/// The body of an upsert-reaction exchange.
pub open spec fn upsert_reaction_body(name: Seq<char>, r: ReactionView) -> JsonView {
    JsonView::Obj(seq![("name"@, JsonView::Str(name)), ("reaction"@, spec_encode_reaction(r))])
}

impl Server {
    /// Creating a note posts its full payload to the collection.
    pub fn create_note_request(&self, note: &Note) -> (r: Request)
        ensures
            r@ == (RequestView {
                method: Method::Post,
                url: url_of(self@.base_url, "memos"@),
                body: Some(spec_encode_note(note@)),
            }),
    {
        Request {
            method: Method::Post,
            url: self.endpoint_url("memos"),
            body: Some(encode_note(note)),
        }
    }

    /// A comment is an ordinary note posted under its parent's name.
    pub fn create_note_comment_request(&self, note_name: &str, comment: &Note) -> (r: Request)
        ensures
            r@ == (RequestView {
                method: Method::Post,
                url: url_of(self@.base_url, note_name@ + "/comments"@),
                body: Some(spec_encode_note(comment@)),
            }),
    {
        let ep = String::from_str(note_name).concat("/comments");
        Request {
            method: Method::Post,
            url: self.endpoint_url(ep.as_str()),
            body: Some(encode_note(comment)),
        }
    }

    /// Deleting a note addresses it by name; a repeated delete is
    /// whatever the remote service answers, never masked into success.
    pub fn delete_note_request(&self, note_name: &str) -> (r: Request)
        ensures
            r@ == (RequestView {
                method: Method::Delete,
                url: url_of(self@.base_url, note_name@),
                body: None,
            }),
    {
        Request { method: Method::Delete, url: self.endpoint_url(note_name), body: None }
    }

    /// Deleting a reaction addresses it by name.
    pub fn delete_note_reaction_request(&self, reaction_name: &str) -> (r: Request)
        ensures
            r@ == (RequestView {
                method: Method::Delete,
                url: url_of(self@.base_url, reaction_name@),
                body: None,
            }),
    {
        Request { method: Method::Delete, url: self.endpoint_url(reaction_name), body: None }
    }

    /// Fetching a note addresses it by name.
    pub fn get_note_request(&self, note_name: &str) -> (r: Request)
        ensures
            r@ == (RequestView {
                method: Method::Get,
                url: url_of(self@.base_url, note_name@),
                body: None,
            }),
    {
        Request { method: Method::Get, url: self.endpoint_url(note_name), body: None }
    }

    /// Lists the attachments of a note.
    pub fn list_note_attachments_request(&self, note_name: &str) -> (r: Request)
        ensures
            r@ == (RequestView {
                method: Method::Get,
                url: url_of(self@.base_url, note_name@ + "/attachments"@),
                body: None,
            }),
    {
        let ep = String::from_str(note_name).concat("/attachments");
        Request { method: Method::Get, url: self.endpoint_url(ep.as_str()), body: None }
    }

    /// Lists the comments of a note.
    pub fn list_note_comments_request(&self, note_name: &str) -> (r: Request)
        ensures
            r@ == (RequestView {
                method: Method::Get,
                url: url_of(self@.base_url, note_name@ + "/comments"@),
                body: None,
            }),
    {
        let ep = String::from_str(note_name).concat("/comments");
        Request { method: Method::Get, url: self.endpoint_url(ep.as_str()), body: None }
    }

    /// Lists the reactions of a note.
    pub fn list_note_reactions_request(&self, note_name: &str) -> (r: Request)
        ensures
            r@ == (RequestView {
                method: Method::Get,
                url: url_of(self@.base_url, note_name@ + "/reactions"@),
                body: None,
            }),
    {
        let ep = String::from_str(note_name).concat("/reactions");
        Request { method: Method::Get, url: self.endpoint_url(ep.as_str()), body: None }
    }

    /// Lists the relations of a note.
    pub fn list_note_relations_request(&self, note_name: &str) -> (r: Request)
        ensures
            r@ == (RequestView {
                method: Method::Get,
                url: url_of(self@.base_url, note_name@ + "/relations"@),
                body: None,
            }),
    {
        let ep = String::from_str(note_name).concat("/relations");
        Request { method: Method::Get, url: self.endpoint_url(ep.as_str()), body: None }
    }

    /// One page of the note listing: the first page without a cursor,
    /// every later page with the cursor the previous page returned.
    pub fn list_notes_request(&self, page_token: &str) -> (r: Request)
        ensures
            r@.method == Method::Get,
            r@.body is None,
            page_token@.len() == 0 ==> r@.url == url_of(self@.base_url, "memos"@),
            page_token@.len() > 0 ==> r@.url == url_of(
                self@.base_url,
                "memos?pageToken="@ + page_token@,
            ),
    {
        if page_token.is_empty() {
            Request { method: Method::Get, url: self.endpoint_url("memos"), body: None }
        } else {
            let ep = String::from_str("memos?pageToken=").concat(page_token);
            Request { method: Method::Get, url: self.endpoint_url(ep.as_str()), body: None }
        }
    }

    /// Replaces the attachments of a note.
    pub fn set_note_attachments_request(&self, note_name: &str, attachments: &Vec<Attachment>) -> (r:
        Request)
        ensures
            r@ == (RequestView {
                method: Method::Post,
                url: url_of(self@.base_url, note_name@ + "/attachments"@),
                body: Some(set_attachments_body(note_name@, attachments.deep_view())),
            }),
    {
        let mut fs: Vec<(String, JsonValue)> = Vec::new();
        fs.push((String::from_str("name"), JsonValue::Str(String::from_str(note_name))));
        fs.push((String::from_str("attachments"), JsonValue::Arr(encode_attachments(attachments))));
        proof {
            lemma_view_of_json_fields(fs@);
            assert(view_of_json_fields(fs@) =~= set_attachments_body(
                note_name@,
                attachments.deep_view(),
            )->Obj_0);
        }
        let ep = String::from_str(note_name).concat("/attachments");
        Request {
            method: Method::Post,
            url: self.endpoint_url(ep.as_str()),
            body: Some(JsonValue::Obj(fs)),
        }
    }

    /// Replaces the relations of a note.
    pub fn set_note_relations_request(&self, note_name: &str, relations: &Vec<Relation>) -> (r:
        Request)
        ensures
            r@ == (RequestView {
                method: Method::Post,
                url: url_of(self@.base_url, note_name@ + "/relations"@),
                body: Some(set_relations_body(note_name@, relations.deep_view())),
            }),
    {
        let mut fs: Vec<(String, JsonValue)> = Vec::new();
        fs.push((String::from_str("name"), JsonValue::Str(String::from_str(note_name))));
        fs.push((String::from_str("relations"), JsonValue::Arr(encode_relations(relations))));
        proof {
            lemma_view_of_json_fields(fs@);
            assert(view_of_json_fields(fs@) =~= set_relations_body(
                note_name@,
                relations.deep_view(),
            )->Obj_0);
        }
        let ep = String::from_str(note_name).concat("/relations");
        Request {
            method: Method::Post,
            url: self.endpoint_url(ep.as_str()),
            body: Some(JsonValue::Obj(fs)),
        }
    }

    /// An update addresses the note by its own name and is constrained
    /// by an explicit field mask to content, state, visibility, tags,
    /// and pinned: no other field is ever sent as mutable, whatever the
    /// payload carries. A note without a name is a caller contract
    /// violation, refused before any request exists.
    pub fn update_note_request(&self, note: &Note) -> (r: Result<Request, ApiError>)
        ensures
            r is Ok <==> note@.name is Some,
            r matches Err(e) ==> e@ == ApiErrorView::MissingName,
            note@.name matches Some(nm) ==> (r matches Ok(req) && req@ == (RequestView {
                method: Method::Patch,
                url: url_of(self@.base_url, nm + update_mask_query()),
                body: Some(spec_encode_note(note@)),
            })),
    {
        match &note.name {
            None => Err(ApiError::MissingName),
            Some(nm) => {
                let ep = nm.clone().concat("?updateMask=content,state,visibility,tags,pinned");
                Ok(
                    Request {
                        method: Method::Patch,
                        url: self.endpoint_url(ep.as_str()),
                        body: Some(encode_note(note)),
                    },
                )
            },
        }
    }

    /// Upserts a reaction under a note.
    pub fn upsert_note_reaction_request(&self, note_name: &str, reaction: &Reaction) -> (r: Request)
        ensures
            r@ == (RequestView {
                method: Method::Post,
                url: url_of(self@.base_url, note_name@ + "/reactions"@),
                body: Some(upsert_reaction_body(note_name@, reaction@)),
            }),
    {
        let mut fs: Vec<(String, JsonValue)> = Vec::new();
        fs.push((String::from_str("name"), JsonValue::Str(String::from_str(note_name))));
        fs.push((String::from_str("reaction"), encode_reaction(reaction)));
        proof {
            lemma_view_of_json_fields(fs@);
            assert(view_of_json_fields(fs@) =~= upsert_reaction_body(
                note_name@,
                reaction@,
            )->Obj_0);
        }
        let ep = String::from_str(note_name).concat("/reactions");
        Request {
            method: Method::Post,
            url: self.endpoint_url(ep.as_str()),
            body: Some(JsonValue::Obj(fs)),
        }
    }
}

// ---------------------------------------------------------------------
// Response acceptors
// ---------------------------------------------------------------------
/// Accepts the response of an exchange that returns one note: an error
/// passes through unchanged, a body that is not a note is a decode
/// failure.
pub fn accept_note(outcome: Result<JsonValue, ApiError>) -> (r: Result<Note, ApiError>)
    ensures
        outcome matches Err(e) ==> (r matches Err(e2) && e2@ == e@),
        outcome matches Ok(v) ==> (spec_decode_note(v@) matches Some(nv) ==> (r matches Ok(n) && n@
            == nv)),
        outcome matches Ok(v) ==> (spec_decode_note(v@) is None ==> (r matches Err(e2) && e2@
            == ApiErrorView::Decode)),
{
    match outcome {
        Err(e) => Err(e),
        Ok(v) => match decode_note(&v) {
            Some(n) => Ok(n),
            None => Err(ApiError::Decode),
        },
    }
}

/// Accepts the response of an exchange that returns one reaction.
pub fn accept_reaction(outcome: Result<JsonValue, ApiError>) -> (r: Result<Reaction, ApiError>)
    ensures
        outcome matches Err(e) ==> (r matches Err(e2) && e2@ == e@),
        outcome matches Ok(v) ==> (spec_decode_reaction(v@) matches Some(nv) ==> (r matches Ok(n)
            && n@ == nv)),
        outcome matches Ok(v) ==> (spec_decode_reaction(v@) is None ==> (r matches Err(e2) && e2@
            == ApiErrorView::Decode)),
{
    match outcome {
        Err(e) => Err(e),
        Ok(v) => match decode_reaction(&v) {
            Some(n) => Ok(n),
            None => Err(ApiError::Decode),
        },
    }
}

/// What the attachments wrapper of a list response holds.
pub open spec fn spec_attachments_wrapper(v: JsonView) -> Option<Seq<AttachmentView>> {
    match v {
        JsonView::Obj(f) => match obj_get(f, "attachments"@) {
            Some(JsonView::Arr(vs)) => decode_att_list(vs),
            _ => None,
        },
        _ => None,
    }
}

/// Accepts a list-attachments response, unwrapping its `attachments`
/// field.
pub fn accept_attachment_list(outcome: Result<JsonValue, ApiError>) -> (r: Result<
    Vec<Attachment>,
    ApiError,
>)
    ensures
        outcome matches Err(e) ==> (r matches Err(e2) && e2@ == e@),
        outcome matches Ok(v) ==> (spec_attachments_wrapper(v@) matches Some(xs) ==> (r matches Ok(o)
            && o.deep_view() == xs)),
        outcome matches Ok(v) ==> (spec_attachments_wrapper(v@) is None ==> (r matches Err(e2) && e2@
            == ApiErrorView::Decode)),
{
    match outcome {
        Err(e) => Err(e),
        Ok(v) => match &v {
            JsonValue::Obj(fields) => {
                let k = String::from_str("attachments");
                match JsonValue::lookup(fields, &k) {
                    Some(JsonValue::Arr(vs)) => match decode_attachments(vs) {
                        Some(xs) => Ok(xs),
                        None => Err(ApiError::Decode),
                    },
                    _ => Err(ApiError::Decode),
                }
            },
            _ => Err(ApiError::Decode),
        },
    }
}

/// What the memos wrapper of a comment-list response holds.
pub open spec fn spec_notes_wrapper(v: JsonView) -> Option<Seq<NoteView>> {
    match v {
        JsonView::Obj(f) => match obj_get(f, "memos"@) {
            Some(JsonView::Arr(vs)) => decode_note_list(vs),
            _ => None,
        },
        _ => None,
    }
}

/// Accepts a list-comments response, unwrapping its `memos` field.
pub fn accept_note_list(outcome: Result<JsonValue, ApiError>) -> (r: Result<Vec<Note>, ApiError>)
    ensures
        outcome matches Err(e) ==> (r matches Err(e2) && e2@ == e@),
        outcome matches Ok(v) ==> (spec_notes_wrapper(v@) matches Some(xs) ==> (r matches Ok(o)
            && o.deep_view() == xs)),
        outcome matches Ok(v) ==> (spec_notes_wrapper(v@) is None ==> (r matches Err(e2) && e2@
            == ApiErrorView::Decode)),
{
    match outcome {
        Err(e) => Err(e),
        Ok(v) => match &v {
            JsonValue::Obj(fields) => {
                let k = String::from_str("memos");
                match JsonValue::lookup(fields, &k) {
                    Some(JsonValue::Arr(vs)) => match decode_notes(vs) {
                        Some(xs) => Ok(xs),
                        None => Err(ApiError::Decode),
                    },
                    _ => Err(ApiError::Decode),
                }
            },
            _ => Err(ApiError::Decode),
        },
    }
}

/// What the reactions wrapper of a list response holds.
pub open spec fn spec_reactions_wrapper(v: JsonView) -> Option<Seq<ReactionView>> {
    match v {
        JsonView::Obj(f) => match obj_get(f, "reactions"@) {
            Some(JsonView::Arr(vs)) => decode_reaction_list(vs),
            _ => None,
        },
        _ => None,
    }
}

/// Accepts a list-reactions response, unwrapping its `reactions` field.
pub fn accept_reaction_list(outcome: Result<JsonValue, ApiError>) -> (r: Result<
    Vec<Reaction>,
    ApiError,
>)
    ensures
        outcome matches Err(e) ==> (r matches Err(e2) && e2@ == e@),
        outcome matches Ok(v) ==> (spec_reactions_wrapper(v@) matches Some(xs) ==> (r matches Ok(o)
            && o.deep_view() == xs)),
        outcome matches Ok(v) ==> (spec_reactions_wrapper(v@) is None ==> (r matches Err(e2) && e2@
            == ApiErrorView::Decode)),
{
    match outcome {
        Err(e) => Err(e),
        Ok(v) => match &v {
            JsonValue::Obj(fields) => {
                let k = String::from_str("reactions");
                match JsonValue::lookup(fields, &k) {
                    Some(JsonValue::Arr(vs)) => match decode_reactions(vs) {
                        Some(xs) => Ok(xs),
                        None => Err(ApiError::Decode),
                    },
                    _ => Err(ApiError::Decode),
                }
            },
            _ => Err(ApiError::Decode),
        },
    }
}

/// What the relations wrapper of a list response holds.
pub open spec fn spec_relations_wrapper(v: JsonView) -> Option<Seq<RelationView>> {
    match v {
        JsonView::Obj(f) => match obj_get(f, "relations"@) {
            Some(JsonView::Arr(vs)) => decode_rel_list(vs),
            _ => None,
        },
        _ => None,
    }
}

/// Accepts a list-relations response, unwrapping its `relations` field.
pub fn accept_relation_list(outcome: Result<JsonValue, ApiError>) -> (r: Result<
    Vec<Relation>,
    ApiError,
>)
    ensures
        outcome matches Err(e) ==> (r matches Err(e2) && e2@ == e@),
        outcome matches Ok(v) ==> (spec_relations_wrapper(v@) matches Some(xs) ==> (r matches Ok(o)
            && o.deep_view() == xs)),
        outcome matches Ok(v) ==> (spec_relations_wrapper(v@) is None ==> (r matches Err(e2) && e2@
            == ApiErrorView::Decode)),
{
    match outcome {
        Err(e) => Err(e),
        Ok(v) => match &v {
            JsonValue::Obj(fields) => {
                let k = String::from_str("relations");
                match JsonValue::lookup(fields, &k) {
                    Some(JsonValue::Arr(vs)) => match decode_relations(vs) {
                        Some(xs) => Ok(xs),
                        None => Err(ApiError::Decode),
                    },
                    _ => Err(ApiError::Decode),
                }
            },
            _ => Err(ApiError::Decode),
        },
    }
}

// ---------------------------------------------------------------------
// Pagination
// ---------------------------------------------------------------------
/// One page of the note listing: its notes and the cursor to the next
/// page, empty when the listing is exhausted.
#[derive(Debug, PartialEq)]
pub struct NotesPage {
    pub memos: Vec<Note>,
    pub next_page_token: String,
}

pub ghost struct NotesPageView {
    pub memos: Seq<NoteView>,
    pub next_page_token: Seq<char>,
}

impl View for NotesPage {
    type V = NotesPageView;

    open spec fn view(&self) -> NotesPageView {
        NotesPageView {
            memos: self.memos.deep_view(),
            next_page_token: self.next_page_token@,
        }
    }
}

/// What a page response holds: a required `memos` array and an optional
/// `nextPageToken` cursor, empty when missing.
pub open spec fn spec_decode_page(v: JsonView) -> Option<NotesPageView> {
    match v {
        JsonView::Obj(f) => {
            let memos = match obj_get(f, "memos"@) {
                Some(JsonView::Arr(vs)) => decode_note_list(vs),
                _ => None,
            };
            let token = sf_str_def(f, "nextPageToken"@);
            if memos is Some && token is Some {
                Some(NotesPageView { memos: memos->Some_0, next_page_token: token->Some_0 })
            } else {
                None
            }
        },
        _ => None,
    }
}

/// Accepts one page of the note listing: an error makes the whole
/// listing fail, so no partial result ever leaves this layer.
pub fn accept_notes_page(outcome: Result<JsonValue, ApiError>) -> (r: Result<NotesPage, ApiError>)
    ensures
        outcome matches Err(e) ==> (r matches Err(e2) && e2@ == e@),
        outcome matches Ok(v) ==> (spec_decode_page(v@) matches Some(pv) ==> (r matches Ok(p) && p@
            == pv)),
        outcome matches Ok(v) ==> (spec_decode_page(v@) is None ==> (r matches Err(e2) && e2@
            == ApiErrorView::Decode)),
{
    match outcome {
        Err(e) => Err(e),
        Ok(v) => match &v {
            JsonValue::Obj(fields) => {
                let k = String::from_str("memos");
                let memos = match JsonValue::lookup(fields, &k) {
                    Some(JsonValue::Arr(vs)) => match decode_notes(vs) {
                        Some(xs) => xs,
                        None => {
                            return Err(ApiError::Decode);
                        },
                    },
                    _ => {
                        return Err(ApiError::Decode);
                    },
                };
                let kt = String::from_str("nextPageToken");
                let next_page_token = match JsonValue::lookup(fields, &kt) {
                    Some(JsonValue::Str(s)) => s.clone(),
                    None => String::new(),
                    _ => {
                        return Err(ApiError::Decode);
                    },
                };
                Ok(NotesPage { memos, next_page_token })
            },
            _ => Err(ApiError::Decode),
        },
    }
}

/// One absorption step of the drain: the page's notes join the
/// accumulator in order.
pub open spec fn absorb_step(acc: Seq<NoteView>, page: NotesPageView) -> Seq<NoteView> {
    acc + page.memos
}

/// The notes of a page sequence, in page order.
pub open spec fn pages_notes(pages: Seq<NotesPageView>) -> Seq<NoteView>
    decreases pages.len(),
{
    if pages.len() == 0 {
        Seq::empty()
    } else {
        pages[0].memos + pages_notes(pages.drop_first())
    }
}

/// The accumulator after absorbing a page sequence in order.
pub open spec fn drain_result(acc: Seq<NoteView>, pages: Seq<NotesPageView>) -> Seq<NoteView>
    decreases pages.len(),
{
    if pages.len() == 0 {
        acc
    } else {
        drain_result(absorb_step(acc, pages[0]), pages.drop_first())
    }
}

/// Draining absorbs every note of every page, in page order, whatever
/// the number of pages: the accumulated sequence is exactly the
/// concatenation of the pages' notes.
pub proof fn lemma_drain_collects(acc: Seq<NoteView>, pages: Seq<NotesPageView>)
    ensures
        drain_result(acc, pages) == acc + pages_notes(pages),
    decreases pages.len(),
{
    if pages.len() == 0 {
        assert(acc + Seq::<NoteView>::empty() =~= acc);
    } else {
        lemma_drain_collects(acc + pages[0].memos, pages.drop_first());
        assert((acc + pages[0].memos) + pages_notes(pages.drop_first()) =~= acc + (pages[0].memos
            + pages_notes(pages.drop_first())));
    }
}

/// The running state of one full listing: the notes drained so far, the
/// cursor for the next page, and whether the listing is exhausted.
pub struct ListDrain {
    pub notes: Vec<Note>,
    pub token: String,
    pub done: bool,
}

impl ListDrain {
    /// A fresh drain: nothing accumulated, no cursor, first page ahead.
    pub fn start() -> (r: ListDrain)
        ensures
            r.notes.deep_view() == Seq::<NoteView>::empty(),
            r.token@ == Seq::<char>::empty(),
            !r.done,
    {
        let notes: Vec<Note> = Vec::new();
        proof {
            assert(notes.deep_view() =~= Seq::<NoteView>::empty());
        }
        ListDrain { notes, token: String::new(), done: false }
    }

    /// The request for the page the cursor points at.
    pub fn next_request(&self, server: &Server) -> (r: Request)
        requires
            !self.done,
        ensures
            r@.method == Method::Get,
            r@.body is None,
            self.token@.len() == 0 ==> r@.url == url_of(server@.base_url, "memos"@),
            self.token@.len() > 0 ==> r@.url == url_of(
                server@.base_url,
                "memos?pageToken="@ + self.token@,
            ),
    {
        server.list_notes_request(self.token.as_str())
    }

    /// Absorbs one page: its notes join the accumulator in order, and
    /// the drain is done exactly when the page carries no cursor.
    pub fn absorb(&mut self, page: NotesPage)
        ensures
            final(self).notes.deep_view() == absorb_step(old(self).notes.deep_view(), page@),
            final(self).token@ == page@.next_page_token,
            final(self).done == (page@.next_page_token.len() == 0),
    {
        let ghost before = self.notes.deep_view();
        let mut memos = page.memos;
        self.notes.append(&mut memos);
        proof {
            assert(self.notes.deep_view() =~= before + page.memos.deep_view());
        }
        self.done = page.next_page_token.as_str().is_empty();
        self.token = page.next_page_token;
    }
}

} // verus!
