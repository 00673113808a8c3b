//! The note entity and its sub-entities, with their mathematical views.
//!
//! Timestamps are carried as the verbatim wire strings: this layer never
//! computes with time, it only moves it between the caller and the remote
//! service.

use vstd::prelude::*;
use vstd::string::StringExecFns;
use crate::json::JsonValue;
use crate::json::JsonView;

verus! {

/// The lifecycle state of a note.
#[derive(Clone, Copy, PartialEq, Eq, Structural, Debug)]
pub enum State {
    StateUnspecified,
    Normal,
    Archived,
}

/// Who can see a note.
#[derive(Clone, Copy, PartialEq, Eq, Structural, Debug)]
pub enum Visibility {
    VisibilityUnspecified,
    Private,
    Protected,
    Public,
}

/// The kind of an edge between two notes.
#[derive(Clone, Copy, PartialEq, Eq, Structural, Debug)]
pub enum RelationType {
    RelationTypeUnspecified,
    Reference,
    Comment,
}

pub open spec fn state_wire(s: State) -> Seq<char> {
    match s {
        State::StateUnspecified => "STATE_UNSPECIFIED"@,
        State::Normal => "NORMAL"@,
        State::Archived => "ARCHIVED"@,
    }
}

pub open spec fn state_of_wire(s: Seq<char>) -> Option<State> {
    if s == "STATE_UNSPECIFIED"@ {
        Some(State::StateUnspecified)
    } else if s == "NORMAL"@ {
        Some(State::Normal)
    } else if s == "ARCHIVED"@ {
        Some(State::Archived)
    } else {
        None
    }
}

pub open spec fn visibility_wire(v: Visibility) -> Seq<char> {
    match v {
        Visibility::VisibilityUnspecified => "VISIBILITY_UNSPECIFIED"@,
        Visibility::Private => "PRIVATE"@,
        Visibility::Protected => "PROTECTED"@,
        Visibility::Public => "PUBLIC"@,
    }
}

pub open spec fn visibility_of_wire(s: Seq<char>) -> Option<Visibility> {
    if s == "VISIBILITY_UNSPECIFIED"@ {
        Some(Visibility::VisibilityUnspecified)
    } else if s == "PRIVATE"@ {
        Some(Visibility::Private)
    } else if s == "PROTECTED"@ {
        Some(Visibility::Protected)
    } else if s == "PUBLIC"@ {
        Some(Visibility::Public)
    } else {
        None
    }
}

pub open spec fn relation_type_wire(t: RelationType) -> Seq<char> {
    match t {
        RelationType::RelationTypeUnspecified => "TYPE_UNSPECIFIED"@,
        RelationType::Reference => "REFERENCE"@,
        RelationType::Comment => "COMMENT"@,
    }
}

pub open spec fn relation_type_of_wire(s: Seq<char>) -> Option<RelationType> {
    if s == "TYPE_UNSPECIFIED"@ {
        Some(RelationType::RelationTypeUnspecified)
    } else if s == "REFERENCE"@ {
        Some(RelationType::Reference)
    } else if s == "COMMENT"@ {
        Some(RelationType::Comment)
    } else {
        None
    }
}

/// Decoding the wire token of a state undoes encoding it.
pub proof fn lemma_state_wire_round(s: State)
    ensures
        state_of_wire(state_wire(s)) == Some(s),
{
    reveal_strlit("STATE_UNSPECIFIED");
    reveal_strlit("NORMAL");
    reveal_strlit("ARCHIVED");
    assert("NORMAL"@.len() == 6);
    assert("STATE_UNSPECIFIED"@.len() == 17);
    assert("ARCHIVED"@.len() == 8);
    assert("NORMAL"@ != "STATE_UNSPECIFIED"@);
    assert("ARCHIVED"@ != "STATE_UNSPECIFIED"@);
    assert("ARCHIVED"@ != "NORMAL"@);
}

/// Decoding the wire token of a visibility undoes encoding it.
pub proof fn lemma_visibility_wire_round(v: Visibility)
    ensures
        visibility_of_wire(visibility_wire(v)) == Some(v),
{
    reveal_strlit("VISIBILITY_UNSPECIFIED");
    reveal_strlit("PRIVATE");
    reveal_strlit("PROTECTED");
    reveal_strlit("PUBLIC");
    assert("VISIBILITY_UNSPECIFIED"@.len() == 22);
    assert("PRIVATE"@.len() == 7);
    assert("PROTECTED"@.len() == 9);
    assert("PUBLIC"@.len() == 6);
    assert("PRIVATE"@ != "VISIBILITY_UNSPECIFIED"@);
    assert("PROTECTED"@ != "VISIBILITY_UNSPECIFIED"@);
    assert("PROTECTED"@ != "PRIVATE"@);
    assert("PUBLIC"@ != "VISIBILITY_UNSPECIFIED"@);
    assert("PUBLIC"@ != "PRIVATE"@);
    assert("PUBLIC"@ != "PROTECTED"@);
}

/// Decoding the wire token of a relation type undoes encoding it.
pub proof fn lemma_relation_type_wire_round(t: RelationType)
    ensures
        relation_type_of_wire(relation_type_wire(t)) == Some(t),
{
    reveal_strlit("TYPE_UNSPECIFIED");
    reveal_strlit("REFERENCE");
    reveal_strlit("COMMENT");
    assert("TYPE_UNSPECIFIED"@.len() == 16);
    assert("REFERENCE"@.len() == 9);
    assert("COMMENT"@.len() == 7);
    assert("REFERENCE"@ != "TYPE_UNSPECIFIED"@);
    assert("COMMENT"@ != "TYPE_UNSPECIFIED"@);
    assert("COMMENT"@ != "REFERENCE"@);
}

/// A file attached to a note.
#[derive(Debug, PartialEq)]
pub struct Attachment {
    pub name: String,
    pub create_time: String,
    pub filename: String,
    pub external_link: String,
    pub mime_type: String,
    pub size: String,
    pub memo: String,
}

pub ghost struct AttachmentView {
    pub name: Seq<char>,
    pub create_time: Seq<char>,
    pub filename: Seq<char>,
    pub external_link: Seq<char>,
    pub mime_type: Seq<char>,
    pub size: Seq<char>,
    pub memo: Seq<char>,
}

impl View for Attachment {
    type V = AttachmentView;

    open spec fn view(&self) -> AttachmentView {
        AttachmentView {
            name: self.name@,
            create_time: self.create_time@,
            filename: self.filename@,
            external_link: self.external_link@,
            mime_type: self.mime_type@,
            size: self.size@,
            memo: self.memo@,
        }
    }
}

impl DeepView for Attachment {
    type V = AttachmentView;

    open spec fn deep_view(&self) -> AttachmentView {
        self.view()
    }
}

/// A typed edge between two notes. The endpoints are carried as the
/// arbitrary JSON values the remote service uses for them.
#[derive(Debug, PartialEq)]
pub struct Relation {
    pub memo: JsonValue,
    pub related_memo: JsonValue,
    pub relation_type: RelationType,
}

pub ghost struct RelationView {
    pub memo: JsonView,
    pub related_memo: JsonView,
    pub relation_type: RelationType,
}

impl View for Relation {
    type V = RelationView;

    open spec fn view(&self) -> RelationView {
        RelationView {
            memo: self.memo@,
            related_memo: self.related_memo@,
            relation_type: self.relation_type,
        }
    }
}

impl DeepView for Relation {
    type V = RelationView;

    open spec fn deep_view(&self) -> RelationView {
        self.view()
    }
}

/// A short annotation (for example an emoji) a user attached to a note.
#[derive(Debug, PartialEq)]
pub struct Reaction {
    pub name: Option<String>,
    pub creator: Option<String>,
    pub content_id: String,
    pub reaction_type: String,
    pub create_time: Option<String>,
}

pub ghost struct ReactionView {
    pub name: Option<Seq<char>>,
    pub creator: Option<Seq<char>>,
    pub content_id: Seq<char>,
    pub reaction_type: Seq<char>,
    pub create_time: Option<Seq<char>>,
}

impl View for Reaction {
    type V = ReactionView;

    open spec fn view(&self) -> ReactionView {
        ReactionView {
            name: self.name.deep_view(),
            creator: self.creator.deep_view(),
            content_id: self.content_id@,
            reaction_type: self.reaction_type@,
            create_time: self.create_time.deep_view(),
        }
    }
}

impl DeepView for Reaction {
    type V = ReactionView;

    open spec fn deep_view(&self) -> ReactionView {
        self.view()
    }
}

impl Reaction {
    /// A fresh reaction of the given kind against a content id; the
    /// remote service assigns the rest on upsert.
    pub fn new(content_id: &str, reaction_type: &str) -> (r: Reaction)
        ensures
            r@ == (ReactionView {
                name: None,
                creator: None,
                content_id: content_id@,
                reaction_type: reaction_type@,
                create_time: None,
            }),
    {
        Reaction {
            name: None,
            creator: None,
            content_id: String::from_str(content_id),
            reaction_type: String::from_str(reaction_type),
            create_time: None,
        }
    }
}

/// The core content entity: markdown text plus metadata. `name` is
/// absent until the remote service assigns one on creation, and is
/// required for every mutating operation other than creation.
#[derive(Debug, PartialEq)]
pub struct Note {
    pub name: Option<String>,
    pub state: State,
    pub creator: Option<String>,
    pub create_time: Option<String>,
    pub update_time: Option<String>,
    pub display_time: Option<String>,
    pub content: String,
    pub visibility: Visibility,
    pub tags: Vec<String>,
    pub pinned: bool,
    pub attachments: Vec<Attachment>,
    pub relations: Vec<Relation>,
    pub reactions: Vec<Reaction>,
    pub property: Option<JsonValue>,
    pub parent: String,
    pub snippet: String,
    pub location: Option<String>,
}

pub ghost struct NoteView {
    pub name: Option<Seq<char>>,
    pub state: State,
    pub creator: Option<Seq<char>>,
    pub create_time: Option<Seq<char>>,
    pub update_time: Option<Seq<char>>,
    pub display_time: Option<Seq<char>>,
    pub content: Seq<char>,
    pub visibility: Visibility,
    pub tags: Seq<Seq<char>>,
    pub pinned: bool,
    pub attachments: Seq<AttachmentView>,
    pub relations: Seq<RelationView>,
    pub reactions: Seq<ReactionView>,
    pub property: Option<JsonView>,
    pub parent: Seq<char>,
    pub snippet: Seq<char>,
    pub location: Option<Seq<char>>,
}

impl View for Note {
    type V = NoteView;

    open spec fn view(&self) -> NoteView {
        NoteView {
            name: self.name.deep_view(),
            state: self.state,
            creator: self.creator.deep_view(),
            create_time: self.create_time.deep_view(),
            update_time: self.update_time.deep_view(),
            display_time: self.display_time.deep_view(),
            content: self.content@,
            visibility: self.visibility,
            tags: self.tags.deep_view(),
            pinned: self.pinned,
            attachments: self.attachments.deep_view(),
            relations: self.relations.deep_view(),
            reactions: self.reactions.deep_view(),
            property: self.property.deep_view(),
            parent: self.parent@,
            snippet: self.snippet@,
            location: self.location.deep_view(),
        }
    }
}

impl DeepView for Note {
    type V = NoteView;

    open spec fn deep_view(&self) -> NoteView {
        self.view()
    }
}

impl Note {
    /// A fresh private note in the normal state holding the given
    /// markdown content; everything else is empty until the remote
    /// service fills it in.
    pub fn new(content: &str) -> (r: Note)
        ensures
            r@ == (NoteView {
                name: None,
                state: State::Normal,
                creator: None,
                create_time: None,
                update_time: None,
                display_time: None,
                content: content@,
                visibility: Visibility::Private,
                tags: Seq::empty(),
                pinned: false,
                attachments: Seq::empty(),
                relations: Seq::empty(),
                reactions: Seq::empty(),
                property: None,
                parent: Seq::empty(),
                snippet: Seq::empty(),
                location: None,
            }),
    {
        let r = Note {
            name: None,
            state: State::Normal,
            creator: None,
            create_time: None,
            update_time: None,
            display_time: None,
            content: String::from_str(content),
            visibility: Visibility::Private,
            tags: Vec::new(),
            pinned: false,
            attachments: Vec::new(),
            relations: Vec::new(),
            reactions: Vec::new(),
            property: None,
            parent: String::new(),
            snippet: String::new(),
            location: None,
        };
        proof {
            assert(r.tags.deep_view() =~= Seq::<Seq<char>>::empty());
            assert(r.attachments.deep_view() =~= Seq::<AttachmentView>::empty());
            assert(r.relations.deep_view() =~= Seq::<RelationView>::empty());
            assert(r.reactions.deep_view() =~= Seq::<ReactionView>::empty());
        }
        r
    }
}

} // verus!
