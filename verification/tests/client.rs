use memos_client::codec::{decode_note, decode_tags, encode_note};
use memos_client::dispatch::{
    decode_comment_param, decode_name_param, decode_note_param, encode_outcome, notes_payload,
    require_name, success_payload,
};
use memos_client::json::JsonValue;
use memos_client::note::{Note, Reaction, RelationType, State, Visibility};
use memos_client::notes::{
    accept_attachment_list, accept_note, accept_note_list, accept_notes_page,
    accept_reaction, accept_reaction_list, accept_relation_list, ListDrain, NotesPage,
};
use memos_client::session::Server;
use memos_client::transport::{classify_response, ApiError, HttpResponse, Method};
use memos_client::auth::{accept_current_user, AuthService};
use memos_client::user::{accept_created_user, accept_pat, decode_token, decode_user, encode_user, User};

fn s(x: &str) -> JsonValue {
    JsonValue::Str(x.to_string())
}

fn obj(fields: Vec<(&str, JsonValue)>) -> JsonValue {
    JsonValue::Obj(fields.into_iter().map(|(k, v)| (k.to_string(), v)).collect())
}

fn arr(items: Vec<JsonValue>) -> JsonValue {
    JsonValue::Arr(items)
}

/// A complete note wire object, as the remote service would send it.
fn note_wire(name: &str, content: &str) -> JsonValue {
    obj(vec![
        ("name", s(name)),
        ("state", s("NORMAL")),
        ("createTime", s("2024-01-02T03:04:05Z")),
        ("content", s(content)),
        ("visibility", s("PRIVATE")),
    ])
}

#[test]
fn test_note_round_trip_plain() {
    let note = Note::new("hello world");
    let wire = encode_note(&note);
    let back = decode_note(&wire).expect("round trip must decode");
    assert_eq!(back, note);
}

#[test]
fn test_note_round_trip_rich() {
    let note = Note {
        name: Some("memos/42".to_string()),
        state: State::Archived,
        creator: Some("users/7".to_string()),
        create_time: Some("2024-01-02T03:04:05Z".to_string()),
        update_time: Some("2024-02-02T03:04:05Z".to_string()),
        display_time: None,
        content: "# title\nbody".to_string(),
        visibility: Visibility::Public,
        tags: vec!["a".to_string(), "b".to_string()],
        pinned: true,
        attachments: vec![memos_client::note::Attachment {
            name: "attachments/1".to_string(),
            create_time: "2024-01-01T00:00:00Z".to_string(),
            filename: "f.png".to_string(),
            external_link: "".to_string(),
            mime_type: "image/png".to_string(),
            size: "123".to_string(),
            memo: "memos/42".to_string(),
        }],
        relations: vec![memos_client::note::Relation {
            memo: s("memos/42"),
            related_memo: s("memos/43"),
            relation_type: RelationType::Comment,
        }],
        reactions: vec![Reaction::new("memos/42", "heart")],
        property: Some(obj(vec![("k", s("v"))])),
        parent: "memos/41".to_string(),
        snippet: "# title".to_string(),
        location: Some("loc".to_string()),
    };
    let wire = encode_note(&note);
    let back = decode_note(&wire).expect("round trip must decode");
    assert_eq!(back, note);
    // The fields a create-then-get must keep come through unchanged.
    assert_eq!(back.content, note.content);
    assert_eq!(back.visibility, Visibility::Public);
    assert_eq!(back.state, State::Archived);
}

#[test]
fn test_decode_tolerates_missing_defaults() {
    // A minimal server response: optional fields absent entirely, as
    // the service's JSON convention omits unset fields.
    let wire = note_wire("memos/1", "hi");
    let n = decode_note(&wire).expect("minimal note must decode");
    assert_eq!(n.name.as_deref(), Some("memos/1"));
    assert_eq!(n.content, "hi");
    assert_eq!(n.creator, None);
    assert_eq!(n.update_time, None);
    assert_eq!(n.display_time, None);
    assert_eq!(n.tags, Vec::<String>::new());
    assert_eq!(n.pinned, false);
    assert_eq!(n.parent, "");
    assert_eq!(n.property, None);
    // a bare create/update payload needs only the required fields
    let payload = obj(vec![
        ("state", s("NORMAL")),
        ("content", s("new note")),
        ("visibility", s("PRIVATE")),
    ]);
    let p = decode_note(&payload).expect("bare payload must decode");
    assert_eq!(p.name, None);
    assert_eq!(p.content, "new note");
}

#[test]
fn test_decode_failures() {
    let base = |state: &str, with_content: bool, tags: Option<JsonValue>| {
        let mut fields = vec![
            ("name".to_string(), s("memos/1")),
            ("state".to_string(), s(state)),
            ("visibility".to_string(), s("PRIVATE")),
        ];
        if with_content {
            fields.push(("content".to_string(), s("x")));
        }
        if let Some(t) = tags {
            fields.push(("tags".to_string(), t));
        }
        JsonValue::Obj(fields)
    };
    // content is required
    assert!(decode_note(&base("NORMAL", false, None)).is_none());
    // unknown state token
    assert!(decode_note(&base("SOMETHING_ELSE", true, None)).is_none());
    // a non-string tag
    assert!(decode_note(&base("NORMAL", true, Some(arr(vec![JsonValue::Num(3)])))).is_none());
    // not an object at all
    assert!(decode_note(&s("nope")).is_none());
    // tags decoding alone
    assert!(decode_tags(&vec![JsonValue::Bool(true)]).is_none());
}

#[test]
fn test_classify_response_boundaries() {
    let ok = |st: u16| classify_response(HttpResponse { status: st, body: "b".to_string() });
    assert_eq!(ok(200), Ok("b".to_string()));
    assert_eq!(ok(299), Ok("b".to_string()));
    assert!(ok(199).is_err());
    assert!(ok(300).is_err());
    assert!(ok(404).is_err());
}

#[test]
fn test_transport_failure_message() {
    let r = classify_response(HttpResponse { status: 404, body: "memo not found".to_string() });
    let e = r.expect_err("404 is a failure");
    assert_eq!(e.message(), "Request failed: 404 - memo not found");
    let e2 = ApiError::Transport { status: 65535, body: "x".to_string() };
    assert_eq!(e2.message(), "Request failed: 65535 - x");
}

#[test]
fn test_get_after_delete_surfaces_transport_failure() {
    // The remote service answers a get after a delete with a non-2xx
    // status; the acceptor must surface that failure, not a tombstone.
    let outcome = classify_response(HttpResponse { status: 404, body: "gone".to_string() })
        .map(|_| unreachable!());
    let r = accept_note(outcome);
    match r {
        Err(ApiError::Transport { status, body }) => {
            assert_eq!(status, 404);
            assert_eq!(body, "gone");
        }
        other => panic!("expected a transport failure, got {:?}", other),
    }
}

#[test]
fn test_list_drains_three_pages() {
    let server = Server::new("localhost:5230", "tok");
    let mut drain = ListDrain::start();

    let page = |names: &[&str], token: &str| NotesPage {
        memos: names
            .iter()
            .map(|n| decode_note(&note_wire(n, n)).unwrap())
            .collect(),
        next_page_token: token.to_string(),
    };

    let req1 = drain.next_request(&server);
    assert_eq!(req1.url, "http://localhost:5230/api/v1/memos");
    drain.absorb(page(&["memos/a", "memos/b"], "t1"));
    assert!(!drain.done);

    let req2 = drain.next_request(&server);
    assert_eq!(req2.url, "http://localhost:5230/api/v1/memos?pageToken=t1");
    drain.absorb(page(&["memos/c", "memos/d"], "t2"));
    assert!(!drain.done);

    let req3 = drain.next_request(&server);
    assert_eq!(req3.url, "http://localhost:5230/api/v1/memos?pageToken=t2");
    drain.absorb(page(&["memos/e"], ""));
    assert!(drain.done);

    // 2 + 2 + 1 notes, in page order.
    assert_eq!(drain.notes.len(), 5);
    let names: Vec<&str> = drain.notes.iter().map(|n| n.name.as_deref().unwrap()).collect();
    assert_eq!(names, vec!["memos/a", "memos/b", "memos/c", "memos/d", "memos/e"]);
}

#[test]
fn test_notes_page_acceptor() {
    let body = obj(vec![
        ("memos", arr(vec![note_wire("memos/1", "x")])),
        ("nextPageToken", s("cursor")),
    ]);
    let p = accept_notes_page(Ok(body)).expect("page must decode");
    assert_eq!(p.memos.len(), 1);
    assert_eq!(p.next_page_token, "cursor");
    // missing cursor means the listing is exhausted
    let last = obj(vec![("memos", arr(vec![]))]);
    let p2 = accept_notes_page(Ok(last)).expect("last page must decode");
    assert_eq!(p2.next_page_token, "");
    // a failing page fails the whole listing
    let e = accept_notes_page(Err(ApiError::Transport { status: 500, body: "x".to_string() }));
    assert!(e.is_err());
}

#[test]
fn test_update_mask_is_fixed() {
    let server = Server::new("h", "t");
    let mut note = Note::new("body");
    note.name = Some("memos/9".to_string());
    // however many extra fields the payload carries...
    note.pinned = true;
    note.parent = "memos/1".to_string();
    note.location = Some("somewhere".to_string());
    let req = server.update_note_request(&note).expect("named note must build");
    assert_eq!(req.method, Method::Patch);
    assert_eq!(
        req.url,
        "http://h/api/v1/memos/9?updateMask=content,state,visibility,tags,pinned"
    );
    assert_eq!(req.body, Some(encode_note(&note)));
}

#[test]
fn test_update_and_delete_require_name() {
    let server = Server::new("h", "t");
    let unnamed = Note::new("body");
    // update: refused before any request value exists
    assert_eq!(server.update_note_request(&unnamed), Err(ApiError::MissingName));
    // delete goes through the dispatcher's name check first
    assert_eq!(require_name(&unnamed), Err(ApiError::MissingName));
    let mut named = Note::new("body");
    named.name = Some("memos/3".to_string());
    assert_eq!(require_name(&named), Ok("memos/3".to_string()));
}

#[test]
fn test_cleanup_derived_signs_out_once_root_never() {
    let root = Server::new("localhost:5230", "root-token");
    assert!(root.cleanup_request().is_none());

    let signin_rsp = obj(vec![("accessToken", s("derived-token"))]);
    let derived = root.sign_in_accept(Ok(signin_rsp)).expect("sign-in must succeed");
    assert!(derived.is_derived());
    assert_eq!(derived.token(), "derived-token");
    assert_eq!(derived.base_url(), root.base_url());

    let td = derived.cleanup_request().expect("derived session owes a sign-out");
    assert_eq!(td.method, Method::Post);
    assert_eq!(td.url, "http://localhost:5230/api/v1/auth/signout");
    assert!(td.body.is_none());
}

#[test]
fn test_error_envelope_shape() {
    let e = ApiError::Transport { status: 500, body: "boom".to_string() };
    let payload = encode_outcome(Err(e));
    assert_eq!(
        payload,
        obj(vec![("error", s("Request failed: 500 - boom"))])
    );
    // decode failures and contract violations use the same shape
    let p2 = encode_outcome(Err(ApiError::Decode));
    assert_eq!(p2, obj(vec![("error", s("Failed to decode response body"))]));
    let p3 = encode_outcome(Err(ApiError::MissingName));
    assert_eq!(p3, obj(vec![("error", s("Missing required field: name"))]));
    // every message is non-empty
    for p in [p2, p3] {
        match p {
            JsonValue::Obj(fields) => match &fields[0].1 {
                JsonValue::Str(m) => assert!(!m.is_empty()),
                _ => panic!("error value must be a string"),
            },
            _ => panic!("envelope must be an object"),
        }
    }
    // a success passes through untouched
    let okv = s("fine");
    assert_eq!(encode_outcome(Ok(okv)), s("fine"));
}

#[test]
fn test_dispatch_params() {
    assert_eq!(
        decode_name_param(&obj(vec![("name", s("memos/5"))])),
        Ok("memos/5".to_string())
    );
    assert_eq!(decode_name_param(&obj(vec![])), Err(ApiError::Decode));
    assert_eq!(decode_name_param(&s("x")), Err(ApiError::Decode));

    let comment = note_wire("", "a comment");
    let p = decode_comment_param(&obj(vec![
        ("memo_name", s("memos/5")),
        ("comment", comment.duplicate()),
    ]))
    .expect("comment param must decode");
    assert_eq!(p.0, "memos/5");
    assert_eq!(p.1.content, "a comment");
    assert!(decode_comment_param(&obj(vec![("memo_name", s("memos/5"))])).is_err());

    let n = decode_note_param(&note_wire("memos/5", "c")).expect("note param must decode");
    assert_eq!(n.content, "c");
}

#[test]
fn test_request_builders() {
    let server = Server::new("example.org:80", "tkn");
    assert_eq!(server.base_url(), "http://example.org:80/api/v1");
    assert_eq!(server.token(), "tkn");

    let note = Note::new("text");
    let create = server.create_note_request(&note);
    assert_eq!(create.method, Method::Post);
    assert_eq!(create.url, "http://example.org:80/api/v1/memos");
    assert_eq!(create.body, Some(encode_note(&note)));

    let get = server.get_note_request("memos/1");
    assert_eq!(get.method, Method::Get);
    assert_eq!(get.url, "http://example.org:80/api/v1/memos/1");
    assert!(get.body.is_none());

    let del = server.delete_note_request("memos/1");
    assert_eq!(del.method, Method::Delete);
    assert_eq!(del.url, "http://example.org:80/api/v1/memos/1");

    let comments = server.list_note_comments_request("memos/1");
    assert_eq!(comments.url, "http://example.org:80/api/v1/memos/1/comments");

    let comment = Note::new("reply");
    let cc = server.create_note_comment_request("memos/1", &comment);
    assert_eq!(cc.method, Method::Post);
    assert_eq!(cc.url, "http://example.org:80/api/v1/memos/1/comments");
    assert_eq!(cc.body, Some(encode_note(&comment)));

    let atts = server.list_note_attachments_request("memos/1");
    assert_eq!(atts.url, "http://example.org:80/api/v1/memos/1/attachments");
    let rels = server.list_note_relations_request("memos/1");
    assert_eq!(rels.url, "http://example.org:80/api/v1/memos/1/relations");
    let reacts = server.list_note_reactions_request("memos/1");
    assert_eq!(reacts.url, "http://example.org:80/api/v1/memos/1/reactions");
}

#[test]
fn test_reaction_flow() {
    let server = Server::new("h", "t");
    let reaction = Reaction::new("memos/1", "heart");
    let up = server.upsert_note_reaction_request("memos/1", &reaction);
    assert_eq!(up.method, Method::Post);
    assert_eq!(up.url, "http://h/api/v1/memos/1/reactions");
    match &up.body {
        Some(JsonValue::Obj(fields)) => {
            assert_eq!(fields[0].0, "name");
            assert_eq!(fields[0].1, s("memos/1"));
            assert_eq!(fields[1].0, "reaction");
        }
        other => panic!("unexpected body {:?}", other),
    }

    let echoed = obj(vec![
        ("name", s("reactions/7")),
        ("contentId", s("memos/1")),
        ("reactionType", s("heart")),
    ]);
    let created = accept_reaction(Ok(echoed)).expect("reaction must decode");
    assert_eq!(created.name.as_deref(), Some("reactions/7"));
    assert_eq!(created.reaction_type, "heart");

    let listed = accept_reaction_list(Ok(obj(vec![(
        "reactions",
        arr(vec![obj(vec![
            ("name", s("reactions/7")),
            ("reactionType", s("heart")),
        ])]),
    )])))
    .expect("reaction list must decode");
    assert_eq!(listed.len(), 1);
    assert!(listed.iter().any(|r| r.reaction_type == "heart"));

    let rm = server.delete_note_reaction_request("reactions/7");
    assert_eq!(rm.method, Method::Delete);
    assert_eq!(rm.url, "http://h/api/v1/reactions/7");
}

#[test]
fn test_wrapper_acceptors() {
    // every list acceptor requires its wrapper field
    assert!(accept_note_list(Ok(obj(vec![("memos", arr(vec![]))]))).unwrap().is_empty());
    assert!(accept_note_list(Ok(obj(vec![]))).is_err());
    assert!(accept_attachment_list(Ok(obj(vec![("attachments", arr(vec![]))])))
        .unwrap()
        .is_empty());
    assert!(accept_attachment_list(Ok(s("x"))).is_err());
    assert!(accept_relation_list(Ok(obj(vec![("relations", arr(vec![]))])))
        .unwrap()
        .is_empty());
    assert!(accept_reaction_list(Ok(obj(vec![]))).is_err());
}

#[test]
fn test_set_attachments_and_relations_requests() {
    let server = Server::new("h", "t");
    let sa = server.set_note_attachments_request("memos/1", &vec![]);
    assert_eq!(sa.method, Method::Post);
    assert_eq!(sa.url, "http://h/api/v1/memos/1/attachments");
    match &sa.body {
        Some(JsonValue::Obj(fields)) => {
            assert_eq!(fields[0], ("name".to_string(), s("memos/1")));
            assert_eq!(fields[1], ("attachments".to_string(), arr(vec![])));
        }
        other => panic!("unexpected body {:?}", other),
    }
    let sr = server.set_note_relations_request("memos/1", &vec![]);
    assert_eq!(sr.url, "http://h/api/v1/memos/1/relations");
}

#[test]
fn test_auth_flow() {
    let server = Server::new("h", "t");
    let me = server.current_user_request();
    assert_eq!(me.method, Method::Get);
    assert_eq!(me.url, "http://h/api/v1/auth/me");
    assert!(me.body.is_none());

    let si = server.sign_in_request("alice", "pw");
    assert_eq!(si.method, Method::Post);
    assert_eq!(si.url, "http://h/api/v1/auth/signin");
    assert_eq!(
        si.body,
        Some(obj(vec![(
            "passwordCredentials",
            obj(vec![("username", s("alice")), ("password", s("pw"))]),
        )]))
    );

    let identity = obj(vec![(
        "user",
        obj(vec![
            ("name", s("users/1")),
            ("role", s("HOST")),
            ("username", s("alice")),
            ("state", s("NORMAL")),
        ]),
    )]);
    let u = accept_current_user(Ok(identity)).expect("identity must decode");
    assert_eq!(u.username, "alice");
    assert_eq!(u.role, memos_client::auth::Role::Host);

    // an expired credential surfaces as the transport failure it is
    let e = accept_current_user(Err(ApiError::Transport {
        status: 401,
        body: "unauthorized".to_string(),
    }));
    assert!(e.is_err());
}

#[test]
fn test_user_codec_and_requests() {
    let server = Server::new("localhost:5230", "tok");
    let user = User::new("testuser", "testpassword", "test@example.com");
    let cu = server.create_user_request(&user);
    assert_eq!(cu.method, Method::Post);
    assert_eq!(cu.url, "http://localhost:5230/api/v1/users");

    // the wire object carries every field, password included, with the
    // service's own key spellings
    let wire = encode_user(&user);
    match &wire {
        JsonValue::Obj(fields) => {
            let keys: Vec<&str> = fields.iter().map(|(k, _)| k.as_str()).collect();
            assert_eq!(
                keys,
                vec![
                    "name",
                    "role",
                    "username",
                    "email",
                    "displayname",
                    "avatarUrl",
                    "description",
                    "password",
                    "state"
                ]
            );
        }
        other => panic!("unexpected wire {:?}", other),
    }
    let back = decode_user(&wire).expect("user must decode");
    assert_eq!(back, user);

    let created = accept_created_user(Ok(wire)).expect("created user must decode");
    assert_eq!(created.username, user.username);

    let du = server.delete_user_request(&created);
    assert_eq!(du.method, Method::Delete);
    // the created user's name was empty here, so the endpoint is bare
    assert_eq!(du.url, "http://localhost:5230/api/v1/");
}

#[test]
fn test_pat_flow() {
    let server = Server::new("h", "t");
    let mut user = User::new("u", "p", "e@x");
    user.name = "users/2".to_string();
    let req = server.create_pat_request(&user, "Test PAT", 30);
    assert_eq!(req.method, Method::Post);
    assert_eq!(req.url, "http://h/api/v1/users/2/personalAccessTokens");
    match &req.body {
        Some(JsonValue::Obj(fields)) => {
            assert_eq!(fields[0], ("parent".to_string(), s("users/2")));
            assert_eq!(fields[1], ("description".to_string(), s("Test PAT")));
            assert_eq!(fields[2], ("expiresInDays".to_string(), JsonValue::Num(30)));
        }
        other => panic!("unexpected body {:?}", other),
    }

    // a fresh credential ordinarily reports neither an expiry nor a
    // last use; both keys may be absent entirely
    let rsp = obj(vec![
        (
            "personalAccessToken",
            obj(vec![
                ("name", s("tokens/9")),
                ("description", s("Test PAT")),
                ("createdAt", s("2024-01-01T00:00:00Z")),
            ]),
        ),
        ("token", s("SECRET-REDACTED")),
    ]);
    let (token, plain) = accept_pat(Ok(rsp)).expect("token must decode");
    assert_eq!(token.description, "Test PAT");
    assert_eq!(token.expires_at, None);
    assert_eq!(token.last_used_at, None);
    assert!(!plain.is_empty());

    let del = server.delete_pat_request(&token);
    assert_eq!(del.method, Method::Delete);
    assert_eq!(del.url, "http://h/api/v1/tokens/9");

    // a token record without its creation time is malformed
    let bad = obj(vec![("name", s("tokens/9")), ("description", s("d"))]);
    assert!(decode_token(&bad).is_none());
}

#[test]
fn test_payload_helpers() {
    assert_eq!(success_payload(), obj(vec![("status", s("success"))]));
    let notes = vec![Note::new("a"), Note::new("b")];
    match notes_payload(&notes) {
        JsonValue::Arr(items) => assert_eq!(items.len(), 2),
        other => panic!("unexpected payload {:?}", other),
    }
}

#[test]
fn test_property_null_is_not_preserved() {
    // The one shape the wire format cannot keep: a property that is
    // present but null goes on the wire as null, and null always
    // decodes as an absent property.
    let mut note = Note::new("x");
    note.property = Some(JsonValue::Null);
    let back = decode_note(&encode_note(&note)).expect("note must decode");
    assert_eq!(back.property, None);
}

#[test]
fn test_network_failure_message() {
    // A failure of the exchange itself keeps the carrier's own text,
    // and an empty detail still yields a non-empty message.
    let e = ApiError::Network { detail: "connection refused".to_string() };
    assert_eq!(e.message(), "connection refused");
    let blank = ApiError::Network { detail: String::new() };
    assert!(!blank.message().is_empty());
    let payload = encode_outcome(Err(e));
    assert_eq!(payload, obj(vec![("error", s("connection refused"))]));
}
