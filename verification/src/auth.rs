//! The authentication service: the identity check and the sign-in
//! exchange that derives a new session.

use vstd::prelude::*;
use vstd::string::StringExecFns;
use crate::json::JsonValue;
use crate::json::JsonView;
use crate::json::obj_get;
use crate::json::lemma_view_of_json_fields;
use crate::json::view_of_json_fields;
use crate::session::Server;
use crate::session::ServerView;
use crate::session::url_of;
use crate::transport::ApiError;
use crate::transport::ApiErrorView;
use crate::transport::Method;
use crate::transport::Request;
use crate::transport::RequestView;

verus! {

/// The role of an authenticated user, as the identity endpoint reports
/// it. This set carries a host role that the user-management context
/// does not.
#[derive(Clone, Copy, PartialEq, Eq, Structural, Debug)]
pub enum Role {
    RoleUnspecified,
    Host,
    Admin,
    User,
}

/// The lifecycle state of an authenticated user.
#[derive(Clone, Copy, PartialEq, Eq, Structural, Debug)]
pub enum State {
    StateUnspecified,
    Normal,
    Archived,
}

pub open spec fn role_of_wire(s: Seq<char>) -> Option<Role> {
    if s == "ROLE_UNSPECIFIED"@ {
        Some(Role::RoleUnspecified)
    } else if s == "HOST"@ {
        Some(Role::Host)
    } else if s == "ADMIN"@ {
        Some(Role::Admin)
    } else if s == "USER"@ {
        Some(Role::User)
    } else {
        None
    }
}

pub open spec fn state_of_wire(s: Seq<char>) -> Option<State> {
    if s == "STATE_UNSPECIFIED"@ {
        Some(State::StateUnspecified)
    } else if s == "NORMAL"@ {
        Some(State::Normal)
    } else if s == "ARCHIVED"@ {
        Some(State::Archived)
    } else {
        None
    }
}

fn role_parse(s: &String) -> (r: Option<Role>)
    ensures
        r == role_of_wire(s@),
{
    if *s == String::from_str("ROLE_UNSPECIFIED") {
        Some(Role::RoleUnspecified)
    } else if *s == String::from_str("HOST") {
        Some(Role::Host)
    } else if *s == String::from_str("ADMIN") {
        Some(Role::Admin)
    } else if *s == String::from_str("USER") {
        Some(Role::User)
    } else {
        None
    }
}

fn state_parse(s: &String) -> (r: Option<State>)
    ensures
        r == state_of_wire(s@),
{
    if *s == String::from_str("STATE_UNSPECIFIED") {
        Some(State::StateUnspecified)
    } else if *s == String::from_str("NORMAL") {
        Some(State::Normal)
    } else if *s == String::from_str("ARCHIVED") {
        Some(State::Archived)
    } else {
        None
    }
}

/// The authenticated user the identity endpoint reports.
#[derive(Debug, PartialEq)]
pub struct User {
    pub name: String,
    pub role: Role,
    pub username: String,
    pub email: String,
    pub display_name: String,
    pub avatar_url: String,
    pub description: String,
    pub state: State,
}

pub ghost struct UserView {
    pub name: Seq<char>,
    pub role: Role,
    pub username: Seq<char>,
    pub email: Seq<char>,
    pub display_name: Seq<char>,
    pub avatar_url: Seq<char>,
    pub description: Seq<char>,
    pub state: State,
}

impl View for User {
    type V = UserView;

    open spec fn view(&self) -> UserView {
        UserView {
            name: self.name@,
            role: self.role,
            username: self.username@,
            email: self.email@,
            display_name: self.display_name@,
            avatar_url: self.avatar_url@,
            description: self.description@,
            state: self.state,
        }
    }
}

/// What an authenticated-user wire object holds. The role and the state
/// are required; everything else defaults to empty.
pub open spec fn spec_decode_auth_user(v: JsonView) -> Option<UserView> {
    match v {
        JsonView::Obj(f) => {
            let name = crate::codec::sf_str_def(f, "name"@);
            let role = match obj_get(f, "role"@) {
                Some(JsonView::Str(s)) => role_of_wire(s),
                _ => None,
            };
            let username = crate::codec::sf_str_req(f, "username"@);
            let email = crate::codec::sf_str_def(f, "email"@);
            let display_name = crate::codec::sf_str_def(f, "displayName"@);
            let avatar_url = crate::codec::sf_str_def(f, "avatarUrl"@);
            let description = crate::codec::sf_str_def(f, "description"@);
            let state = match obj_get(f, "state"@) {
                Some(JsonView::Str(s)) => state_of_wire(s),
                _ => None,
            };
            if name is Some && role is Some && username is Some && email is Some
                && display_name is Some && avatar_url is Some && description is Some
                && state is Some {
                Some(
                    UserView {
                        name: name->Some_0,
                        role: role->Some_0,
                        username: username->Some_0,
                        email: email->Some_0,
                        display_name: display_name->Some_0,
                        avatar_url: avatar_url->Some_0,
                        description: description->Some_0,
                        state: state->Some_0,
                    },
                )
            } else {
                None
            }
        },
        _ => None,
    }
}

/// Decodes an authenticated user from its wire object.
pub fn decode_auth_user(v: &JsonValue) -> (r: Option<User>)
    ensures
        r matches Some(u) ==> spec_decode_auth_user(v@) == Some(u@),
        r is None ==> spec_decode_auth_user(v@) is None,
{
    match v {
        JsonValue::Obj(fields) => {
            let name = match crate::codec::f_str_def(fields, "name") {
                Some(x) => x,
                None => {
                    return None;
                },
            };
            let role_s = match crate::codec::f_str_req(fields, "role") {
                Some(x) => x,
                None => {
                    return None;
                },
            };
            let role = match role_parse(&role_s) {
                Some(x) => x,
                None => {
                    return None;
                },
            };
            let username = match crate::codec::f_str_req(fields, "username") {
                Some(x) => x,
                None => {
                    return None;
                },
            };
            let email = match crate::codec::f_str_def(fields, "email") {
                Some(x) => x,
                None => {
                    return None;
                },
            };
            let display_name = match crate::codec::f_str_def(fields, "displayName") {
                Some(x) => x,
                None => {
                    return None;
                },
            };
            let avatar_url = match crate::codec::f_str_def(fields, "avatarUrl") {
                Some(x) => x,
                None => {
                    return None;
                },
            };
            let description = match crate::codec::f_str_def(fields, "description") {
                Some(x) => x,
                None => {
                    return None;
                },
            };
            let state_s = match crate::codec::f_str_req(fields, "state") {
                Some(x) => x,
                None => {
                    return None;
                },
            };
            let state = match state_parse(&state_s) {
                Some(x) => x,
                None => {
                    return None;
                },
            };
            Some(
                User {
                    name,
                    role,
                    username,
                    email,
                    display_name,
                    avatar_url,
                    description,
                    state,
                },
            )
        },
        _ => None,
    }
}

/// The body of a sign-in exchange: the credentials, nested under one
/// `passwordCredentials` field.
pub open spec fn sign_in_body(username: Seq<char>, password: Seq<char>) -> JsonView {
    JsonView::Obj(
        seq![
            (
                "passwordCredentials"@,
                JsonView::Obj(
                    seq![
                        ("username"@, JsonView::Str(username)),
                        ("password"@, JsonView::Str(password)),
                    ],
                ),
            ),
        ],
    )
}

/// What a sign-in response holds: the derived access token.
pub open spec fn spec_access_token(v: JsonView) -> Option<Seq<char>> {
    match v {
        JsonView::Obj(f) => match obj_get(f, "accessToken"@) {
            Some(JsonView::Str(s)) => Some(s),
            _ => None,
        },
        _ => None,
    }
}

/// The authentication operations of a session.
pub trait AuthService where Self: View<V = ServerView> {
    /// The identity check: one GET of the identity endpoint.
    fn current_user_request(&self) -> (r: Request)
        ensures
            r@ == (RequestView {
                method: Method::Get,
                url: url_of(self@.base_url, "auth/me"@),
                body: None,
            }),
    ;

    /// The sign-in exchange: the credentials go to the sign-in endpoint;
    /// the caller's own session is never mutated by it.
    fn sign_in_request(&self, username: &str, password: &str) -> (r: Request)
        ensures
            r@ == (RequestView {
                method: Method::Post,
                url: url_of(self@.base_url, "auth/signin"@),
                body: Some(sign_in_body(username@, password@)),
            }),
    ;
}

impl AuthService for Server {
    fn current_user_request(&self) -> (r: Request)
        ensures
            r@ == (RequestView {
                method: Method::Get,
                url: url_of(self@.base_url, "auth/me"@),
                body: None,
            }),
    {
        Request { method: Method::Get, url: self.endpoint_url("auth/me"), body: None }
    }

    fn sign_in_request(&self, username: &str, password: &str) -> (r: Request)
        ensures
            r@ == (RequestView {
                method: Method::Post,
                url: url_of(self@.base_url, "auth/signin"@),
                body: Some(sign_in_body(username@, password@)),
            }),
    {
        let mut creds: Vec<(String, JsonValue)> = Vec::new();
        creds.push((String::from_str("username"), JsonValue::Str(String::from_str(username))));
        creds.push((String::from_str("password"), JsonValue::Str(String::from_str(password))));
        let mut fs: Vec<(String, JsonValue)> = Vec::new();
        proof {
            lemma_view_of_json_fields(creds@);
            assert(view_of_json_fields(creds@) =~= sign_in_body(
                username@,
                password@,
            )->Obj_0[0].1->Obj_0);
        }
        fs.push((String::from_str("passwordCredentials"), JsonValue::Obj(creds)));
        proof {
            lemma_view_of_json_fields(fs@);
            assert(view_of_json_fields(fs@) =~= sign_in_body(username@, password@)->Obj_0);
        }
        Request {
            method: Method::Post,
            url: self.endpoint_url("auth/signin"),
            body: Some(JsonValue::Obj(fs)),
        }
    }
}

/// What the identity response wraps: one `user` field holding the
/// authenticated user.
pub open spec fn spec_user_wrapper(v: JsonView) -> Option<UserView> {
    match v {
        JsonView::Obj(f) => match obj_get(f, "user"@) {
            Some(u) => spec_decode_auth_user(u),
            None => None,
        },
        _ => None,
    }
}

/// Accepts an identity response, unwrapping its `user` field. Fails
/// exactly when the exchange failed or the body is not the wrapper.
pub fn accept_current_user(outcome: Result<JsonValue, ApiError>) -> (r: Result<User, ApiError>)
    ensures
        outcome matches Err(e) ==> (r matches Err(e2) && e2@ == e@),
        outcome matches Ok(v) ==> (spec_user_wrapper(v@) matches Some(uv) ==> (r matches Ok(u)
            && u@ == uv)),
        outcome matches Ok(v) ==> (spec_user_wrapper(v@) is None ==> (r matches Err(e2) && e2@
            == ApiErrorView::Decode)),
{
    match outcome {
        Err(e) => Err(e),
        Ok(v) => match &v {
            JsonValue::Obj(fields) => {
                let k = String::from_str("user");
                match JsonValue::lookup(fields, &k) {
                    Some(u) => match decode_auth_user(u) {
                        Some(user) => Ok(user),
                        None => Err(ApiError::Decode),
                    },
                    None => Err(ApiError::Decode),
                }
            },
            _ => Err(ApiError::Decode),
        },
    }
}

impl Server {
    /// Accepts a sign-in response: on success the returned session is a
    /// new, derived one — same base URL, the token the remote service
    /// handed back, and a teardown that owes a sign-out. The session
    /// signing in is left untouched.
    pub fn sign_in_accept(&self, outcome: Result<JsonValue, ApiError>) -> (r: Result<
        Server,
        ApiError,
    >)
        ensures
            outcome matches Err(e) ==> (r matches Err(e2) && e2@ == e@),
            outcome matches Ok(v) ==> (spec_access_token(v@) matches Some(tok) ==> (r matches Ok(s)
                && s@ == (ServerView {
                base_url: self@.base_url,
                token: tok,
                sign_out_required: true,
            }))),
            outcome matches Ok(v) ==> (spec_access_token(v@) is None ==> (r matches Err(e2) && e2@
                == ApiErrorView::Decode)),
    {
        match outcome {
            Err(e) => Err(e),
            Ok(v) => match &v {
                JsonValue::Obj(fields) => {
                    let k = String::from_str("accessToken");
                    match JsonValue::lookup(fields, &k) {
                        Some(JsonValue::Str(tok)) => Ok(
                            Server {
                                base_url: self.base_url.clone(),
                                token: tok.clone(),
                                sign_out_required: true,
                            },
                        ),
                        _ => Err(ApiError::Decode),
                    }
                },
                _ => Err(ApiError::Decode),
            },
        }
    }
}

} // verus!
