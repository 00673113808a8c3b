//! The user service: creating and deleting users, and issuing and
//! revoking personal access tokens.

use vstd::prelude::*;
use vstd::string::StringExecFns;
use crate::codec::f_opt_str_def;
use crate::codec::f_str_def;
use crate::codec::f_str_req;
use crate::codec::sf_opt_str_def;
use crate::codec::sf_str_def;
use crate::codec::sf_str_req;
use crate::json::JsonValue;
use crate::json::JsonView;
use crate::json::obj_get;
use crate::json::lemma_view_of_json_fields;
use crate::json::view_of_json_fields;
use crate::session::Server;
use crate::session::url_of;
use crate::transport::ApiError;
use crate::transport::ApiErrorView;
use crate::transport::Method;
use crate::transport::Request;
use crate::transport::RequestView;

verus! {

/// A personal access credential record. Its plaintext value is returned
/// exactly once, at creation, and never again.
#[derive(Debug, PartialEq)]
pub struct Token {
    pub name: String,
    pub description: String,
    pub created_at: String,
    pub expires_at: Option<String>,
    pub last_used_at: Option<String>,
}

pub ghost struct TokenView {
    pub name: Seq<char>,
    pub description: Seq<char>,
    pub created_at: Seq<char>,
    pub expires_at: Option<Seq<char>>,
    pub last_used_at: Option<Seq<char>>,
}

impl View for Token {
    type V = TokenView;

    open spec fn view(&self) -> TokenView {
        TokenView {
            name: self.name@,
            description: self.description@,
            created_at: self.created_at@,
            expires_at: self.expires_at.deep_view(),
            last_used_at: self.last_used_at.deep_view(),
        }
    }
}

/// The role of a managed user. This set carries no host role; the
/// authentication context's set does.
#[derive(Clone, Copy, PartialEq, Eq, Structural, Debug)]
pub enum Role {
    RoleUnspecified,
    Admin,
    User,
}

/// The lifecycle state of a managed user.
#[derive(Clone, Copy, PartialEq, Eq, Structural, Debug)]
pub enum State {
    StateUnspecified,
    Normal,
    Archived,
}

pub open spec fn role_wire(r: Role) -> Seq<char> {
    match r {
        Role::RoleUnspecified => "ROLE_UNSPECIFIED"@,
        Role::Admin => "ADMIN"@,
        Role::User => "USER"@,
    }
}

pub open spec fn role_of_wire(s: Seq<char>) -> Option<Role> {
    if s == "ROLE_UNSPECIFIED"@ {
        Some(Role::RoleUnspecified)
    } else if s == "ADMIN"@ {
        Some(Role::Admin)
    } else if s == "USER"@ {
        Some(Role::User)
    } else {
        None
    }
}

pub open spec fn state_wire(s: State) -> Seq<char> {
    match s {
        State::StateUnspecified => "STATE_UNSPECIFIED"@,
        State::Normal => "NORMAL"@,
        State::Archived => "ARCHIVED"@,
    }
}

pub open spec fn state_of_wire(s: Seq<char>) -> Option<State> {
    if s == "STATE_UNSPECIFIED"@ {
        Some(State::StateUnspecified)
    } else if s == "NORMAL"@ {
        Some(State::Normal)
    } else if s == "ARCHIVED"@ {
        Some(State::Archived)
    } else {
        None
    }
}

fn role_str(r: &Role) -> (res: &'static str)
    ensures
        res@ == role_wire(*r),
{
    match r {
        Role::RoleUnspecified => "ROLE_UNSPECIFIED",
        Role::Admin => "ADMIN",
        Role::User => "USER",
    }
}

fn role_parse(s: &String) -> (r: Option<Role>)
    ensures
        r == role_of_wire(s@),
{
    if *s == String::from_str("ROLE_UNSPECIFIED") {
        Some(Role::RoleUnspecified)
    } else if *s == String::from_str("ADMIN") {
        Some(Role::Admin)
    } else if *s == String::from_str("USER") {
        Some(Role::User)
    } else {
        None
    }
}

fn state_str(s: &State) -> (r: &'static str)
    ensures
        r@ == state_wire(*s),
{
    match s {
        State::StateUnspecified => "STATE_UNSPECIFIED",
        State::Normal => "NORMAL",
        State::Archived => "ARCHIVED",
    }
}

fn state_parse(s: &String) -> (r: Option<State>)
    ensures
        r == state_of_wire(s@),
{
    if *s == String::from_str("STATE_UNSPECIFIED") {
        Some(State::StateUnspecified)
    } else if *s == String::from_str("NORMAL") {
        Some(State::Normal)
    } else if *s == String::from_str("ARCHIVED") {
        Some(State::Archived)
    } else {
        None
    }
}

/// A managed user. The password is write-only: it is sent at creation
/// and never reported back filled.
#[derive(Debug, PartialEq)]
pub struct User {
    pub name: String,
    pub role: Role,
    pub username: String,
    pub email: String,
    pub display_name: String,
    pub avatar_url: String,
    pub description: String,
    pub password: String,
    pub state: State,
}

pub ghost struct UserView {
    pub name: Seq<char>,
    pub role: Role,
    pub username: Seq<char>,
    pub email: Seq<char>,
    pub display_name: Seq<char>,
    pub avatar_url: Seq<char>,
    pub description: Seq<char>,
    pub password: Seq<char>,
    pub state: State,
}

impl View for User {
    type V = UserView;

    open spec fn view(&self) -> UserView {
        UserView {
            name: self.name@,
            role: self.role,
            username: self.username@,
            email: self.email@,
            display_name: self.display_name@,
            avatar_url: self.avatar_url@,
            description: self.description@,
            password: self.password@,
            state: self.state,
        }
    }
}

impl User {
    /// A fresh normal user with the given credentials; the remote
    /// service assigns its name on creation.
    pub fn new(username: &str, password: &str, email: &str) -> (r: User)
        ensures
            r@ == (UserView {
                name: Seq::empty(),
                role: Role::User,
                username: username@,
                email: email@,
                display_name: Seq::empty(),
                avatar_url: Seq::empty(),
                description: Seq::empty(),
                password: password@,
                state: State::Normal,
            }),
    {
        User {
            name: String::new(),
            role: Role::User,
            username: String::from_str(username),
            email: String::from_str(email),
            display_name: String::new(),
            avatar_url: String::new(),
            description: String::new(),
            password: String::from_str(password),
            state: State::Normal,
        }
    }
}

/// How a managed user goes on the wire at creation: every field,
/// password included.
pub open spec fn spec_encode_user(u: UserView) -> JsonView {
    JsonView::Obj(
        seq![
            ("name"@, JsonView::Str(u.name)),
            ("role"@, JsonView::Str(role_wire(u.role))),
            ("username"@, JsonView::Str(u.username)),
            ("email"@, JsonView::Str(u.email)),
            ("displayname"@, JsonView::Str(u.display_name)),
            ("avatarUrl"@, JsonView::Str(u.avatar_url)),
            ("description"@, JsonView::Str(u.description)),
            ("password"@, JsonView::Str(u.password)),
            ("state"@, JsonView::Str(state_wire(u.state))),
        ],
    )
}

/// What a managed-user wire object holds. The role, the username, and
/// the state are required; everything else defaults to empty.
pub open spec fn spec_decode_user(v: JsonView) -> Option<UserView> {
    match v {
        JsonView::Obj(f) => {
            let name = sf_str_def(f, "name"@);
            let role = match obj_get(f, "role"@) {
                Some(JsonView::Str(s)) => role_of_wire(s),
                _ => None,
            };
            let username = sf_str_req(f, "username"@);
            let email = sf_str_def(f, "email"@);
            let display_name = sf_str_def(f, "displayname"@);
            let avatar_url = sf_str_def(f, "avatarUrl"@);
            let description = sf_str_def(f, "description"@);
            let password = sf_str_def(f, "password"@);
            let state = match obj_get(f, "state"@) {
                Some(JsonView::Str(s)) => state_of_wire(s),
                _ => None,
            };
            if name is Some && role is Some && username is Some && email is Some
                && display_name is Some && avatar_url is Some && description is Some
                && password is Some && state is Some {
                Some(
                    UserView {
                        name: name->Some_0,
                        role: role->Some_0,
                        username: username->Some_0,
                        email: email->Some_0,
                        display_name: display_name->Some_0,
                        avatar_url: avatar_url->Some_0,
                        description: description->Some_0,
                        password: password->Some_0,
                        state: state->Some_0,
                    },
                )
            } else {
                None
            }
        },
        _ => None,
    }
}

/// Encodes a managed user to its wire object.
pub fn encode_user(u: &User) -> (r: JsonValue)
    ensures
        r@ == spec_encode_user(u@),
{
    let mut fs: Vec<(String, JsonValue)> = Vec::new();
    fs.push((String::from_str("name"), JsonValue::Str(u.name.clone())));
    fs.push((String::from_str("role"), JsonValue::Str(String::from_str(role_str(&u.role)))));
    fs.push((String::from_str("username"), JsonValue::Str(u.username.clone())));
    fs.push((String::from_str("email"), JsonValue::Str(u.email.clone())));
    fs.push((String::from_str("displayname"), JsonValue::Str(u.display_name.clone())));
    fs.push((String::from_str("avatarUrl"), JsonValue::Str(u.avatar_url.clone())));
    fs.push((String::from_str("description"), JsonValue::Str(u.description.clone())));
    fs.push((String::from_str("password"), JsonValue::Str(u.password.clone())));
    fs.push((String::from_str("state"), JsonValue::Str(String::from_str(state_str(&u.state)))));
    proof {
        lemma_view_of_json_fields(fs@);
        assert(view_of_json_fields(fs@) =~= spec_encode_user(u@)->Obj_0);
    }
    JsonValue::Obj(fs)
}

/// Decodes a managed user from its wire object.
pub fn decode_user(v: &JsonValue) -> (r: Option<User>)
    ensures
        r matches Some(u) ==> spec_decode_user(v@) == Some(u@),
        r is None ==> spec_decode_user(v@) is None,
{
    match v {
        JsonValue::Obj(fields) => {
            let name = match f_str_def(fields, "name") {
                Some(x) => x,
                None => {
                    return None;
                },
            };
            let role_s = match f_str_req(fields, "role") {
                Some(x) => x,
                None => {
                    return None;
                },
            };
            let role = match role_parse(&role_s) {
                Some(x) => x,
                None => {
                    return None;
                },
            };
            let username = match f_str_req(fields, "username") {
                Some(x) => x,
                None => {
                    return None;
                },
            };
            let email = match f_str_def(fields, "email") {
                Some(x) => x,
                None => {
                    return None;
                },
            };
            let display_name = match f_str_def(fields, "displayname") {
                Some(x) => x,
                None => {
                    return None;
                },
            };
            let avatar_url = match f_str_def(fields, "avatarUrl") {
                Some(x) => x,
                None => {
                    return None;
                },
            };
            let description = match f_str_def(fields, "description") {
                Some(x) => x,
                None => {
                    return None;
                },
            };
            let password = match f_str_def(fields, "password") {
                Some(x) => x,
                None => {
                    return None;
                },
            };
            let state_s = match f_str_req(fields, "state") {
                Some(x) => x,
                None => {
                    return None;
                },
            };
            let state = match state_parse(&state_s) {
                Some(x) => x,
                None => {
                    return None;
                },
            };
            Some(
                User {
                    name,
                    role,
                    username,
                    email,
                    display_name,
                    avatar_url,
                    description,
                    password,
                    state,
                },
            )
        },
        _ => None,
    }
}

/// What a token wire object holds: name, description, and creation time
/// are required; expiry and last use are optional.
pub open spec fn spec_decode_token(v: JsonView) -> Option<TokenView> {
    match v {
        JsonView::Obj(f) => {
            let name = sf_str_req(f, "name"@);
            let description = sf_str_req(f, "description"@);
            let created_at = sf_str_req(f, "createdAt"@);
            let expires_at = sf_opt_str_def(f, "expiresAt"@);
            let last_used_at = sf_opt_str_def(f, "lastUsedAt"@);
            if name is Some && description is Some && created_at is Some && expires_at is Some
                && last_used_at is Some {
                Some(
                    TokenView {
                        name: name->Some_0,
                        description: description->Some_0,
                        created_at: created_at->Some_0,
                        expires_at: expires_at->Some_0,
                        last_used_at: last_used_at->Some_0,
                    },
                )
            } else {
                None
            }
        },
        _ => None,
    }
}

/// Decodes a token record from its wire object.
pub fn decode_token(v: &JsonValue) -> (r: Option<Token>)
    ensures
        r matches Some(t) ==> spec_decode_token(v@) == Some(t@),
        r is None ==> spec_decode_token(v@) is None,
{
    match v {
        JsonValue::Obj(fields) => {
            let name = match f_str_req(fields, "name") {
                Some(x) => x,
                None => {
                    return None;
                },
            };
            let description = match f_str_req(fields, "description") {
                Some(x) => x,
                None => {
                    return None;
                },
            };
            let created_at = match f_str_req(fields, "createdAt") {
                Some(x) => x,
                None => {
                    return None;
                },
            };
            let expires_at = match f_opt_str_def(fields, "expiresAt") {
                Some(x) => x,
                None => {
                    return None;
                },
            };
            let last_used_at = match f_opt_str_def(fields, "lastUsedAt") {
                Some(x) => x,
                None => {
                    return None;
                },
            };
            Some(Token { name, description, created_at, expires_at, last_used_at })
        },
        _ => None,
    }
}

/// The body of a create-token exchange.
pub open spec fn create_pat_body(parent: Seq<char>, desc: Seq<char>, expires_in_days: u32,
) -> JsonView {
    JsonView::Obj(
        seq![
            ("parent"@, JsonView::Str(parent)),
            ("description"@, JsonView::Str(desc)),
            ("expiresInDays"@, JsonView::Num(expires_in_days as i64)),
        ],
    )
}

impl Server {
    /// Creating a user posts its full payload, password included, to
    /// the collection.
    pub fn create_user_request(&self, user: &User) -> (r: Request)
        ensures
            r@ == (RequestView {
                method: Method::Post,
                url: url_of(self@.base_url, "users"@),
                body: Some(spec_encode_user(user@)),
            }),
    {
        Request {
            method: Method::Post,
            url: self.endpoint_url("users"),
            body: Some(encode_user(user)),
        }
    }

    /// Deleting a user addresses it by name.
    pub fn delete_user_request(&self, user: &User) -> (r: Request)
        ensures
            r@ == (RequestView {
                method: Method::Delete,
                url: url_of(self@.base_url, user@.name),
                body: None,
            }),
    {
        Request { method: Method::Delete, url: self.endpoint_url(user.name.as_str()), body: None }
    }

    /// Issues a personal access token under a user, with an explicit
    /// expiry in days.
    pub fn create_pat_request(&self, user: &User, desc: &str, expires_in_days: u32) -> (r: Request)
        ensures
            r@ == (RequestView {
                method: Method::Post,
                url: url_of(self@.base_url, user@.name + "/personalAccessTokens"@),
                body: Some(create_pat_body(user@.name, desc@, expires_in_days)),
            }),
    {
        let mut fs: Vec<(String, JsonValue)> = Vec::new();
        fs.push((String::from_str("parent"), JsonValue::Str(user.name.clone())));
        fs.push((String::from_str("description"), JsonValue::Str(String::from_str(desc))));
        fs.push((String::from_str("expiresInDays"), JsonValue::Num(expires_in_days as i64)));
        proof {
            lemma_view_of_json_fields(fs@);
            assert(view_of_json_fields(fs@) =~= create_pat_body(
                user@.name,
                desc@,
                expires_in_days,
            )->Obj_0);
        }
        let ep = user.name.clone().concat("/personalAccessTokens");
        Request {
            method: Method::Post,
            url: self.endpoint_url(ep.as_str()),
            body: Some(JsonValue::Obj(fs)),
        }
    }

    /// Revoking a token addresses it by name.
    pub fn delete_pat_request(&self, token: &Token) -> (r: Request)
        ensures
            r@ == (RequestView {
                method: Method::Delete,
                url: url_of(self@.base_url, token@.name),
                body: None,
            }),
    {
        Request { method: Method::Delete, url: self.endpoint_url(token.name.as_str()), body: None }
    }
}

/// Accepts a create-user response: the created user as the remote
/// service echoes it.
pub fn accept_created_user(outcome: Result<JsonValue, ApiError>) -> (r: Result<User, ApiError>)
    ensures
        outcome matches Err(e) ==> (r matches Err(e2) && e2@ == e@),
        outcome matches Ok(v) ==> (spec_decode_user(v@) matches Some(uv) ==> (r matches Ok(u) && u@
            == uv)),
        outcome matches Ok(v) ==> (spec_decode_user(v@) is None ==> (r matches Err(e2) && e2@
            == ApiErrorView::Decode)),
{
    match outcome {
        Err(e) => Err(e),
        Ok(v) => match decode_user(&v) {
            Some(u) => Ok(u),
            None => Err(ApiError::Decode),
        },
    }
}

/// What a create-token response holds: the token record and, exactly
/// once, the plaintext credential.
pub open spec fn spec_pat_wrapper(v: JsonView) -> Option<(TokenView, Seq<char>)> {
    match v {
        JsonView::Obj(f) => {
            let record = match obj_get(f, "personalAccessToken"@) {
                Some(t) => spec_decode_token(t),
                None => None,
            };
            let plain = sf_str_req(f, "token"@);
            if record is Some && plain is Some {
                Some((record->Some_0, plain->Some_0))
            } else {
                None
            }
        },
        _ => None,
    }
}

/// Accepts a create-token response: the record and the one-time
/// plaintext credential.
pub fn accept_pat(outcome: Result<JsonValue, ApiError>) -> (r: Result<(Token, String), ApiError>)
    ensures
        outcome matches Err(e) ==> (r matches Err(e2) && e2@ == e@),
        outcome matches Ok(v) ==> (spec_pat_wrapper(v@) matches Some(p) ==> (r matches Ok(tp) && (
            tp.0@,
            tp.1@,
        ) == p)),
        outcome matches Ok(v) ==> (spec_pat_wrapper(v@) is None ==> (r matches Err(e2) && e2@
            == ApiErrorView::Decode)),
{
    match outcome {
        Err(e) => Err(e),
        Ok(v) => match &v {
            JsonValue::Obj(fields) => {
                let k = String::from_str("personalAccessToken");
                let record = match JsonValue::lookup(fields, &k) {
                    Some(t) => match decode_token(t) {
                        Some(x) => x,
                        None => {
                            return Err(ApiError::Decode);
                        },
                    },
                    None => {
                        return Err(ApiError::Decode);
                    },
                };
                let plain = match f_str_req(fields, "token") {
                    Some(x) => x,
                    None => {
                        return Err(ApiError::Decode);
                    },
                };
                Ok((record, plain))
            },
            _ => Err(ApiError::Decode),
        },
    }
}

} // verus!
