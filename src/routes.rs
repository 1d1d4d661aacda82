//! The HTTP surface: the route table, the CORS response headers and the
//! replies that the handlers build from store outcomes.
use vstd::prelude::*;
use crate::message::{ChatError, ChatMessage, User, check_post};

verus! {

pub const INDEX_TEXT: &'static str = "Hello, world!";

pub const USER_REPLY_PREFIX: &'static str = "User's name: ";

pub const CORS_NAME: &'static str = "Add CORS headers to responses";

pub const ALLOW_ORIGIN: &'static str = "Access-Control-Allow-Origin";

pub const ALLOW_METHODS: &'static str = "Access-Control-Allow-Methods";

pub const ALLOW_HEADERS: &'static str = "Access-Control-Allow-Headers";

pub const ALLOW_CREDENTIALS: &'static str = "Access-Control-Allow-Credentials";

pub const ANY: &'static str = "*";

pub const METHOD_LIST: &'static str = "POST, GET, PATCH, OPTIONS";

pub const TRUE_TEXT: &'static str = "true";

pub const ROOT_PATH: &'static str = "/";

pub const USER_PATH: &'static str = "/user/<name>";

pub const MESSAGES_PATH: &'static str = "/messages-handler";

pub const STREAM_PATH: &'static str = "/messages-stream";

pub const USER_NOT_FOUND: &'static str = "No user of that name";

pub const MESSAGES_AFTER_PATH: &'static str = "/messages-handler?<after>";

pub const STATUS_OK: u16 = 200;

pub const STATUS_BAD_REQUEST: u16 = 400;

/// Store failures and unknown users are answered with this status.
pub const STATUS_STORE_FAILURE: u16 = 404;

#[derive(Debug, Clone, Copy, PartialEq, Eq, Structural)]
pub enum Method {
    Get,
    Post,
}

/// One mounted route.
#[derive(Debug, Clone, PartialEq, Eq)]
pub struct Route {
    pub method: Method,
    pub path: String,
}

/// The routes as values: method and path, in mounting order.
pub open spec fn route_table() -> Seq<(Method, Seq<char>)> {
    seq![
        (Method::Get, ROOT_PATH@),
        (Method::Get, USER_PATH@),
        (Method::Post, MESSAGES_PATH@),
        (Method::Get, MESSAGES_PATH@),
        (Method::Get, MESSAGES_AFTER_PATH@),
        (Method::Get, STREAM_PATH@),
    ]
}

fn route(method: Method, path: &str) -> (r: Route)
    ensures
        r.method == method,
        r.path@ == path@,
{
    Route { method, path: String::from_str(path) }
}

/// The routes that the service mounts: the greeting, user lookup, posting
/// and listing messages, and the live message stream.
pub fn rocket() -> (r: Vec<Route>)
    ensures
        r@.map_values(|x: Route| (x.method, x.path@)) == route_table(),
{
    let mut r: Vec<Route> = Vec::new();
    r.push(route(Method::Get, ROOT_PATH));
    r.push(route(Method::Get, USER_PATH));
    r.push(route(Method::Post, MESSAGES_PATH));
    r.push(route(Method::Get, MESSAGES_PATH));
    r.push(route(Method::Get, MESSAGES_AFTER_PATH));
    r.push(route(Method::Get, STREAM_PATH));
    assert(r@.map_values(|x: Route| (x.method, x.path@)) =~= route_table());
    r
}

/// The response fairing that lets browsers on other origins use the service.
pub struct CORS;

/// The headers that every response carries, as values.
pub open spec fn cors_header_table() -> Seq<(Seq<char>, Seq<char>)> {
    seq![
        (ALLOW_ORIGIN@, ANY@),
        (ALLOW_METHODS@, METHOD_LIST@),
        (ALLOW_HEADERS@, ANY@),
        (ALLOW_CREDENTIALS@, TRUE_TEXT@),
    ]
}

fn header(name: &str, value: &str) -> (r: (String, String))
    ensures
        r.0@ == name@,
        r.1@ == value@,
{
    (String::from_str(name), String::from_str(value))
}

impl CORS {
    /// The fairing's name.
    pub fn info(&self) -> (r: String)
        ensures
            r@ == CORS_NAME@,
    {
        String::from_str(CORS_NAME)
    }

    /// The headers to set on each response, name and value.
    pub fn headers(&self) -> (r: Vec<(String, String)>)
        ensures
            r@.map_values(|h: (String, String)| (h.0@, h.1@)) == cors_header_table(),
    {
        let mut r: Vec<(String, String)> = Vec::new();
        r.push(header(ALLOW_ORIGIN, ANY));
        r.push(header(ALLOW_METHODS, METHOD_LIST));
        r.push(header(ALLOW_HEADERS, ANY));
        r.push(header(ALLOW_CREDENTIALS, TRUE_TEXT));
        assert(r@.map_values(|h: (String, String)| (h.0@, h.1@)) =~= cors_header_table());
        r
    }
}

/// The body of the root route.
pub fn index() -> (r: String)
    ensures
        r@ == INDEX_TEXT@,
{
    String::from_str(INDEX_TEXT)
}

/// The reply to a user lookup.
pub fn user_reply(name: &str) -> (r: String)
    ensures
        r@ == USER_REPLY_PREFIX@ + name@,
{
    let mut r = String::from_str(USER_REPLY_PREFIX);
    r.append(name);
    r
}

/// The status and body for a user lookup: the user's name when one was
/// found, not found otherwise.
pub fn user_lookup_reply(found: Option<&User>) -> (r: (u16, String))
    ensures
        match found {
            Some(u) => r.0 == STATUS_OK && r.1@ == USER_REPLY_PREFIX@ + u.name@,
            None => r.0 == STATUS_STORE_FAILURE && r.1@ == USER_NOT_FOUND@,
        },
{
    match found {
        Some(u) => (STATUS_OK, user_reply(u.name.as_str())),
        None => (STATUS_STORE_FAILURE, String::from_str(USER_NOT_FOUND)),
    }
}

/// The status for an error kind: a malformed message is the poster's fault,
/// every other kind a failure of the store.
pub open spec fn error_status(e: ChatError) -> u16 {
    if e == ChatError::WriteRejected {
        STATUS_BAD_REQUEST
    } else {
        STATUS_STORE_FAILURE
    }
}

/// The HTTP status for the outcome of posting a message.
pub fn post_status(outcome: &Result<(), ChatError>) -> (r: u16)
    ensures
        *outcome is Ok ==> r == STATUS_OK,
        *outcome matches Err(e) ==> r == error_status(e),
{
    match outcome {
        Ok(()) => STATUS_OK,
        Err(ChatError::WriteRejected) => STATUS_BAD_REQUEST,
        Err(_) => STATUS_STORE_FAILURE,
    }
}

/// The HTTP status for a posted message before it reaches the store: a
/// message with an empty author name is refused, any other may go on.
pub fn admission_status(m: &ChatMessage) -> (r: u16)
    ensures
        r == STATUS_OK <==> m.username@.len() > 0,
        r != STATUS_OK ==> r == STATUS_BAD_REQUEST,
{
    let checked = check_post(m);
    post_status(&checked)
}

} // verus!
