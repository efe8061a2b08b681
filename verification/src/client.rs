//! The backend client: the request of each operation, and what its reply
//! means.

use vstd::prelude::*;
use crate::dto::{text_of, CreateData, CreateRequestBody, Response, UpdateRequestBody};
use crate::host::{no_effects, notice, Effects, EffectsView, Session, SessionView};
use crate::json::{create_body, json_object_text, update_body};
use crate::text::{has_prefix, join, strip_prefix, without_prefix};

verus! {

/// The method of a request.
#[derive(Debug, Clone, Copy, PartialEq, Eq, Structural)]
pub enum Method {
    Get,
    Post,
    Put,
    Delete,
}

/// A request to the backend. The host sends it with the header
/// `Authorization: Bearer` and the token, the cursor as the query parameter
/// `c`, and the body with the content type `application/json`.
#[derive(Debug, Clone, PartialEq, Eq)]
pub struct HttpRequest {
    pub method: Method,
    pub url: String,
    /// The bearer token.
    pub bearer: String,
    /// The value of the query parameter `c`, where there is one.
    pub cursor: Option<String>,
    /// The JSON text of the body, where there is one.
    pub json: Option<String>,
}

/// The mathematical value of an [`HttpRequest`].
pub struct HttpRequestView {
    pub method: Method,
    pub url: Seq<char>,
    pub bearer: Seq<char>,
    pub cursor: Option<Seq<char>>,
    pub json: Option<Seq<char>>,
}

impl View for HttpRequest {
    type V = HttpRequestView;

    open spec fn view(&self) -> HttpRequestView {
        HttpRequestView {
            method: self.method,
            url: self.url@,
            bearer: self.bearer@,
            cursor: text_of(self.cursor),
            json: text_of(self.json),
        }
    }
}

/// What came back for a request.
#[derive(Debug, PartialEq, Eq)]
pub enum Reply<T> {
    /// The backend answered with this status. The envelope is what its body
    /// decodes to, or the message of the error that kept it from decoding.
    Answered { status: u16, envelope: Result<Response<T>, String> },
    /// No answer came: the message of the error that the HTTP client gave.
    Failed { error: String },
}

/// Whether `status` is a success, that is from 200 to 299.
pub open spec fn is_success(status: u16) -> bool {
    200 <= status && status < 300
}

/// Whether `status` is a success.
pub fn status_is_success(status: u16) -> (r: bool)
    ensures
        r == is_success(status),
{
    200 <= status && status < 300
}

/// The request for `path` below the backend of `session`.
pub open spec fn request_to(
    method: Method,
    session: SessionView,
    path: Seq<char>,
    cursor: Option<Seq<char>>,
    json: Option<Seq<char>>,
) -> HttpRequestView {
    HttpRequestView { method, url: session.url + path, bearer: session.token, cursor, json }
}

/// Builds the request for `path` below the backend of `session`.
fn build_request(
    method: Method,
    session: &Session,
    path: &str,
    cursor: Option<String>,
    json: Option<String>,
) -> (r: HttpRequest)
    ensures
        r@ == request_to(method, session@, path@, text_of(cursor), text_of(json)),
{
    HttpRequest {
        method,
        url: join(session.url.as_str(), path),
        bearer: session.token.clone(),
        cursor,
        json,
    }
}

/// The request that tells whether `session` is accepted: the first page of
/// the list.
pub fn probe_request(session: &Session) -> (r: HttpRequest)
    ensures
        r@ == request_to(Method::Get, session@, "/api/v1/list"@, None, None),
{
    build_request(Method::Get, session, "/api/v1/list", None, None)
}

/// Whether a probe found the session accepted: the backend answered with
/// the status 200. `None` stands for a request that failed.
pub fn probe_outcome(status: Option<u16>) -> (r: bool)
    ensures
        r == (status == Some(200u16)),
{
    match status {
        Some(code) => code == 200,
        None => false,
    }
}

/// The request for the page of the list that starts at `cursor`; without a
/// cursor, for the first page.
pub fn list_request(session: &Session, cursor: Option<String>) -> (r: HttpRequest)
    ensures
        r@ == request_to(Method::Get, session@, "/api/v1/list"@, text_of(cursor), None),
{
    build_request(Method::Get, session, "/api/v1/list", cursor, None)
}

/// A request or the words of an error, by mathematical value.
pub open spec fn request_view(r: Result<HttpRequest, String>) -> Result<
    HttpRequestView,
    Seq<char>,
> {
    match r {
        Ok(request) => Ok(request@),
        Err(words) => Err(words@),
    }
}

/// The request for `path` with a JSON body, given what writing the body
/// gave: the request with the text as its body, or the words of the error.
pub open spec fn request_with(
    method: Method,
    session: SessionView,
    path: Seq<char>,
    written: Result<Seq<char>, Seq<char>>,
) -> Result<HttpRequestView, Seq<char>> {
    match written {
        Ok(json) => Ok(request_to(method, session, path, None, Some(json))),
        Err(words) => Err(words),
    }
}

/// The request that creates a link with the JSON text `json` as its body.
pub fn create_request_with(session: &Session, json: String) -> (r: HttpRequest)
    ensures
        r@ == request_to(Method::Post, session@, "/api/v1/create"@, None, Some(json@)),
{
    build_request(Method::Post, session, "/api/v1/create", None, Some(json))
}

/// The request that creates a link, or the message of the error that kept
/// its body from being written. The host treats such an error as a request
/// that failed with this message.
pub fn create_request(session: &Session, body: &CreateRequestBody) -> (r: Result<
    HttpRequest,
    String,
>)
    ensures
        request_view(r) == request_with(
            Method::Post,
            session@,
            "/api/v1/create"@,
            json_object_text(body.fields()),
        ),
{
    match create_body(body) {
        Ok(json) => Ok(create_request_with(session, json)),
        Err(error) => Err(error),
    }
}

/// The request that updates a link with the JSON text `json` as its body.
pub fn update_request_with(session: &Session, json: String) -> (r: HttpRequest)
    ensures
        r@ == request_to(Method::Put, session@, "/api/v1/update"@, None, Some(json@)),
{
    build_request(Method::Put, session, "/api/v1/update", None, Some(json))
}

/// The request that updates a link, or the message of the error that kept
/// its body from being written. The host treats such an error as a request
/// that failed with this message.
pub fn update_request(session: &Session, body: &UpdateRequestBody) -> (r: Result<
    HttpRequest,
    String,
>)
    ensures
        request_view(r) == request_with(
            Method::Put,
            session@,
            "/api/v1/update"@,
            json_object_text(body.fields()),
        ),
{
    match update_body(body) {
        Ok(json) => Ok(update_request_with(session, json)),
        Err(error) => Err(error),
    }
}

/// The body of a delete request: the key between `{"short":"` and `"}`,
/// character for character.
pub open spec fn delete_body_text(key: Seq<char>) -> Seq<char> {
    "{\"short\":\""@ + key + "\"}"@
}

/// The body of the request that deletes the link `key`.
pub fn delete_body(key: &str) -> (r: String)
    ensures
        r@ == delete_body_text(key@),
{
    let mut body = join("{\"short\":\"", key);
    body.append("\"}");
    body
}

/// The request that deletes the link `key`.
pub fn delete_request(session: &Session, key: &str) -> (r: HttpRequest)
    ensures
        r@ == request_to(
            Method::Delete,
            session@,
            "/api/v1/delete"@,
            None,
            Some(delete_body_text(key@)),
        ),
{
    build_request(Method::Delete, session, "/api/v1/delete", None, Some(delete_body(key)))
}

/// The host of a backend URL: the URL without a leading `http://` or
/// `https://`.
pub open spec fn host_of(url: Seq<char>) -> Seq<char> {
    if "http://"@.is_prefix_of(url) {
        without_prefix(url, "http://"@)
    } else {
        without_prefix(url, "https://"@)
    }
}

/// The short key in what the backend calls the new short link: `short`
/// without the backend's host and a `/` in front, where it starts so, and
/// `short` itself where it does not.
pub open spec fn short_key_of(backend_url: Seq<char>, short: Seq<char>) -> Seq<char> {
    without_prefix(short, host_of(backend_url) + "/"@)
}

/// The short key in `short`, the new short link as the backend of
/// `backend_url` reports it.
pub fn short_key(backend_url: &str, short: &str) -> (r: String)
    ensures
        r@ == short_key_of(backend_url@, short@),
{
    let host = if has_prefix(backend_url, "http://") {
        strip_prefix(backend_url, "http://")
    } else {
        strip_prefix(backend_url, "https://")
    };
    let prefix = join(host, "/");
    strip_prefix(short, prefix.as_str()).to_owned()
}

/// Whether a reply to a create request holds what the client reads from
/// it: a success that decoded carries a payload.
pub open spec fn create_has_payload(reply: Reply<CreateData>) -> bool {
    reply matches Reply::Answered { status, envelope: Ok(envelope) } ==> (is_success(status)
        ==> envelope.data is Some)
}

/// What a create request comes to: the short key of the new link and what
/// the host does. A success gives the key in its payload and nothing to do.
/// A refusal by the backend, a body that does not decode and a request that
/// failed give the empty key and a message.
pub open spec fn create_result(backend_url: Seq<char>, reply: Reply<CreateData>) -> (
    Seq<char>,
    EffectsView,
) {
    match reply {
        Reply::Failed { error } => (
            Seq::empty(),
            notice("Failed to create the link. Please try again later.\n\nError: "@ + error@),
        ),
        Reply::Answered { status, envelope: Err(error) } => (
            Seq::empty(),
            notice("Failed to create the link. Please try again later.\n\nError: "@ + error@),
        ),
        Reply::Answered { status, envelope: Ok(envelope) } => if is_success(status) {
            (short_key_of(backend_url, envelope.data->Some_0.short@), no_effects())
        } else {
            (Seq::empty(), notice("Failed to create the link.\n\nError: "@ + envelope.msg@))
        },
    }
}

/// Turns the reply to a create request into the short key of the new link,
/// empty where none was made, and what the host does.
pub fn create_outcome(backend_url: &str, reply: Reply<CreateData>) -> (r: (String, Effects))
    requires
        create_has_payload(reply),
    ensures
        r.0@ == create_result(backend_url@, reply).0,
        r.1@ == create_result(backend_url@, reply).1,
{
    match reply {
        Reply::Failed { error } => (
            String::new(),
            Effects::notice(
                join(
                    "Failed to create the link. Please try again later.\n\nError: ",
                    error.as_str(),
                ),
            ),
        ),
        Reply::Answered { status, envelope: Err(error) } => (
            String::new(),
            Effects::notice(
                join(
                    "Failed to create the link. Please try again later.\n\nError: ",
                    error.as_str(),
                ),
            ),
        ),
        Reply::Answered { status, envelope: Ok(envelope) } => {
            if status_is_success(status) {
                let data = envelope.data.unwrap();
                (short_key(backend_url, data.short.as_str()), Effects::none())
            } else {
                (
                    String::new(),
                    Effects::notice(
                        join("Failed to create the link.\n\nError: ", envelope.msg.as_str()),
                    ),
                )
            }
        },
    }
}

/// What a request that changes or removes a link comes to: whether it was
/// carried out, and what the host does. Every success status counts,
/// whatever the body holds. `refused` and `failed` are the words in front
/// of the backend's message and of the error's message.
pub open spec fn change_result(reply: Reply<()>, refused: Seq<char>, failed: Seq<char>) -> (
    bool,
    EffectsView,
) {
    match reply {
        Reply::Failed { error } => (false, notice(failed + error@)),
        Reply::Answered { status, envelope } => if is_success(status) {
            (true, no_effects())
        } else {
            match envelope {
                Ok(envelope) => (false, notice(refused + envelope.msg@)),
                Err(error) => (false, notice(failed + error@)),
            }
        },
    }
}

/// Turns the reply to an update or delete request into its result.
fn change_outcome(reply: Reply<()>, refused: &str, failed: &str) -> (r: (bool, Effects))
    ensures
        r.0 == change_result(reply, refused@, failed@).0,
        r.1@ == change_result(reply, refused@, failed@).1,
{
    match reply {
        Reply::Failed { error } => (false, Effects::notice(join(failed, error.as_str()))),
        Reply::Answered { status, envelope } => {
            if status_is_success(status) {
                (true, Effects::none())
            } else {
                match envelope {
                    Ok(envelope) => (
                        false,
                        Effects::notice(join(refused, envelope.msg.as_str())),
                    ),
                    Err(error) => (false, Effects::notice(join(failed, error.as_str()))),
                }
            }
        },
    }
}

/// What an update request comes to.
pub open spec fn update_result(reply: Reply<()>) -> (bool, EffectsView) {
    change_result(
        reply,
        "Failed to update the link.\n\nError: "@,
        "Failed to update the link. Please try again later.\n\nError: "@,
    )
}

/// Turns the reply to an update request into whether the link was updated,
/// and what the host does.
pub fn update_outcome(reply: Reply<()>) -> (r: (bool, Effects))
    ensures
        r.0 == update_result(reply).0,
        r.1@ == update_result(reply).1,
{
    change_outcome(
        reply,
        "Failed to update the link.\n\nError: ",
        "Failed to update the link. Please try again later.\n\nError: ",
    )
}

/// What a delete request comes to.
pub open spec fn delete_result(reply: Reply<()>) -> (bool, EffectsView) {
    change_result(
        reply,
        "Failed to delete the link.\n\nError: "@,
        "Failed to delete the link. Please try again later.\n\nError: "@,
    )
}

/// Turns the reply to a delete request into whether the link was deleted,
/// and what the host does.
pub fn delete_outcome(reply: Reply<()>) -> (r: (bool, Effects))
    ensures
        r.0 == delete_result(reply).0,
        r.1@ == delete_result(reply).1,
{
    change_outcome(
        reply,
        "Failed to delete the link.\n\nError: ",
        "Failed to delete the link. Please try again later.\n\nError: ",
    )
}

} // verus!
