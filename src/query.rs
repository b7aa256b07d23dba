//! Requests to the release API and the reading of its answers.
use vstd::prelude::*;
use crate::error::{ErrorKind, NetworkCause, UpdateError};
use crate::release::{
    all_complete, filter_by_target, filter_target, from_cloud, map_records, record_complete, record_release,
    records_releases, releases_view, NetResponse, Release, ReleaseView, Soft,
};
use crate::text::concat;

verus! {

/// The API root used when none is configured.
pub const DEFAULT_API_ROOT: &'static str = "http://127.0.0.1";

/// The user agent sent with every request.
pub const USER_AGENT: &'static str = "rust-reqwest/self-update";

/// A character that an HTTP header value may hold.
pub open spec fn header_char_ok(c: char) -> bool {
    (c as u32 >= 32 && c as u32 != 127) || c as u32 == 9
}

/// Text that an HTTP header value may hold.
pub open spec fn header_text_ok(s: Seq<char>) -> bool {
    forall|i: int| 0 <= i < s.len() ==> header_char_ok(#[trigger] s[i])
}

/// Relies on `reqwest::header::HeaderValue::from_str` (the `http` crate's):
/// it accepts a string exactly when every byte is a tab, or at least 32 and
/// not 127. A character at or above 128 is encoded in bytes that are all at
/// least 128, so the test reads the same over characters.
#[verifier::external_body]
fn header_value_accepted(s: &str) -> (r: bool)
    ensures
        r == header_text_ok(s@),
{
    reqwest::header::HeaderValue::from_str(s).is_ok()
}

/// The value of the `Authorization` header for a token.
pub open spec fn bearer(token: Seq<char>) -> Seq<char> {
    "Bearer "@ + token
}

/// The root that requests go to.
pub open spec fn api_root(custom_url: Option<String>) -> Seq<char> {
    match custom_url {
        Some(u) => u@,
        None => DEFAULT_API_ROOT@,
    }
}

/// The endpoint listing all releases.
pub open spec fn list_url(root: Seq<char>) -> Seq<char> {
    root + "/api/soft/getlist?type=2"@
}

/// The endpoint giving one release by tag; an empty tag asks for the latest.
pub open spec fn version_url(root: Seq<char>, tag: Seq<char>) -> Seq<char> {
    root + "/api/soft/getver?type=2&ver="@ + tag
}

/// A status in the success range.
pub open spec fn status_ok(status: u16) -> bool {
    200 <= status < 300
}

/// The headers of a request.
#[derive(Debug)]
pub struct RequestHeaders {
    pub user_agent: String,
    pub authorization: Option<String>,
}

/// A request to make: where, and with which headers.
#[derive(Debug)]
pub struct ApiRequest {
    pub url: String,
    pub headers: RequestHeaders,
}

/// What came back from a request, as far as the engine needs it.
#[derive(Debug)]
pub enum HttpOutcome<T> {
    /// No answer: the request failed in transport.
    Transport(String),
    /// An answer with its status, and its body decoded into the envelope,
    /// or the reason it did not decode.
    Response { status: u16, body: Result<NetResponse<T>, String> },
}

/// The headers sent with a token, if any, are well formed.
pub open spec fn headers_for(auth_token: Option<String>, h: RequestHeaders) -> bool {
    &&& h.user_agent@ == USER_AGENT@
    &&& match auth_token {
        Some(t) => h.authorization matches Some(a) && a@ == bearer(t@),
        None => h.authorization is None,
    }
}

/// Header construction succeeds unless the token cannot stand in a header.
pub open spec fn headers_accept(auth_token: Option<String>) -> bool {
    match auth_token {
        Some(t) => header_text_ok(bearer(t@)),
        None => true,
    }
}

/// Builds the headers of an API request: the fixed user agent and, with a
/// token, `Authorization: Bearer <token>`. A token that cannot stand in a
/// header is a configuration failure.
pub fn api_headers(auth_token: &Option<String>) -> (r: Result<RequestHeaders, UpdateError>)
    ensures
        r is Ok <==> headers_accept(*auth_token),
        r matches Ok(h) ==> headers_for(*auth_token, h),
        r matches Err(e) ==> e.kind() == ErrorKind::Configuration,
{
    let user_agent = USER_AGENT.to_owned();
    match auth_token {
        None => Ok(RequestHeaders { user_agent, authorization: None }),
        Some(token) => {
            let value = concat("Bearer ", token.as_str());
            if header_value_accepted(value.as_str()) {
                Ok(RequestHeaders { user_agent, authorization: Some(value) })
            } else {
                Err(UpdateError::Configuration("failed to parse auth token".to_owned()))
            }
        },
    }
}

/// The root that requests go to: the configured one, or the default.
pub fn root_of(custom_url: &Option<String>) -> (r: String)
    ensures
        r@ == api_root(*custom_url),
{
    match custom_url {
        Some(u) => u.clone(),
        None => DEFAULT_API_ROOT.to_owned(),
    }
}

/// The URL listing all releases under `root`.
pub fn list_endpoint(root: &str) -> (r: String)
    ensures
        r@ == list_url(root@),
{
    concat(root, "/api/soft/getlist?type=2")
}

/// The URL of the release tagged `tag` under `root`.
pub fn version_endpoint(root: &str, tag: &str) -> (r: String)
    ensures
        r@ == version_url(root@, tag@),
{
    let base = concat(root, "/api/soft/getver?type=2&ver=");
    concat(base.as_str(), tag)
}

/// The engine's verdict on an answer to a list request.
pub open spec fn list_verdict(
    reply: HttpOutcome<Vec<Soft>>,
    root: Seq<char>,
    target: Option<Seq<char>>,
) -> Result<Seq<ReleaseView>, ErrorKind> {
    match reply {
        HttpOutcome::Transport(_) => Err(ErrorKind::Transport),
        HttpOutcome::Response { status, body } => if !status_ok(status) {
            Err(ErrorKind::HttpStatus(status))
        } else {
            match body {
                Err(_) => Err(ErrorKind::Decode),
                Ok(env) => if !env.is_success || env.content.len() == 0 {
                    Err(ErrorKind::ReleaseNotFound)
                } else if !all_complete(env.content@) {
                    Err(ErrorKind::Decode)
                } else {
                    Ok(filter_target(records_releases(env.content@, root), target))
                },
            }
        },
    }
}

/// The engine's verdict on an answer to a request for one release.
pub open spec fn version_verdict(reply: HttpOutcome<Soft>, root: Seq<char>) -> Result<ReleaseView, ErrorKind> {
    match reply {
        HttpOutcome::Transport(_) => Err(ErrorKind::Transport),
        HttpOutcome::Response { status, body } => if !status_ok(status) {
            Err(ErrorKind::HttpStatus(status))
        } else {
            match body {
                Err(_) => Err(ErrorKind::Decode),
                Ok(env) => if !env.is_success {
                    Err(ErrorKind::ReleaseNotFound)
                } else if !record_complete(env.content) {
                    Err(ErrorKind::Decode)
                } else {
                    Ok(record_release(env.content, root))
                },
            }
        },
    }
}

/// A network failure names the URL it was for.
pub open spec fn names_url<T>(r: Result<T, UpdateError>, url: Seq<char>) -> bool {
    r matches Err(UpdateError::Network { url: u, .. }) ==> u@ == url
}

fn network(url: &str, cause: NetworkCause) -> (e: UpdateError)
    ensures
        e matches UpdateError::Network { url: u, cause: c } && u@ == url@ && c == cause,
{
    UpdateError::Network { url: url.to_owned(), cause }
}

/// Reads the answer to a list request made to `url`. Releases are mapped
/// under `root` and, with `target`, narrowed to those having an asset for it.
pub fn read_list_reply(
    reply: HttpOutcome<Vec<Soft>>,
    url: &str,
    root: &str,
    target: Option<&str>,
) -> (r: Result<Vec<Release>, UpdateError>)
    ensures
        r is Ok <==> list_verdict(reply, root@, match target { Some(t) => Some(t@), None => None }) is Ok,
        r matches Ok(v) ==> releases_view(v@) == list_verdict(
            reply, root@, match target { Some(t) => Some(t@), None => None }) -> Ok_0,
        r matches Err(e) ==> e.kind() == list_verdict(
            reply, root@, match target { Some(t) => Some(t@), None => None }) -> Err_0,
        names_url(r, url@),
{
    match reply {
        HttpOutcome::Transport(msg) => Err(network(url, NetworkCause::Transport(msg))),
        HttpOutcome::Response { status, body } => {
            if !(200 <= status && status < 300) {
                return Err(network(url, NetworkCause::Status(status)));
            }
            match body {
                Err(msg) => Err(network(url, NetworkCause::Decode(msg))),
                Ok(env) => {
                    if !env.is_success || env.content.len() == 0 {
                        return Err(UpdateError::ReleaseNotFound("no release found".to_owned()));
                    }
                    match map_records(&env.content, root) {
                        Some(v) => match target {
                            Some(t) => Ok(filter_by_target(v, t)),
                            None => Ok(v),
                        },
                        None => Err(network(url, NetworkCause::Decode("a release record lacks its name or version".to_owned()))),
                    }
                },
            }
        },
    }
}

/// Reads the answer to a request for one release made to `url`, mapping it
/// under `root`.
pub fn read_version_reply(reply: HttpOutcome<Soft>, url: &str, root: &str) -> (r: Result<Release, UpdateError>)
    ensures
        r is Ok <==> version_verdict(reply, root@) is Ok,
        r matches Ok(rel) ==> rel@ == version_verdict(reply, root@)->Ok_0,
        r matches Err(e) ==> e.kind() == version_verdict(reply, root@)->Err_0,
        names_url(r, url@),
{
    match reply {
        HttpOutcome::Transport(msg) => Err(network(url, NetworkCause::Transport(msg))),
        HttpOutcome::Response { status, body } => {
            if !(200 <= status && status < 300) {
                return Err(network(url, NetworkCause::Status(status)));
            }
            match body {
                Err(msg) => Err(network(url, NetworkCause::Decode(msg))),
                Ok(env) => {
                    if !env.is_success {
                        return Err(UpdateError::ReleaseNotFound("can not get the release".to_owned()));
                    }
                    match from_cloud(&env.content, root) {
                        Some(rel) => Ok(rel),
                        None => Err(network(url, NetworkCause::Decode("the release record lacks its name or version".to_owned()))),
                    }
                },
            }
        },
    }
}

} // verus!
