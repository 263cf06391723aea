//! Framing of Bot API calls made by the bot process, and of the updates it pushes
//! to its websocket.
use vstd::prelude::*;
use vstd::string::*;
use crate::errors::TgError;
use crate::outside::{url_parse, parse_url, get_updates_json, encode_get_updates, json_string, json_string_text, opt_seq};
use crate::text::{int_text, i64_text, u64_text};

verus! {

/// The Bot API address that an API key is appended to.
pub open spec fn base_api_url() -> Seq<char> {
    "https://api.telegram.org/bot"@
}

/// The Bot API address of a key: the base address followed by the key.
pub open spec fn api_url_of(token: Seq<char>) -> Seq<char> {
    base_api_url() + token
}

/// The address of a Bot API method: the key's address, a slash and the method's name.
pub open spec fn method_url(api_url: Seq<char>, method: Seq<char>) -> Seq<char> {
    api_url + seq!['/'] + method
}

/// The Bot API client of the bot process: the address of its key.
#[derive(Clone, Debug)]
pub struct Api {
    pub api_url: String,
}

/// The HTTP method of every Bot API call this library frames.
#[derive(Clone, Copy, Debug, PartialEq, Eq)]
pub enum HttpMethod {
    Get,
}

/// A header name and value.
pub open spec fn header_view(h: (String, String)) -> (Seq<char>, Seq<char>) {
    (h.0@, h.1@)
}

pub open spec fn headers_view(hs: Seq<(String, String)>) -> Seq<(Seq<char>, Seq<char>)> {
    hs.map_values(|h: (String, String)| header_view(h))
}

/// The headers of every Bot API call: the body is JSON.
pub open spec fn json_headers_view() -> Seq<(Seq<char>, Seq<char>)> {
    seq![("Content-Type"@, "application/json"@)]
}

/// Seconds to wait for a call whose reply the bot does not wait for.
pub open spec fn no_wait_timeout() -> u64 {
    20
}

/// Seconds to wait for a call whose reply the caller waits for.
pub open spec fn await_timeout() -> u64 {
    30
}

/// An HTTP call to the Bot API, ready to be sent.
#[derive(Debug)]
pub struct OutgoingCall {
    pub method: HttpMethod,
    pub url: url::Url,
    pub headers: Vec<(String, String)>,
    pub timeout_secs: u64,
    pub body: Vec<u8>,
}

/// Where and how to send a Bot API call, before its body is known.
#[derive(Debug)]
pub struct CallTarget {
    pub method: HttpMethod,
    pub url: url::Url,
    pub headers: Vec<(String, String)>,
}

/// The body of the poll for updates after `offset`: a long poll of 15
/// seconds, with the limit and the kinds of update that were asked for.
pub open spec fn poll_body(offset: u32, limit: Option<u32>, allowed_updates: Option<Seq<frankenstein::AllowedUpdate>>) -> Seq<u8> {
    get_updates_json(Some(offset as i64), limit, Some(15), allowed_updates)
}

/// The body of a call with already encoded parameters; empty without them.
pub open spec fn body_of(params_json: Option<Vec<u8>>) -> Seq<u8> {
    match params_json {
        Some(b) => b@,
        None => Seq::empty(),
    }
}

/// The headers of every Bot API call.
pub fn json_headers() -> (res: Vec<(String, String)>)
    ensures
        headers_view(res@) == json_headers_view(),
{
    let mut res: Vec<(String, String)> = Vec::new();
    res.push((String::from_str("Content-Type"), String::from_str("application/json")));
    assert(headers_view(res@) =~= json_headers_view());
    res
}

/// The address of a Bot API method.
pub fn method_url_text(api_url: &str, method: &str) -> (res: String)
    ensures
        res@ == method_url(api_url@, method@),
{
    proof {
        reveal_strlit("/");
    }
    String::from_str(api_url).concat("/").concat(method)
}

/// Where a call to `method` of the API at `api_url` goes: the parsed method
/// address and the JSON headers; the address's parse error where it is not a URL.
pub fn call_target(api_url: &str, method: &str) -> (res: Result<CallTarget, TgError>)
    ensures
        match url_parse(method_url(api_url@, method@)) {
            Ok(u) => res matches Ok(t) && t.url == u && t.method == HttpMethod::Get
                && headers_view(t.headers@) == json_headers_view(),
            Err(e) => res matches Err(TgError::InvalidUrl(e2)) && e2 == e,
        },
{
    let text = method_url_text(api_url, method);
    match parse_url(text.as_str()) {
        Ok(url) => Ok(CallTarget { method: HttpMethod::Get, url, headers: json_headers() }),
        Err(e) => Err(TgError::InvalidUrl(e)),
    }
}

/// `res` is the call to `method` of the API at `api_url` with this body and
/// timeout: the method's address parsed as a URL, a GET with JSON headers; or
/// the parse error where that address is not a URL.
pub open spec fn frames_call(
    res: Result<OutgoingCall, TgError>,
    api_url: Seq<char>,
    method: Seq<char>,
    body: Seq<u8>,
    timeout_secs: u64,
) -> bool {
    match url_parse(method_url(api_url, method)) {
        Err(e) => res matches Err(TgError::InvalidUrl(e2)) && e2 == e,
        Ok(u) => res matches Ok(call) && call.url == u && call.method == HttpMethod::Get
            && headers_view(call.headers@) == json_headers_view() && call.body@ == body
            && call.timeout_secs == timeout_secs,
    }
}

/// `res` is the call to `method` whose reply is not waited for: the
/// already encoded parameters as body (an empty body without them) and a 20
/// second timeout; or the parse error where the address is not a URL.
pub open spec fn frames_no_wait(
    res: Result<OutgoingCall, TgError>,
    api_url: Seq<char>,
    method: Seq<char>,
    params_json: Option<Vec<u8>>,
) -> bool {
    frames_call(res, api_url, method, body_of(params_json), no_wait_timeout())
}

/// The call to `method` of the API at `api_url` with `body`, waiting `timeout_secs` seconds.
pub fn frame_call(api_url: &str, method: &str, body: Vec<u8>, timeout_secs: u64) -> (res: Result<OutgoingCall, TgError>)
    ensures
        frames_call(res, api_url@, method@, body@, timeout_secs),
{
    let target = call_target(api_url, method)?;
    Ok(OutgoingCall { method: target.method, url: target.url, headers: target.headers, timeout_secs, body })
}

/// Frames a call to `method` whose reply is not waited for, with the
/// parameters already encoded as JSON by the caller.
pub fn request_no_wait(api_url: &str, method: &str, params_json: Option<Vec<u8>>) -> (res: Result<OutgoingCall, TgError>)
    ensures
        frames_no_wait(res, api_url@, method@, params_json),
{
    let body = match params_json {
        Some(b) => b,
        None => Vec::new(),
    };
    frame_call(api_url, method, body, 20)
}

/// Frames the poll for updates after `offset` at the API at `api_url`, with
/// the limit and the kinds of update that were asked for.
pub fn poll_request(
    api_url: &str,
    offset: u32,
    limit: Option<u32>,
    allowed_updates: &Option<Vec<frankenstein::AllowedUpdate>>,
) -> (res: Result<OutgoingCall, TgError>)
    ensures
        frames_call(res, api_url@, "getUpdates"@, poll_body(offset, limit, opt_seq(*allowed_updates)), no_wait_timeout()),
{
    let target = call_target(api_url, "getUpdates")?;
    let body = encode_get_updates(Some(offset as i64), limit, Some(15), allowed_updates).unwrap();
    Ok(OutgoingCall { method: target.method, url: target.url, headers: target.headers, timeout_secs: 20, body })
}

impl Api {
    /// A client for the same address.
    pub fn duplicate(&self) -> (res: Api)
        ensures
            res.api_url@ == self.api_url@,
    {
        Api { api_url: self.api_url.clone() }
    }

    /// The call to `method` whose reply the caller waits for, with the
    /// already encoded parameters (an empty body without them) and a 30 second timeout.
    pub fn request_call(&self, method: &str, params_json: Option<Vec<u8>>) -> (res: Result<OutgoingCall, TgError>)
        ensures
            frames_call(res, self.api_url@, method@, body_of(params_json), await_timeout()),
    {
        let body = match params_json {
            Some(b) => b,
            None => Vec::new(),
        };
        frame_call(self.api_url.as_str(), method, body, 30)
    }
}

/// A blob of bytes with its MIME type.
#[derive(Debug)]
pub struct Blob {
    pub mime: Option<String>,
    pub bytes: Vec<u8>,
}

/// The JSON text pushed to the websocket for a new chat message: an object
/// with one key, `NewMessageUpdate`, whose value holds the message's fields
/// with their keys in sorted order.
pub open spec fn ws_update_text(
    chat_id: i64,
    message_id: i32,
    date: u64,
    username: Seq<char>,
    text: Seq<char>,
) -> Seq<char> {
    "{\"NewMessageUpdate\":{\"chat_id\":"@ + int_text(chat_id as int) + ",\"date\":"@ + int_text(
        date as int,
    ) + ",\"message_id\":"@ + int_text(message_id as int) + ",\"text\":"@ + json_string(text)
        + ",\"username\":"@ + json_string(username) + "}}"@
}

/// `b` is JSON of [`ws_update_text`], UTF-8 encoded, marked as JSON.
pub open spec fn is_ws_update_blob(
    b: Blob,
    chat_id: i64,
    message_id: i32,
    date: u64,
    username: Seq<char>,
    text: Seq<char>,
) -> bool {
    &&& b.mime matches Some(m) && m@ == "application/json"@
    &&& b.bytes@ == vstd::utf8::encode_utf8(ws_update_text(chat_id, message_id, date, username, text))
}

/// The websocket blob for a new chat message: JSON of [`ws_update_text`], UTF-8 encoded.
pub fn data_to_ws_update_blob(
    chat_id: i64,
    message_id: i32,
    date: u64,
    username: String,
    text: String,
) -> (res: Blob)
    ensures
        is_ws_update_blob(res, chat_id, message_id, date, username@, text@),
{
    let out = String::from_str("{\"NewMessageUpdate\":{\"chat_id\":")
        .concat(i64_text(chat_id).as_str())
        .concat(",\"date\":")
        .concat(u64_text(date).as_str())
        .concat(",\"message_id\":")
        .concat(i64_text(message_id as i64).as_str())
        .concat(",\"text\":")
        .concat(json_string_text(text.as_str()).as_str())
        .concat(",\"username\":")
        .concat(json_string_text(username.as_str()).as_str())
        .concat("}}");
    let bytes = vstd::slice::slice_to_vec(out.as_str().as_bytes());
    Blob { mime: Some(String::from_str("application/json")), bytes }
}

} // verus!
