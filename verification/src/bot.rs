//! What the bot process does with requests from other processes, and where
//! each incoming message goes.
use vstd::prelude::*;
use vstd::string::*;
use crate::address::{Address, AddressView, ProcessId};
use crate::errors::TgError;
use crate::helpers::{Api, OutgoingCall, api_url_of, frames_call, no_wait_timeout, poll_body, poll_request};
use crate::interface::{requested_kinds, requested_limit};
use crate::http::{Handler, MessageKind, handle_http_message};
use crate::interface::TgRequest;
use crate::state::{State, StateView, state_view};

verus! {

/// What the process does after a request from another process.
#[derive(Debug)]
pub enum RequestOutcome {
    /// Nothing, not even an answer.
    Ignored,
    /// Save the state, send the first poll, then answer `Accepted`; or fail
    /// with the poll's error, after saving.
    Registered { poll: Result<OutgoingCall, TgError> },
    /// Answer `Accepted`.
    Accept,
    /// Ask the Bot API about the file, download it with the key, and answer with its bytes.
    FetchFile { api: Api, tg_key: String, params: frankenstein::GetFileParams },
    /// Send the message through the Bot API and answer with what it sent.
    SendMessage { api: Api, params: frankenstein::SendMessageParams },
    /// Send the photo through the Bot API and answer with what it sent.
    SendPhoto { api: Api, params: frankenstein::SendPhotoParams },
}

/// An HTTP request to the HTTP client process that downloads a file.
#[derive(Debug)]
pub struct FileDownload {
    /// The HTTP client process.
    pub target: Address,
    pub method: String,
    pub url: String,
    /// Seconds to wait for the download.
    pub timeout_secs: u64,
}

/// The address a file is downloaded from: the Bot API's file address for the key, then the file's path.
pub open spec fn file_url(tg_key: Seq<char>, file_path: Seq<char>) -> Seq<char> {
    "https://api.telegram.org/file/bot"@ + tg_key + seq!['/'] + file_path
}

/// The processes whose messages go to the HTTP handlers.
pub open spec fn is_http_process(process: Seq<char>) -> bool {
    process == "http_server:distro:sys"@ || process == "http_client:distro:sys"@
}

pub open spec fn client_of_api(a: Api, b: Option<Api>) -> bool {
    b matches Some(x) && x.api_url@ == a.api_url@
}

/// The effect of a request on the state, and what follows. Registering a key
/// changes the state only where there is one, and then polls from offset 0
/// with the requested limit and kinds of update.
/// Subscribing and unsubscribing change the subscribers where there is a
/// state, and are answered either way. The Bot API requests need the state
/// and its client, and leave the state alone.
pub open spec fn request_step(
    old_state: Option<StateView>,
    new_state: Option<StateView>,
    request: TgRequest,
    source: AddressView,
    res: Result<RequestOutcome, TgError>,
) -> bool {
    match request {
        TgRequest::RegisterApiKey(init) => match old_state {
            None => new_state == old_state && res matches Ok(RequestOutcome::Ignored),
            Some(s) => {
                &&& new_state == Some(s.register(init.token@, init.params))
                &&& res matches Ok(RequestOutcome::Registered { poll })
                &&& frames_call(
                    poll,
                    api_url_of(init.token@),
                    "getUpdates"@,
                    poll_body(0, requested_limit(init.params), requested_kinds(init.params)),
                    no_wait_timeout(),
                )
            },
        },
        TgRequest::Subscribe => {
            &&& new_state == (match old_state {
                Some(s) => Some(s.subscribe(source)),
                None => None,
            })
            &&& res matches Ok(RequestOutcome::Accept)
        },
        TgRequest::Unsubscribe => {
            &&& new_state == (match old_state {
                Some(s) => Some(s.unsubscribe(source)),
                None => None,
            })
            &&& res matches Ok(RequestOutcome::Accept)
        },
        TgRequest::GetFile(params) => {
            &&& new_state == old_state
            &&& match old_state {
                None => res matches Err(TgError::StateNotInitialized),
                Some(s) => match s.api {
                    None => res matches Err(TgError::ApiNotInitialized),
                    Some(url) => res matches Ok(RequestOutcome::FetchFile { api, tg_key, params: p })
                        && api.api_url@ == url && tg_key@ == s.tg_key && p == params,
                },
            }
        },
        TgRequest::SendMessage(params) => {
            &&& new_state == old_state
            &&& match old_state {
                None => res matches Err(TgError::StateNotInitialized),
                Some(s) => match s.api {
                    None => res matches Err(TgError::ApiNotInitialized),
                    Some(url) => res matches Ok(RequestOutcome::SendMessage { api, params: p })
                        && api.api_url@ == url && p == params,
                },
            }
        },
        TgRequest::SendPhoto(params) => {
            &&& new_state == old_state
            &&& match old_state {
                None => res matches Err(TgError::StateNotInitialized),
                Some(s) => match s.api {
                    None => res matches Err(TgError::ApiNotInitialized),
                    Some(url) => res matches Ok(RequestOutcome::SendPhoto { api, params: p })
                        && api.api_url@ == url && p == params,
                },
            }
        },
    }
}

/// Handles a request from `source` to the bot process.
pub fn handle_request(state: &mut Option<State>, request: TgRequest, source: &Address) -> (res: Result<RequestOutcome, TgError>)
    ensures
        request_step(state_view(*old(state)), state_view(*final(state)), request, source@, res),
{
    match request {
        TgRequest::RegisterApiKey(init) => {
            match state.take() {
                Some(mut s) => {
                    s.register_api_key(init.token.as_str(), init.params);
                    let poll = poll_request(
                        s.api_url.as_str(),
                        s.current_offset,
                        s.poll_limit,
                        &s.allowed_updates,
                    );
                    *state = Some(s);
                    Ok(RequestOutcome::Registered { poll })
                },
                None => Ok(RequestOutcome::Ignored),
            }
        },
        TgRequest::Subscribe => {
            match state.take() {
                Some(mut s) => {
                    s.subscribe(source);
                    *state = Some(s);
                },
                None => {},
            }
            Ok(RequestOutcome::Accept)
        },
        TgRequest::Unsubscribe => {
            match state.take() {
                Some(mut s) => {
                    s.unsubscribe(source);
                    *state = Some(s);
                },
                None => {},
            }
            Ok(RequestOutcome::Accept)
        },
        TgRequest::GetFile(params) => {
            match state {
                None => Err(TgError::StateNotInitialized),
                Some(s) => match &s.api {
                    None => Err(TgError::ApiNotInitialized),
                    Some(api) => Ok(
                        RequestOutcome::FetchFile { api: api.duplicate(), tg_key: s.tg_key.clone(), params },
                    ),
                },
            }
        },
        TgRequest::SendMessage(params) => {
            match state {
                None => Err(TgError::StateNotInitialized),
                Some(s) => match &s.api {
                    None => Err(TgError::ApiNotInitialized),
                    Some(api) => Ok(RequestOutcome::SendMessage { api: api.duplicate(), params }),
                },
            }
        },
        TgRequest::SendPhoto(params) => {
            match state {
                None => Err(TgError::StateNotInitialized),
                Some(s) => match &s.api {
                    None => Err(TgError::ApiNotInitialized),
                    Some(api) => Ok(RequestOutcome::SendPhoto { api: api.duplicate(), params }),
                },
            }
        },
    }
}

/// The download of the file that the Bot API described with `file_path`,
/// through the HTTP client process; an error where it gave no path.
pub fn file_download_request(tg_key: &str, file_path: Option<String>) -> (res: Result<FileDownload, TgError>)
    ensures
        match file_path {
            None => res matches Err(TgError::FilePathNotFound),
            Some(p) => res matches Ok(d) && d.url@ == file_url(tg_key@, p@) && d.method@ == "GET"@
                && d.timeout_secs == 30 && d.target@ == (AddressView {
                    node: "our"@,
                    process_name: "http_client"@,
                    package_name: "distro"@,
                    publisher_node: "sys"@,
                }),
        },
{
    match file_path {
        None => Err(TgError::FilePathNotFound),
        Some(path) => {
            proof {
                reveal_strlit("/");
            }
            let url = String::from_str("https://api.telegram.org/file/bot").concat(tg_key).concat(
                "/",
            ).concat(path.as_str());
            let target = Address::new("our", ProcessId::new("http_client", "distro", "sys"));
            Ok(FileDownload { target, method: String::from_str("GET"), url, timeout_secs: 30 })
        },
    }
}

/// Which handler a message that is not from the HTTP processes goes to:
/// requests go to the bot, responses are dropped.
pub fn handle_inner_message(kind: MessageKind) -> (res: Handler)
    ensures
        res == (match kind {
            MessageKind::Request => Handler::BotRequest,
            MessageKind::Response => Handler::Ignore,
        }),
{
    match kind {
        MessageKind::Request => Handler::BotRequest,
        MessageKind::Response => Handler::Ignore,
    }
}

/// Which handler a message from `source` goes to: messages from other
/// nodes are refused; those of the HTTP server and client processes go to
/// the HTTP handlers, all others to the bot.
pub fn handle_message(our: &Address, source: &Address, kind: MessageKind) -> (res: Result<Handler, TgError>)
    ensures
        source@.node != our@.node ==> (res matches Err(TgError::ForeignSource(a)) && a@ == source@),
        source@.node == our@.node ==> (res matches Ok(h) && h == (if is_http_process(source@.process_text()) {
            match kind {
                MessageKind::Request => Handler::HttpServerRequest,
                MessageKind::Response => Handler::HttpResponse,
            }
        } else {
            match kind {
                MessageKind::Request => Handler::BotRequest,
                MessageKind::Response => Handler::Ignore,
            }
        })),
{
    if source.node != our.node {
        return Err(TgError::ForeignSource(source.duplicate()));
    }
    let process = source.process.to_text();
    let server = String::from_str("http_server:distro:sys");
    let client = String::from_str("http_client:distro:sys");
    if process == server || process == client {
        Ok(handle_http_message(kind))
    } else {
        Ok(handle_inner_message(kind))
    }
}

/// The state a starting process works with: the saved one, or else an empty
/// one, which is to be saved (the second result).
pub fn startup_state(saved: Option<State>) -> (res: (Option<State>, bool))
    ensures
        match saved {
            Some(s) => state_view(res.0) == Some(s@) && !res.1,
            None => state_view(res.0) == Some(crate::state::empty_state()) && res.1,

        },
{
    match saved {
        Some(s) => (Some(s), false),
        None => (Some(State::initialize_empty()), true),
    }
}

} // verus!
