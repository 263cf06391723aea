//! What the bot process does with messages from the HTTP server and client
//! processes: websocket openings, and replies to its `getUpdates` polls.
use vstd::prelude::*;
use vstd::string::*;
use crate::address::{Address, AddressView};
use crate::errors::TgError;
use crate::helpers::{
    Blob, OutgoingCall, data_to_ws_update_blob, frames_call, is_ws_update_blob, no_wait_timeout,
    poll_body, poll_request,
};
use crate::outside::{debug_string, debug_text, decode_update_batch, update_batch, utf8_text};
use crate::state::{State, StateView, addresses_view, state_view};
use crate::updates::{MessageInfoView, UpdateInfo, UpdateInfoView, infos_view};

verus! {

/// What the HTTP server process reported, as far as the bot reads it.
#[derive(Clone, Copy, Debug)]
pub enum ServerEvent {
    /// A websocket was opened on this channel.
    WebSocketOpen { channel_id: u32 },
    /// Anything else, or a report that could not be decoded.
    Other,
}

/// How the HTTP client process answered a call, as far as the bot reads it.
#[derive(Clone, Debug)]
pub enum ClientReply {
    /// An HTTP response; its body comes separately, as a blob.
    Http,
    /// Some other kind of answer.
    Other,
    /// The answer could not be decoded, or the client reported an error; its text.
    Failed(String),
}

/// Whether a message is a request or a response.
#[derive(Clone, Copy, Debug, PartialEq, Eq)]
pub enum MessageKind {
    Request,
    Response,
}

/// Which handler a message goes to.
#[derive(Clone, Copy, Debug, PartialEq, Eq)]
pub enum Handler {
    /// A report from the HTTP server process.
    HttpServerRequest,
    /// A reply from the HTTP client process.
    HttpResponse,
    /// A request from another process to the bot.
    BotRequest,
    /// Nothing to do.
    Ignore,
}

/// A blob to push to a websocket channel.
#[derive(Debug)]
pub struct WsPush {
    pub channel_id: u32,
    pub blob: Blob,
}

/// What to do with a batch of updates.
#[derive(Debug)]
pub struct Delivery {
    /// The first update's message, pushed to the websocket; `None` unless the first update is a new message.
    pub push: Option<WsPush>,
    /// Who receives the updates.
    pub forward_to: Vec<Address>,
    /// The updates, in the order the Bot API gave them.
    pub updates: Vec<frankenstein::Update>,
    /// The next poll, after the updates in this batch.
    pub poll: Result<OutgoingCall, TgError>,
}

/// What to do after a reply from the HTTP client.
#[derive(Debug)]
pub enum UpdateOutcome {
    /// The reply held updates.
    Delivered(Delivery),
    /// The reply had no body: every subscriber is told so, with `message`.
    Undelivered { notify: Vec<Address>, message: String },
}

/// The id of the first update after a batch: one past the batch's last id
/// (wrapping past the largest id to 0); unchanged after an empty batch.
pub open spec fn next_offset(infos: Seq<UpdateInfoView>, current: u32) -> u32 {
    if infos.len() == 0 {
        current
    } else if infos.last().update_id == u32::MAX {
        0
    } else {
        (infos.last().update_id + 1) as u32
    }
}

/// A text, or `Unknown` where there is none.
pub open spec fn or_unknown(t: Option<Seq<char>>) -> Seq<char> {
    match t {
        Some(t) => t,
        None => "Unknown"@,
    }
}

/// `push` is what the websocket gets for a batch: the first update's message
/// on `channel_id`, with `Unknown` for a missing username or text; nothing
/// where the batch is empty or its first update is not a new message.
pub open spec fn pushes_first_message(push: Option<WsPush>, infos: Seq<UpdateInfoView>, channel_id: u32) -> bool {
    if infos.len() > 0 && infos[0].message is Some {
        let m = infos[0].message->0;
        push matches Some(p) && p.channel_id == channel_id && is_ws_update_blob(
            p.blob,
            m.chat_id,
            m.message_id,
            m.date,
            or_unknown(m.username),
            or_unknown(m.text),
        )
    } else {
        push is None
    }
}

/// What subscribers are told when a reply carried no body: the body's text
/// (or `[Invalid UTF-8]`) in its `Debug` form.
pub open spec fn undelivered_notice(body: Seq<u8>) -> Seq<char> {
    "tg_bot, failed to serialize response: "@ + debug_text(
        if vstd::utf8::valid_utf8(body) {
            vstd::utf8::decode_utf8(body)
        } else {
            "[Invalid UTF-8]"@
        },
    )
}

/// The effect of a reply from the HTTP client on the state, and what follows.
/// A failed or non-HTTP reply, a missing state and an undecodable body are
/// errors that leave the state alone. Without a body, every subscriber is
/// notified. With updates, the offset moves past them, the first message is
/// pushed to the websocket, every subscriber gets all the decoded updates, in
/// their order, and the next poll is framed with the registered limit and
/// kinds of update.
pub open spec fn tg_update_step(
    old_state: Option<StateView>,
    new_state: Option<StateView>,
    body: Seq<u8>,
    reply: ClientReply,
    blob: Option<Seq<u8>>,
    res: Result<UpdateOutcome, TgError>,
) -> bool {
    match reply {
        ClientReply::Failed(m) => {
            &&& new_state == old_state
            &&& res matches Err(TgError::Transport(m2)) && m2@ == m@
        },
        ClientReply::Other => new_state == old_state && res matches Err(TgError::UnexpectedResponse),
        ClientReply::Http => match old_state {
            None => new_state == old_state && res matches Err(TgError::UpdateStateNotInitialized),
            Some(s) => match blob {
                None => {
                    &&& new_state == old_state
                    &&& res matches Ok(UpdateOutcome::Undelivered { notify, message })
                        && addresses_view(notify@) == s.subscribers && message@ == undelivered_notice(body)
                },
                Some(b) => match update_batch(b) {
                    None => new_state == old_state && res matches Err(TgError::UnexpectedResponse),
                    Some((infos, updates)) => {
                        let off = next_offset(infos, s.current_offset);
                        &&& new_state == Some(s.with_offset(off))
                        &&& res matches Ok(UpdateOutcome::Delivered(d))
                        &&& addresses_view(d.forward_to@) == s.subscribers
                        &&& d.updates@ == updates
                        &&& pushes_first_message(d.push, infos, s.our_channel_id)
                        &&& frames_call(
                            d.poll,
                            s.api_url,
                            "getUpdates"@,
                            poll_body(off, s.poll_limit, s.allowed_updates),
                            no_wait_timeout(),
                        )
                    },
                },
            },
        },
    }
}

pub open spec fn opt_bytes(b: Option<Vec<u8>>) -> Option<Seq<u8>> {
    match b {
        Some(v) => Some(v@),
        None => None,
    }
}

/// A copy of a list of addresses.
pub fn copy_addresses(v: &Vec<Address>) -> (res: Vec<Address>)
    ensures
        addresses_view(res@) == addresses_view(v@),
{
    let mut res: Vec<Address> = Vec::new();
    let n = v.len();
    let mut i: usize = 0;
    while i < n
        invariant
            n == v.len(),
            0 <= i <= n,
            res@.len() == i,
            forall|j: int| 0 <= j < i ==> #[trigger] res@[j]@ == v@[j]@,
        decreases n - i,
    {
        res.push(v[i].duplicate());
        i = i + 1;
    }
    assert(addresses_view(res@) =~= addresses_view(v@));
    res
}

fn text_or_unknown(t: &Option<String>) -> (res: String)
    ensures
        res@ == or_unknown(crate::updates::opt_text(*t)),
{
    match t {
        Some(s) => s.clone(),
        None => String::from_str("Unknown"),
    }
}

/// The offset after a batch of updates.
pub fn offset_after(infos: &Vec<UpdateInfo>, current: u32) -> (res: u32)
    ensures
        res == next_offset(infos_view(infos@), current),
{
    if infos.len() == 0 {
        current
    } else {
        let last = infos[infos.len() - 1].update_id;
        assert(infos_view(infos@).last() == infos@[infos.len() - 1]@);
        if last == u32::MAX {
            0
        } else {
            last + 1
        }
    }
}

/// What the websocket gets for a batch of updates.
pub fn first_message_push(infos: &Vec<UpdateInfo>, channel_id: u32) -> (res: Option<WsPush>)
    ensures
        pushes_first_message(res, infos_view(infos@), channel_id),
{
    if infos.len() == 0 {
        return None;
    }
    assert(infos_view(infos@)[0] == infos@[0]@);
    match &infos[0].message {
        Some(m) => {
            let username = text_or_unknown(&m.username);
            let text = text_or_unknown(&m.text);
            let blob = data_to_ws_update_blob(m.chat_id, m.message_id, m.date, username, text);
            Some(WsPush { channel_id, blob })
        },
        None => None,
    }
}

/// The notice to subscribers about a reply without a body.
pub fn undelivered_text(body: &[u8]) -> (res: String)
    ensures
        res@ == undelivered_notice(body@),
{
    let shown = match utf8_text(body) {
        Some(t) => t,
        None => "[Invalid UTF-8]",
    };
    String::from_str("tg_bot, failed to serialize response: ").concat(debug_string(shown).as_str())
}

/// Handles a reply from the HTTP client to a `getUpdates` poll, given how the
/// client answered and the reply's body, if one came. The new offset is
/// recorded in the state at once; the pushes, forwards and the next poll are
/// left to the caller, in the order of [`Delivery`]'s fields.
pub fn handle_tg_update(
    state: &mut Option<State>,
    body: &[u8],
    reply: ClientReply,
    blob: Option<Vec<u8>>,
) -> (res: Result<UpdateOutcome, TgError>)
    ensures
        tg_update_step(state_view(*old(state)), state_view(*final(state)), body@, reply, opt_bytes(blob), res),
{
    match reply {
        ClientReply::Failed(m) => {
            return Err(TgError::Transport(m));
        },
        ClientReply::Other => {
            return Err(TgError::UnexpectedResponse);
        },
        ClientReply::Http => {},
    }
    let mut s = match state.take() {
        Some(s) => s,
        None => {
            return Err(TgError::UpdateStateNotInitialized);
        },
    };
    match blob {
        Some(b) => {
            match decode_update_batch(b.as_slice()) {
                None => {
                    *state = Some(s);
                    Err(TgError::UnexpectedResponse)
                },
                Some((infos, updates)) => {
                    let push = first_message_push(&infos, s.our_channel_id);
                    let forward_to = copy_addresses(&s.subscribers);
                    let off = offset_after(&infos, s.current_offset);
                    s.record_offset(off);
                    let poll = poll_request(s.api_url.as_str(), off, s.poll_limit, &s.allowed_updates);
                    *state = Some(s);
                    Ok(UpdateOutcome::Delivered(Delivery { push, forward_to, updates, poll }))
                },
            }
        },
        None => {
            let notify = copy_addresses(&s.subscribers);
            let message = undelivered_text(body);
            *state = Some(s);
            Ok(UpdateOutcome::Undelivered { notify, message })
        },
    }
}

/// Handles a response message from the HTTP client process; its context is not read.
pub fn handle_http_response(
    state: &mut Option<State>,
    body: &[u8],
    context: &Option<Vec<u8>>,
    reply: ClientReply,
    blob: Option<Vec<u8>>,
) -> (res: Result<UpdateOutcome, TgError>)
    ensures
        tg_update_step(state_view(*old(state)), state_view(*final(state)), body@, reply, opt_bytes(blob), res),
{
    handle_tg_update(state, body, reply, blob)
}

/// The effect of a report from the HTTP server process: an opened websocket
/// becomes the state's channel, and the state is to be saved; anything else,
/// or no state, changes nothing.
pub open spec fn server_step(
    old_state: Option<StateView>,
    new_state: Option<StateView>,
    event: ServerEvent,
    save: bool,
) -> bool {
    match (event, old_state) {
        (ServerEvent::WebSocketOpen { channel_id }, Some(s)) => save && new_state == Some(
            s.with_channel(channel_id),
        ),
        _ => !save && new_state == old_state,
    }
}

/// Handles a report from the HTTP server process: an opened websocket
/// becomes the channel that chat messages are pushed to. Returns whether the
/// state changed and is to be saved.
pub fn handle_http_server_request(state: &mut Option<State>, event: ServerEvent) -> (save: bool)
    ensures
        server_step(state_view(*old(state)), state_view(*final(state)), event, save),
{
    match event {
        ServerEvent::WebSocketOpen { channel_id } => {
            match state.take() {
                Some(mut s) => {
                    s.record_channel(channel_id);
                    *state = Some(s);
                    true
                },
                None => false,
            }
        },
        ServerEvent::Other => false,
    }
}

/// Which handler a message from the HTTP server or client goes to: requests
/// are server reports, responses are client replies.
pub fn handle_http_message(kind: MessageKind) -> (res: Handler)
    ensures
        res == (match kind {
            MessageKind::Request => Handler::HttpServerRequest,
            MessageKind::Response => Handler::HttpResponse,
        }),
{
    match kind {
        MessageKind::Request => Handler::HttpServerRequest,
        MessageKind::Response => Handler::HttpResponse,
    }
}

} // verus!
