//! Properties of the bot's state that hold across its operations.
use vstd::prelude::*;
use crate::address::AddressView;
use crate::bot::request_step;
use crate::errors::TgError;
use crate::http::{ClientReply, ServerEvent, UpdateOutcome, server_step, tg_update_step};
use crate::interface::{TgRequest, UpdatesParams, requested_kinds, requested_limit};
use crate::bot::RequestOutcome;
use crate::helpers::{OutgoingCall, api_url_of, body_of, frames_call, frames_no_wait, headers_view, no_wait_timeout};
use crate::state::{StateView, remove_first, lemma_remove_first_no_duplicates};
use crate::text::{int_text, is_digit, leading_int, leading_int_len, lemma_int_text_reads_back};
use crate::helpers::{ws_update_text, is_ws_update_blob, base_api_url, method_url};
use crate::http::{next_offset, or_unknown, pushes_first_message, WsPush};
use crate::updates::{MessageInfoView, UpdateInfoView};
use crate::outside::{json_string, update_batch};
use crate::api::wasm_path_of;
use crate::bot::file_url;

verus! {

pub open spec fn opt_well_formed(s: Option<StateView>) -> bool {
    s matches Some(v) ==> v.well_formed()
}

/// Removing the first occurrence of `a` keeps every other address's presence.
proof fn lemma_remove_first_keeps_others(s: Seq<AddressView>, a: AddressView, b: AddressView)
    requires
        b != a,
    ensures
        remove_first(s, a).contains(b) <==> s.contains(b),
    decreases s.len(),
{
    if s.len() > 0 {
        let rest = s.drop_first();
        lemma_remove_first_keeps_others(rest, a, b);
        assert(s =~= seq![s[0]] + rest);
        if s[0] == a {
            assert(remove_first(s, a) == rest);
            if s.contains(b) {
                let k = choose|k: int| 0 <= k < s.len() && s[k] == b;
                assert(rest[k - 1] == b);
            }
        } else {
            let r = remove_first(rest, a);
            assert(remove_first(s, a) == seq![s[0]] + r);
            if s.contains(b) {
                let k = choose|k: int| 0 <= k < s.len() && s[k] == b;
                if k > 0 {
                    assert(rest[k - 1] == b);
                    let j = choose|j: int| 0 <= j < r.len() && r[j] == b;
                    assert((seq![s[0]] + r)[j + 1] == b);
                } else {
                    assert((seq![s[0]] + r)[0] == b);
                }
            }
            if remove_first(s, a).contains(b) {
                let k = choose|k: int| 0 <= k < r.len() + 1 && (seq![s[0]] + r)[k] == b;
                if k > 0 {
                    assert(r[k - 1] == b);
                    let j = choose|j: int| 0 <= j < rest.len() && rest[j] == b;
                    assert(s[j + 1] == b);
                } else {
                    assert(s[0] == b);
                }
            }
        }
    }
}

/// Subscribing twice is subscribing once.
pub proof fn law_subscribe_idempotent(s: StateView, a: AddressView)
    ensures
        s.subscribe(a).subscribe(a) == s.subscribe(a),
{
    if !s.subscribers.contains(a) {
        assert(s.subscribers.push(a)[s.subscribers.len() as int] == a);
    }
}

/// After subscribing, `a` is a subscriber, and so is every earlier subscriber.
pub proof fn law_subscribe_adds(s: StateView, a: AddressView, b: AddressView)
    ensures
        s.subscribe(a).subscribers.contains(a),
        s.subscribers.contains(b) ==> s.subscribe(a).subscribers.contains(b),
{
    if !s.subscribers.contains(a) {
        let t = s.subscribers.push(a);
        assert(t[s.subscribers.len() as int] == a);
        if s.subscribers.contains(b) {
            let k = choose|k: int| 0 <= k < s.subscribers.len() && s.subscribers[k] == b;
            assert(t[k] == b);
        }
    }
}

/// Subscribing adds no one but `a`.
pub proof fn law_subscribe_adds_only(s: StateView, a: AddressView, b: AddressView)
    requires
        b != a,
    ensures
        s.subscribe(a).subscribers.contains(b) ==> s.subscribers.contains(b),
{
    if !s.subscribers.contains(a) && s.subscribe(a).subscribers.contains(b) {
        let t = s.subscribers.push(a);
        let k = choose|k: int| 0 <= k < t.len() && t[k] == b;
        assert(k < s.subscribers.len());
        assert(s.subscribers[k] == b);
    }
}

/// In a well-formed state, after unsubscribing `a` is no longer a subscriber.
pub proof fn law_unsubscribe_removes(s: StateView, a: AddressView)
    requires
        s.well_formed(),
    ensures
        !s.unsubscribe(a).subscribers.contains(a),
{
    lemma_remove_first_no_duplicates(s.subscribers, a);
}

/// Unsubscribing keeps every other subscriber, and adds none.
pub proof fn law_unsubscribe_keeps_others(s: StateView, a: AddressView, b: AddressView)
    requires
        b != a,
    ensures
        s.unsubscribe(a).subscribers.contains(b) <==> s.subscribers.contains(b),
{
    lemma_remove_first_keeps_others(s.subscribers, a, b);
}

/// Unsubscribing an address that has just subscribed restores the state it subscribed in.
pub proof fn law_unsubscribe_undoes_subscribe(s: StateView, a: AddressView)
    requires
        !s.subscribers.contains(a),
    ensures
        s.subscribe(a).unsubscribe(a) == s,
{
    let t = s.subscribers.push(a);
    assert forall|j: int| 0 <= j < s.subscribers.len() implies t[j] != a by {
        assert(t[j] == s.subscribers[j]);
    }
    crate::state::lemma_remove_first_at(t, a, s.subscribers.len() as int);
    assert(t.remove(s.subscribers.len() as int) =~= s.subscribers);
}

/// Every operation on a well-formed state gives a well-formed state.
pub proof fn law_operations_keep_well_formed(
    s: StateView,
    a: AddressView,
    token: Seq<char>,
    params: Option<UpdatesParams>,
    offset: u32,
    channel_id: u32,
)
    requires
        s.well_formed(),
    ensures
        s.subscribe(a).well_formed(),
        s.unsubscribe(a).well_formed(),
        s.register(token, params).well_formed(),
        s.with_offset(offset).well_formed(),
        s.with_channel(channel_id).well_formed(),
{
    lemma_remove_first_no_duplicates(s.subscribers, a);
    if !s.subscribers.contains(a) {
        let t = s.subscribers.push(a);
        assert forall|i: int, j: int| 0 <= i < t.len() && 0 <= j < t.len() && i != j implies t[i] != t[j] by {
            if i < s.subscribers.len() && j < s.subscribers.len() {
                assert(t[i] == s.subscribers[i] && t[j] == s.subscribers[j]);
            } else if i < s.subscribers.len() {
                assert(t[i] == s.subscribers[i]);
            } else if j < s.subscribers.len() {
                assert(t[j] == s.subscribers[j]);
            }
        }
    }
}

/// A request leaves a well-formed state well-formed.
pub proof fn law_request_keeps_well_formed(
    old_state: Option<StateView>,
    new_state: Option<StateView>,
    request: TgRequest,
    source: AddressView,
    res: Result<RequestOutcome, TgError>,
)
    requires
        opt_well_formed(old_state),
        request_step(old_state, new_state, request, source, res),
    ensures
        opt_well_formed(new_state),
{
    if let Some(s) = old_state {
        match request {
            TgRequest::RegisterApiKey(init) => law_operations_keep_well_formed(s, source, init.token@, init.params, 0, 0),
            _ => law_operations_keep_well_formed(s, source, Seq::empty(), None, 0, 0),
        }
    }
}

/// A reply from the HTTP client leaves a well-formed state well-formed.
pub proof fn law_tg_update_keeps_well_formed(
    old_state: Option<StateView>,
    new_state: Option<StateView>,
    body: Seq<u8>,
    reply: ClientReply,
    blob: Option<Seq<u8>>,
    res: Result<UpdateOutcome, TgError>,
)
    requires
        opt_well_formed(old_state),
        tg_update_step(old_state, new_state, body, reply, blob, res),
    ensures
        opt_well_formed(new_state),
{
}

/// Registering a key makes the client and the address follow it, polls from
/// the start, keeps the requested limit and kinds of update, and keeps the subscribers.
pub proof fn law_register_follows_key(s: StateView, token: Seq<char>, params: Option<UpdatesParams>)
    ensures
        s.register(token, params).api == Some(api_url_of(token)),
        s.register(token, params).api_url == api_url_of(token),
        s.register(token, params).current_offset == 0,
        s.register(token, params).poll_limit == requested_limit(params),
        s.register(token, params).allowed_updates == requested_kinds(params),
        s.register(token, params).subscribers == s.subscribers,
{
}

/// Two framings that send the same request: the same URL, method, headers,
/// body and timeout; or the same URL parse error.
pub open spec fn same_call(r1: Result<OutgoingCall, TgError>, r2: Result<OutgoingCall, TgError>) -> bool {
    match (r1, r2) {
        (Ok(a), Ok(b)) => {
            &&& a.url == b.url
            &&& a.method == b.method
            &&& headers_view(a.headers@) == headers_view(b.headers@)
            &&& a.body@ == b.body@
            &&& a.timeout_secs == b.timeout_secs
        },
        (Err(TgError::InvalidUrl(e1)), Err(TgError::InvalidUrl(e2))) => e1 == e2,
        _ => false,
    }
}

/// Framing a call fixes it: two framings of the same method at the same
/// address, with the same body and timeout, send the same request.
pub proof fn law_framing_is_determined(
    api_url: Seq<char>,
    method: Seq<char>,
    body: Seq<u8>,
    timeout_secs: u64,
    r1: Result<OutgoingCall, TgError>,
    r2: Result<OutgoingCall, TgError>,
)
    requires
        frames_call(r1, api_url, method, body, timeout_secs),
        frames_call(r2, api_url, method, body, timeout_secs),
    ensures
        same_call(r1, r2),
{
}

/// The parent's client frames the same no-wait call as the bot's
/// `request_no_wait` at the client's address, for every method and every
/// encoded body (or none): both meet the same `frames_no_wait`.
pub proof fn law_parent_no_wait_frames_as_free(
    api_url: Seq<char>,
    method: Seq<char>,
    params_json: Option<Vec<u8>>,
    from_free: Result<OutgoingCall, TgError>,
    from_parent: Result<OutgoingCall, TgError>,
)
    requires
        frames_no_wait(from_free, api_url, method, params_json),
        frames_no_wait(from_parent, api_url, method, params_json),
    ensures
        same_call(from_free, from_parent),
{
    law_framing_is_determined(api_url, method, body_of(params_json), no_wait_timeout(), from_free, from_parent);
}

/// The state that a starting process works with is always present: the
/// saved one where there is one, or else the empty one, which is then saved.
pub proof fn law_startup_state_present(saved: Option<StateView>, started: Option<StateView>, save: bool)
    requires
        match saved {
            Some(s) => started == Some(s) && !save,
            None => started == Some(crate::state::empty_state()) && save,
        },
    ensures
        started is Some,
        save <==> saved is None,
        opt_well_formed(saved) ==> opt_well_formed(started),
{
}

/// A present state stays present, and well-formed, through a request from
/// another process, whatever the request and its outcome.
pub proof fn law_request_keeps_state_present(
    old_state: Option<StateView>,
    new_state: Option<StateView>,
    request: TgRequest,
    source: AddressView,
    res: Result<RequestOutcome, TgError>,
)
    requires
        old_state is Some,
        request_step(old_state, new_state, request, source, res),
    ensures
        new_state is Some,
        opt_well_formed(old_state) ==> opt_well_formed(new_state),
{
    if opt_well_formed(old_state) {
        law_request_keeps_well_formed(old_state, new_state, request, source, res);
    }
}

/// A present state stays present, and well-formed, through a reply from the
/// HTTP client, whatever the reply and its outcome.
pub proof fn law_update_keeps_state_present(
    old_state: Option<StateView>,
    new_state: Option<StateView>,
    body: Seq<u8>,
    reply: ClientReply,
    blob: Option<Seq<u8>>,
    res: Result<UpdateOutcome, TgError>,
)
    requires
        old_state is Some,
        tg_update_step(old_state, new_state, body, reply, blob, res),
    ensures
        new_state is Some,
        opt_well_formed(old_state) ==> opt_well_formed(new_state),
{
}

/// A present state stays present, and well-formed, through a report from the
/// HTTP server, whatever the report.
pub proof fn law_server_event_keeps_state_present(
    old_state: Option<StateView>,
    new_state: Option<StateView>,
    event: ServerEvent,
    save: bool,
)
    requires
        old_state is Some,
        server_step(old_state, new_state, event, save),
    ensures
        new_state is Some,
        opt_well_formed(old_state) ==> opt_well_formed(new_state),
{
}

/// What a reader of a websocket update takes from its text: after the
/// opening `{"NewMessageUpdate":{"chat_id":`, the integer there; after
/// `,"date":`, the integer there; after `,"message_id":`, the integer there;
/// and, after `,"text":`, the rest of the text.
pub open spec fn read_ws_update(s: Seq<char>) -> (int, int, int, Seq<char>) {
    let r0 = s.skip("{\"NewMessageUpdate\":{\"chat_id\":"@.len() as int);
    let r1 = r0.skip((leading_int_len(r0) + ",\"date\":"@.len()) as int);
    let r2 = r1.skip((leading_int_len(r1) + ",\"message_id\":"@.len()) as int);
    let r3 = r2.skip((leading_int_len(r2) + ",\"text\":"@.len()) as int);
    (leading_int(r0), leading_int(r1), leading_int(r2), r3)
}

/// The websocket update for a message reads back as the message: it opens
/// with `{"NewMessageUpdate":{"chat_id":`, its chat id, date and message id
/// read back exactly as given (every `i64`, `u64` and `i32`), and what
/// follows `,"text":` is the JSON string of the text, then `,"username":`
/// and the JSON string of the username, then the closing braces.
pub proof fn law_ws_update_reads_back(
    chat_id: i64,
    message_id: i32,
    date: u64,
    username: Seq<char>,
    text: Seq<char>,
)
    ensures
        ws_update_text(chat_id, message_id, date, username, text).take(
            "{\"NewMessageUpdate\":{\"chat_id\":"@.len() as int,
        ) == "{\"NewMessageUpdate\":{\"chat_id\":"@,
        read_ws_update(ws_update_text(chat_id, message_id, date, username, text)) == (
            chat_id as int,
            date as int,
            message_id as int,
            json_string(text) + ",\"username\":"@ + json_string(username) + "}}"@,
        ),
{
    let p = "{\"NewMessageUpdate\":{\"chat_id\":"@;
    let q1 = ",\"date\":"@;
    let q2 = ",\"message_id\":"@;
    let q3 = ",\"text\":"@;
    let tail = json_string(text) + ",\"username\":"@ + json_string(username) + "}}"@;
    reveal_strlit(",\"date\":");
    reveal_strlit(",\"message_id\":");
    reveal_strlit(",\"text\":");
    let ic = int_text(chat_id as int);
    let id = int_text(date as int);
    let im = int_text(message_id as int);
    let s = ws_update_text(chat_id, message_id, date, username, text);
    let rest3 = q3 + tail;
    let rest2 = q2 + im + rest3;
    let rest1 = q1 + id + rest2;
    assert(s =~= p + (ic + rest1));
    assert(s.take(p.len() as int) =~= p);
    let r0 = s.skip(p.len() as int);
    assert(r0 =~= ic + rest1);
    assert(rest1[0] == ',');
    lemma_int_text_reads_back(chat_id as int, rest1);
    let r1 = r0.skip((leading_int_len(r0) + q1.len()) as int);
    assert(r1 =~= id + rest2);
    assert(rest2[0] == ',');
    lemma_int_text_reads_back(date as int, rest2);
    let r2 = r1.skip((leading_int_len(r1) + q2.len()) as int);
    assert(r2 =~= im + rest3);
    assert(rest3[0] == ',');
    lemma_int_text_reads_back(message_id as int, rest3);
    let r3 = r2.skip((leading_int_len(r2) + q3.len()) as int);
    assert(r3 =~= tail);
}

/// After a batch of updates, the offset is one past the last update's id
/// (where that id is not the largest one), so no update of a batch whose ids
/// increase is asked for again.
pub proof fn law_offset_moves_past_batch(
    old_state: Option<StateView>,
    new_state: Option<StateView>,
    body: Seq<u8>,
    reply: ClientReply,
    blob: Seq<u8>,
    res: Result<UpdateOutcome, TgError>,
    infos: Seq<UpdateInfoView>,
    updates: Seq<frankenstein::Update>,
)
    requires
        reply is Http,
        old_state is Some,
        tg_update_step(old_state, new_state, body, reply, Some(blob), res),
        update_batch(blob) == Some((infos, updates)),
        infos.len() > 0,
        infos.last().update_id < u32::MAX,
    ensures
        new_state matches Some(n) && n.current_offset == infos.last().update_id + 1,
        (forall|i: int, j: int| 0 <= i < j < infos.len() ==> infos[i].update_id < infos[j].update_id)
            ==> (new_state matches Some(n) && forall|i: int| 0 <= i < infos.len() ==> #[trigger] infos[i].update_id < n.current_offset),
{
    let n = new_state->0;
    assert(n.current_offset == infos.last().update_id + 1);
    if forall|i: int, j: int| 0 <= i < j < infos.len() ==> infos[i].update_id < infos[j].update_id {
        assert forall|i: int| 0 <= i < infos.len() implies #[trigger] infos[i].update_id < n.current_offset by {
            if i < infos.len() - 1 {
                assert(infos[i].update_id < infos[infos.len() - 1].update_id);
            }
        }
    }
}

/// The path of the bot's code is the package id of the parent's process
/// (`package:publisher`) followed by `/pkg/tg.wasm`: it reads back the package
/// name and the publisher, and does not depend on the node the parent runs on.
pub proof fn law_wasm_path_is_package_path(a: AddressView, b: AddressView)
    ensures
        wasm_path_of(a) == a.package_text() + "/pkg/tg.wasm"@,
        wasm_path_of(a).take(a.package_name.len() as int) == a.package_name,
        wasm_path_of(a)[a.package_name.len() as int] == ':',
        wasm_path_of(a).subrange(
            (a.package_name.len() + 1) as int,
            (a.package_name.len() + 1 + a.publisher_node.len()) as int,
        ) == a.publisher_node,
        a.package_name == b.package_name && a.publisher_node == b.publisher_node ==> wasm_path_of(a)
            == wasm_path_of(b),
{
    let w = wasm_path_of(a);
    let pn = a.package_name;
    let pb = a.publisher_node;
    assert(w =~= pn + (seq![':'] + (pb + "/pkg/tg.wasm"@)));
    assert(w.take(pn.len() as int) =~= pn);
    assert(w.subrange((pn.len() + 1) as int, (pn.len() + 1 + pb.len()) as int) =~= pb);
}

/// A download address holds the whole registered key: after the Bot API's
/// file prefix comes the key, exactly the key that the API address of that
/// key holds, then a slash, then the file's path.
pub proof fn law_file_url_holds_key(key: Seq<char>, path: Seq<char>)
    ensures
        file_url(key, path).take("https://api.telegram.org/file/bot"@.len() as int)
            == "https://api.telegram.org/file/bot"@,
        file_url(key, path).subrange(
            "https://api.telegram.org/file/bot"@.len() as int,
            ("https://api.telegram.org/file/bot"@.len() + key.len()) as int,
        ) == key,
        file_url(key, path).subrange(
            "https://api.telegram.org/file/bot"@.len() as int,
            ("https://api.telegram.org/file/bot"@.len() + key.len()) as int,
        ) == api_url_of(key).skip(base_api_url().len() as int),
        file_url(key, path)[("https://api.telegram.org/file/bot"@.len() + key.len()) as int] == '/',
        file_url(key, path).skip(("https://api.telegram.org/file/bot"@.len() + key.len() + 1) as int) == path,
{
    let pre = "https://api.telegram.org/file/bot"@;
    let u = file_url(key, path);
    assert(u =~= pre + (key + (seq!['/'] + path)));
    assert(u.take(pre.len() as int) =~= pre);
    assert(u.subrange(pre.len() as int, (pre.len() + key.len()) as int) =~= key);
    assert(api_url_of(key).skip(base_api_url().len() as int) =~= key);
    assert(u.skip((pre.len() + key.len() + 1) as int) =~= path);
}

/// The websocket gets the first message's own text, whatever its sender's
/// username; and the sender's username where there is one, whatever the text.
pub proof fn law_push_carries_message(
    push: Option<WsPush>,
    infos: Seq<UpdateInfoView>,
    channel_id: u32,
    m: MessageInfoView,
)
    requires
        pushes_first_message(push, infos, channel_id),
        infos.len() > 0,
        infos[0].message == Some(m),
    ensures
        push is Some,
        push matches Some(p) ==> p.channel_id == channel_id,
        m.text matches Some(t) ==> (push matches Some(p) && is_ws_update_blob(
            p.blob,
            m.chat_id,
            m.message_id,
            m.date,
            or_unknown(m.username),
            t,
        )),
        m.username matches Some(u) ==> (push matches Some(p) && is_ws_update_blob(
            p.blob,
            m.chat_id,
            m.message_id,
            m.date,
            u,
            or_unknown(m.text),
        )),
{
}

/// After an empty batch the offset stays where it was.
pub proof fn law_offset_kept_on_empty_batch(
    old_state: Option<StateView>,
    new_state: Option<StateView>,
    body: Seq<u8>,
    reply: ClientReply,
    blob: Seq<u8>,
    res: Result<UpdateOutcome, TgError>,
    updates: Seq<frankenstein::Update>,
)
    requires
        reply is Http,
        old_state is Some,
        tg_update_step(old_state, new_state, body, reply, Some(blob), res),
        update_batch(blob) == Some((Seq::<UpdateInfoView>::empty(), updates)),
    ensures
        new_state matches Some(n) && n.current_offset == old_state->0.current_offset,
{
}

/// The API address of a key holds the whole key after the base address, and
/// a method's address holds the API address, a slash and the method's name.
pub proof fn law_urls_hold_key_and_method(key: Seq<char>, api_url: Seq<char>, method: Seq<char>)
    ensures
        api_url_of(key).take(base_api_url().len() as int) == base_api_url(),
        api_url_of(key).skip(base_api_url().len() as int) == key,
        method_url(api_url, method).take(api_url.len() as int) == api_url,
        method_url(api_url, method)[api_url.len() as int] == '/',
        method_url(api_url, method).skip((api_url.len() + 1) as int) == method,
{
    assert(api_url_of(key).take(base_api_url().len() as int) =~= base_api_url());
    assert(api_url_of(key).skip(base_api_url().len() as int) =~= key);
    let u = method_url(api_url, method);
    assert(u =~= api_url + (seq!['/'] + method));
    assert(u.take(api_url.len() as int) =~= api_url);
    assert(u.skip((api_url.len() + 1) as int) =~= method);
}

/// The state of a process that has never run holds nothing: no key, no
/// client, no subscribers, offset 0; and it is well-formed.
pub proof fn law_empty_state_holds_nothing()
    ensures
        crate::state::empty_state().tg_key.len() == 0,
        crate::state::empty_state().api is None,
        crate::state::empty_state().subscribers.len() == 0,
        crate::state::empty_state().current_offset == 0,
        crate::state::empty_state().poll_limit is None,
        crate::state::empty_state().allowed_updates is None,
        crate::state::empty_state().well_formed(),
{
}

} // verus!
