//! The outside types this library carries and the outside functions it calls,
//! each with the contract that the rest of the library relies on.
use vstd::prelude::*;
use crate::updates::{UpdateInfo, MessageInfo, UpdateInfoView, infos_view};

verus! {

/// `url::Url`, an absolute URL; opaque here.
#[verifier::external_type_specification]
#[verifier::external_body]
pub struct ExUrl(url::Url);

/// `url::ParseError`, why a text is not an absolute URL; opaque here.
#[verifier::external_type_specification]
#[verifier::external_body]
pub struct ExUrlParseError(url::ParseError);

/// `serde_json::Error`, a failed encoding; opaque here.
#[verifier::external_type_specification]
#[verifier::external_body]
pub struct ExJsonError(serde_json::Error);

/// A Bot API update (`frankenstein::Update`), carried through to subscribers.
#[verifier::external_type_specification]
#[verifier::external_body]
pub struct ExUpdate(frankenstein::Update);

/// A Bot API message (`frankenstein::Message`), carried back to a requester.
#[verifier::external_type_specification]
#[verifier::external_body]
pub struct ExMessage(frankenstein::Message);

/// Parameters of the `getFile` method (`frankenstein::GetFileParams`).
#[verifier::external_type_specification]
#[verifier::external_body]
pub struct ExGetFileParams(frankenstein::GetFileParams);

/// Parameters of the `sendMessage` method (`frankenstein::SendMessageParams`).
#[verifier::external_type_specification]
#[verifier::external_body]
pub struct ExSendMessageParams(frankenstein::SendMessageParams);

/// Parameters of the `sendPhoto` method (`frankenstein::SendPhotoParams`).
#[verifier::external_type_specification]
#[verifier::external_body]
pub struct ExSendPhotoParams(frankenstein::SendPhotoParams);

/// Parameters of the `getUpdates` method (`frankenstein::GetUpdatesParams`).
#[verifier::external_type_specification]
#[verifier::external_body]
pub struct ExGetUpdatesParams(frankenstein::GetUpdatesParams);

/// What `url::Url::parse` gives for a text: the URL, or why it is not one.
pub uninterp spec fn url_parse(text: Seq<char>) -> Result<url::Url, url::ParseError>;

/// Parses `text` as an absolute URL with `<url::Url as FromStr>::from_str`
/// (which is `url::Url::parse`). Claimed: the result is the one that parser
/// gives for the text, whatever that is; nothing is claimed of which texts parse.
#[verifier::external_body]
pub(crate) fn parse_url(text: &str) -> (res: Result<url::Url, url::ParseError>)
    ensures
        res == url_parse(text@),
{
    <url::Url as std::str::FromStr>::from_str(text)
}

/// `frankenstein::AllowedUpdate`, a kind of update that a poll asks for; opaque here.
#[verifier::external_type_specification]
#[verifier::external_body]
pub struct ExAllowedUpdate(frankenstein::AllowedUpdate);

/// The JSON bytes that `serde_json::to_vec` gives for `getUpdates` parameters
/// with these fields.
pub uninterp spec fn get_updates_json(
    offset: Option<i64>,
    limit: Option<u32>,
    timeout: Option<u32>,
    allowed_updates: Option<Seq<frankenstein::AllowedUpdate>>,
) -> Seq<u8>;

pub open spec fn opt_seq<T>(v: Option<Vec<T>>) -> Option<Seq<T>> {
    match v {
        Some(v) => Some(v@),
        None => None,
    }
}

/// Encodes `frankenstein::GetUpdatesParams` with these fields using
/// `serde_json::to_vec`. Claimed: it succeeds (the fields are optional
/// integers and a list of unit variants, written into a `Vec`, which
/// `serde_json` does not fail on), and gives the bytes named by
/// [`get_updates_json`]; what the bytes look like is not claimed.
#[verifier::external_body]
pub(crate) fn encode_get_updates(
    offset: Option<i64>,
    limit: Option<u32>,
    timeout: Option<u32>,
    allowed_updates: &Option<Vec<frankenstein::AllowedUpdate>>,
) -> (res: Result<Vec<u8>, serde_json::Error>)
    ensures
        res is Ok,
        res matches Ok(bytes) ==> bytes@ == get_updates_json(offset, limit, timeout, opt_seq(*allowed_updates)),
{
    let allowed_updates = allowed_updates.clone();
    serde_json::to_vec(&frankenstein::GetUpdatesParams { offset, limit, timeout, allowed_updates })
}

/// What a `getUpdates` reply body decodes to with `serde_json::from_slice` as a
/// `frankenstein::MethodResponse<Vec<frankenstein::Update>>`: each update read
/// as its id and, for a new chat message, the message's chat id, id, date,
/// sender's username and text, beside the updates themselves, in the order
/// of the reply; `None` where decoding fails.
pub uninterp spec fn update_batch(body: Seq<u8>) -> Option<(Seq<UpdateInfoView>, Seq<frankenstein::Update>)>;

/// Decodes a `getUpdates` reply with `serde_json::from_slice`, and reads each
/// update as an [`UpdateInfo`] beside the update itself. Claimed: decoding
/// succeeds exactly where [`update_batch`] names a result, and then the read
/// values and the updates are the ones it names.
#[verifier::external_body]
pub(crate) fn decode_update_batch(body: &[u8]) -> (res: Option<(Vec<UpdateInfo>, Vec<frankenstein::Update>)>)
    ensures
        res is Some <==> update_batch(body@) is Some,
        res matches Some((infos, updates)) ==> update_batch(body@) == Some((infos_view(infos@), updates@)),
{
    let reply = serde_json::from_slice::<frankenstein::MethodResponse<Vec<frankenstein::Update>>>(body).ok()?;
    let infos = reply.result.iter().map(|u| UpdateInfo {
        update_id: u.update_id,
        message: match &u.content {
            frankenstein::UpdateContent::Message(m) => Some(MessageInfo { chat_id: m.chat.id, message_id: m.message_id, date: m.date,
                username: m.from.as_ref().and_then(|f| f.username.clone()), text: m.text.clone() }),
            _ => None,
        },
    }).collect();
    Some((infos, reply.result))
}

/// A lower-case hexadecimal digit.
pub open spec fn hex_digit(n: int) -> char {
    if n < 10 {
        ('0' as int + n) as char
    } else {
        ('a' as int + (n - 10)) as char
    }
}

/// How `serde_json` writes one character inside a JSON string: quote and
/// backslash escaped with a backslash; backspace, tab, line feed, form feed
/// and carriage return by their short escapes; other control characters
/// below 0x20 as `\u00XX` in lower-case hex; every other character as itself.
pub open spec fn json_escape(c: char) -> Seq<char> {
    if c == '"' {
        seq!['\\', '"']
    } else if c == '\\' {
        seq!['\\', '\\']
    } else if c == '\x08' {
        seq!['\\', 'b']
    } else if c == '\t' {
        seq!['\\', 't']
    } else if c == '\n' {
        seq!['\\', 'n']
    } else if c == '\x0c' {
        seq!['\\', 'f']
    } else if c == '\r' {
        seq!['\\', 'r']
    } else if (c as int) < 0x20 {
        seq!['\\', 'u', '0', '0', hex_digit((c as int) / 16), hex_digit((c as int) % 16)]
    } else {
        seq![c]
    }
}

/// The characters of `s`, each written as [`json_escape`] writes it.
pub open spec fn json_escaped(s: Seq<char>) -> Seq<char>
    decreases s.len(),
{
    if s.len() == 0 {
        Seq::empty()
    } else {
        json_escape(s[0]) + json_escaped(s.drop_first())
    }
}

/// The JSON text of a string value as `serde_json` writes it: quoted and escaped.
pub open spec fn json_string(s: Seq<char>) -> Seq<char> {
    seq!['"'] + json_escaped(s) + seq!['"']
}

/// Writes `s` as a JSON string with the `Display` of `serde_json::Value::String`.
/// Claimed: the text is [`json_string`] of `s`, as `serde_json`'s escape table gives it.
#[verifier::external_body]
pub(crate) fn json_string_text(s: &str) -> (res: String)
    ensures
        res@ == json_string(s@),
{
    serde_json::Value::String(s.to_string()).to_string()
}

/// Decodes bytes as UTF-8 with `std::str::from_utf8`. Claimed, as its
/// documentation says: a text exactly when the bytes are valid UTF-8, and
/// then the characters they encode.
#[verifier::external_body]
pub(crate) fn utf8_text(bytes: &[u8]) -> (res: Option<&str>)
    ensures
        res is Some <==> vstd::utf8::valid_utf8(bytes@),
        res matches Some(t) ==> t@ == vstd::utf8::decode_utf8(bytes@),
{
    std::str::from_utf8(bytes).ok()
}

/// The `Debug` text of a string slice: quoted, each character escaped as
/// `char::escape_debug` does, except that single quotes are left as they are.
pub uninterp spec fn debug_text(s: Seq<char>) -> Seq<char>;

/// Formats `s` with `{:?}`. Claimed: the text is the one named by [`debug_text`].
#[verifier::external_body]
pub(crate) fn debug_string(s: &str) -> (res: String)
    ensures
        res@ == debug_text(s@),
{
    format!("{:?}", s)
}

} // verus!
