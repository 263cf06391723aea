//! The messages that other processes exchange with the bot process.
use vstd::prelude::*;

verus! {

/// Parameters of a `getUpdates` call.
#[derive(Clone, Debug)]
pub struct UpdatesParams {
    pub offset: Option<i64>,
    pub limit: Option<u32>,
    pub timeout: Option<u32>,
    pub allowed_updates: Option<Vec<frankenstein::AllowedUpdate>>,
}

/// Registers the bot's API key. Of `params`, the bot keeps the `limit` and
/// `allowed_updates` for every poll it makes; it counts the offset itself and
/// always polls with a 15 second timeout.
#[derive(Debug)]
pub struct TgInitialize {
    pub token: String,
    pub params: Option<UpdatesParams>,
}

/// The limit that registration parameters ask for, if any.
pub open spec fn requested_limit(params: Option<UpdatesParams>) -> Option<u32> {
    match params {
        Some(p) => p.limit,
        None => None,
    }
}

/// The kinds of update that registration parameters ask for, if they name any.
pub open spec fn requested_kinds(params: Option<UpdatesParams>) -> Option<Seq<frankenstein::AllowedUpdate>> {
    match params {
        Some(p) => match p.allowed_updates {
            Some(v) => Some(v@),
            None => None,
        },
        None => None,
    }
}

/// Updates from the Bot API, forwarded to a subscriber.
#[derive(Debug)]
pub struct TgUpdate {
    pub updates: Vec<frankenstein::Update>,
}

/// What another process asks of the bot process.
#[derive(Debug)]
pub enum TgRequest {
    RegisterApiKey(TgInitialize),
    Subscribe,
    Unsubscribe,
    /// Download a file from telegram.
    GetFile(frankenstein::GetFileParams),
    /// Send a message to a chat.
    SendMessage(frankenstein::SendMessageParams),
    /// Send a photo to a chat.
    SendPhoto(frankenstein::SendPhotoParams),
}

/// What the bot process answers or pushes to other processes.
#[derive(Debug)]
pub enum TgResponse {
    /// The request was taken (written `Ok` on the wire).
    Accepted,
    Update(TgUpdate),
    Error(String),
    /// Download a file from telegram. Blobs included
    GetFile,
    /// Send a message to a chat.
    SendMessage(frankenstein::Message),
    /// Send a photo to a chat.
    SendPhoto(frankenstein::Message),
}

} // verus!
