use vstd::prelude::*;
use crate::address::Address;

verus! {

/// Why the bot process could not handle a message.
#[derive(Debug)]
pub enum TgError {
    /// A request needs the bot's state and there is none.
    StateNotInitialized,
    /// An update from the Bot API arrived and there is no state to record it in.
    UpdateStateNotInitialized,
    /// A request needs the Bot API client and no API key was registered.
    ApiNotInitialized,
    /// The Bot API described a file without a path to download it from.
    FilePathNotFound,
    /// A reply was not the one that was waited for, or could not be decoded.
    UnexpectedResponse,
    /// A message came from a process on another node.
    ForeignSource(Address),
    /// A Bot API address is not a valid URL.
    InvalidUrl(url::ParseError),
    /// The HTTP client reported a failure; its text as the client gave it.
    Transport(String),
    /// The Bot API client was asked for a multipart upload.
    MultipartUnsupported,
}

impl TgError {
    /// The fixed text of an error that carries no details; `None` for the others.
    pub fn fixed_text(&self) -> (res: Option<&'static str>)
        ensures
            match self {
                TgError::StateNotInitialized => res == Some("state not initialized"),
                TgError::UpdateStateNotInitialized => res == Some("tg: state not initialized"),
                TgError::ApiNotInitialized => res == Some("api not initialized"),
                TgError::FilePathNotFound => res == Some("file_path not found"),
                TgError::UnexpectedResponse => res == Some("unexpected Response: "),
                TgError::MultipartUnsupported => res == Some(
                    "tgbot doesn't support multipart uploads (yet!)",
                ),
                _ => res is None,
            },
    {
        match self {
            TgError::StateNotInitialized => Some("state not initialized"),
            TgError::UpdateStateNotInitialized => Some("tg: state not initialized"),
            TgError::ApiNotInitialized => Some("api not initialized"),
            TgError::FilePathNotFound => Some("file_path not found"),
            TgError::UnexpectedResponse => Some("unexpected Response: "),
            TgError::MultipartUnsupported => Some("tgbot doesn't support multipart uploads (yet!)"),
            _ => None,
        }
    }
}

} // verus!
