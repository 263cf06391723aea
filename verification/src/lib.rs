//! Message handling of a Telegram bot process: who is subscribed to the bot,
//! how the polling offset advances, how requests to the Bot API are framed and
//! what each incoming message asks the process to do next.

pub mod address;
pub mod outside;
pub mod updates;
pub mod text;
pub mod errors;
pub mod interface;
pub mod helpers;
pub mod state;
pub mod http;
pub mod bot;
pub mod api;
pub mod laws;
