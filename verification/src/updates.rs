use vstd::prelude::*;

verus! {

/// What the bot reads of a chat message that arrived in an update.
#[derive(Clone, Debug)]
pub struct MessageInfo {
    pub chat_id: i64,
    pub message_id: i32,
    pub date: u64,
    /// The username of the sender, when the message has a sender with a username.
    pub username: Option<String>,
    /// The text of the message, when it has one.
    pub text: Option<String>,
}

/// What the bot reads of one update: its id and, for a new chat message, the message.
#[derive(Clone, Debug)]
pub struct UpdateInfo {
    pub update_id: u32,
    /// `Some` exactly when the update carries a new message (not an edit, a post or another kind).
    pub message: Option<MessageInfo>,
}

pub struct MessageInfoView {
    pub chat_id: i64,
    pub message_id: i32,
    pub date: u64,
    pub username: Option<Seq<char>>,
    pub text: Option<Seq<char>>,
}

pub struct UpdateInfoView {
    pub update_id: u32,
    pub message: Option<MessageInfoView>,
}

pub open spec fn opt_text(s: Option<String>) -> Option<Seq<char>> {
    match s {
        Some(t) => Some(t@),
        None => None,
    }
}

impl View for MessageInfo {
    type V = MessageInfoView;

    open spec fn view(&self) -> MessageInfoView {
        MessageInfoView {
            chat_id: self.chat_id,
            message_id: self.message_id,
            date: self.date,
            username: opt_text(self.username),
            text: opt_text(self.text),
        }
    }
}

impl View for UpdateInfo {
    type V = UpdateInfoView;

    open spec fn view(&self) -> UpdateInfoView {
        UpdateInfoView {
            update_id: self.update_id,
            message: match self.message {
                Some(m) => Some(m@),
                None => None,
            },
        }
    }
}

/// The views of a list of updates.
pub open spec fn infos_view(infos: Seq<UpdateInfo>) -> Seq<UpdateInfoView> {
    infos.map_values(|u: UpdateInfo| u@)
}

} // verus!
