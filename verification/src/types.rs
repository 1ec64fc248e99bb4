//! The value types the remote API exchanges: identifiers, messages,
//! chats, and the inbound update union, each with its mathematical view.

use vstd::prelude::*;

verus! {

/// Identifies a chat. Distinct from the other identifier types even though
/// all are wire-represented as integers; group chats have negative values.
#[derive(Clone, Copy, PartialEq, Eq, Structural, Debug)]
pub struct ChatId(pub i64);

/// Identifies a user.
#[derive(Clone, Copy, PartialEq, Eq, Structural, Debug)]
pub struct UserId(pub u64);

/// Identifies a message within its chat.
#[derive(Clone, Copy, PartialEq, Eq, Structural, Debug)]
pub struct MessageId(pub i32);

/// The remote side answers some calls with the bare JSON value `true`;
/// this unit type stands for that answer.
#[derive(Clone, Copy, PartialEq, Eq, Structural, Debug)]
pub struct True;

/// A chat, as far as this client reads one.
#[derive(Clone, Copy, PartialEq, Eq, Structural, Debug)]
pub struct Chat {
    pub id: ChatId,
}

/// Mathematical view of a [`Chat`].
pub struct ChatV {
    pub id: int,
}

impl View for Chat {
    type V = ChatV;

    open spec fn view(&self) -> ChatV {
        ChatV { id: self.id.0 as int }
    }
}

/// A message, as far as this client reads one: its identifier, the chat it
/// belongs to, and its plain text when it has any.
#[derive(Clone, PartialEq, Eq, Debug)]
pub struct Message {
    pub id: MessageId,
    pub chat: Chat,
    pub text: Option<String>,
}

/// Mathematical view of a [`Message`].
pub struct MessageV {
    pub id: int,
    pub chat: ChatV,
    pub text: Option<Seq<char>>,
}

impl View for Message {
    type V = MessageV;

    open spec fn view(&self) -> MessageV {
        MessageV {
            id: self.id.0 as int,
            chat: self.chat@,
            text: match self.text {
                Some(s) => Some(s@),
                None => None,
            },
        }
    }
}

impl Message {
    /// The plain text of the message, when it carries any.
    pub fn text(&self) -> (r: Option<&str>)
        ensures
            match r {
                Some(s) => self@.text == Some(s@),
                None => self@.text is None,
            },
    {
        match &self.text {
            Some(s) => Some(s.as_str()),
            None => None,
        }
    }
}

/// The bot's own account, as the remote side describes it.
#[derive(Clone, PartialEq, Eq, Debug)]
pub struct Me {
    pub id: UserId,
    pub is_bot: bool,
    pub first_name: String,
    pub username: Option<String>,
}

/// Mathematical view of a [`Me`].
pub struct MeV {
    pub id: int,
    pub is_bot: bool,
    pub first_name: Seq<char>,
    pub username: Option<Seq<char>>,
}

impl View for Me {
    type V = MeV;

    open spec fn view(&self) -> MeV {
        MeV {
            id: self.id.0 as int,
            is_bot: self.is_bot,
            first_name: self.first_name@,
            username: match self.username {
                Some(s) => Some(s@),
                None => None,
            },
        }
    }
}

/// A member of a chat: the member's user identifier and membership status.
#[derive(Clone, PartialEq, Eq, Debug)]
pub struct ChatMember {
    pub user_id: UserId,
    pub status: String,
}

/// Mathematical view of a [`ChatMember`].
pub struct ChatMemberV {
    pub user_id: int,
    pub status: Seq<char>,
}

impl View for ChatMember {
    type V = ChatMemberV;

    open spec fn view(&self) -> ChatMemberV {
        ChatMemberV { user_id: self.user_id.0 as int, status: self.status@ }
    }
}

/// An invite link of a chat.
#[derive(Clone, PartialEq, Eq, Debug)]
pub struct ChatInviteLink {
    pub invite_link: String,
}

/// Mathematical view of a [`ChatInviteLink`].
pub struct ChatInviteLinkV {
    pub invite_link: Seq<char>,
}

impl View for ChatInviteLink {
    type V = ChatInviteLinkV;

    open spec fn view(&self) -> ChatInviteLinkV {
        ChatInviteLinkV { invite_link: self.invite_link@ }
    }
}

/// A user's profile photos, as far as this client reads them.
#[derive(Clone, Copy, PartialEq, Eq, Structural, Debug)]
pub struct UserProfilePhotos {
    pub total_count: i64,
}

/// A file held by the remote side.
#[derive(Clone, PartialEq, Eq, Debug)]
pub struct File {
    pub file_id: String,
}

/// Mathematical view of a [`File`].
pub struct FileV {
    pub file_id: Seq<char>,
}

impl View for File {
    type V = FileV;

    open spec fn view(&self) -> FileV {
        FileV { file_id: self.file_id@ }
    }
}

/// What the members of a chat are allowed to do.
#[derive(Clone, Copy, PartialEq, Eq, Structural, Debug)]
pub struct ChatPermissions {
    pub can_send_messages: bool,
    pub can_send_media_messages: bool,
    pub can_send_polls: bool,
    pub can_send_other_messages: bool,
    pub can_add_web_page_previews: bool,
    pub can_change_info: bool,
    pub can_invite_users: bool,
    pub can_pin_messages: bool,
}

/// A callback query raised by an inline keyboard button.
#[derive(Clone, PartialEq, Eq, Debug)]
pub struct CallbackQuery {
    pub id: String,
    pub data: Option<String>,
}

/// Mathematical view of a [`CallbackQuery`].
pub struct CallbackQueryV {
    pub id: Seq<char>,
    pub data: Option<Seq<char>>,
}

impl View for CallbackQuery {
    type V = CallbackQueryV;

    open spec fn view(&self) -> CallbackQueryV {
        CallbackQueryV {
            id: self.id@,
            data: match self.data {
                Some(s) => Some(s@),
                None => None,
            },
        }
    }
}

/// The closed set of inbound event kinds; exactly one variant is populated
/// per received update.
#[derive(Clone, PartialEq, Eq, Debug)]
pub enum UpdateKind {
    Message(Message),
    EditedMessage(Message),
    ChannelPost(Message),
    EditedChannelPost(Message),
    CallbackQuery(CallbackQuery),
}

/// Mathematical view of an [`UpdateKind`].
pub enum UpdateKindV {
    Message(MessageV),
    EditedMessage(MessageV),
    ChannelPost(MessageV),
    EditedChannelPost(MessageV),
    CallbackQuery(CallbackQueryV),
}

impl View for UpdateKind {
    type V = UpdateKindV;

    open spec fn view(&self) -> UpdateKindV {
        match self {
            UpdateKind::Message(m) => UpdateKindV::Message(m@),
            UpdateKind::EditedMessage(m) => UpdateKindV::EditedMessage(m@),
            UpdateKind::ChannelPost(m) => UpdateKindV::ChannelPost(m@),
            UpdateKind::EditedChannelPost(m) => UpdateKindV::EditedChannelPost(m@),
            UpdateKind::CallbackQuery(q) => UpdateKindV::CallbackQuery(q@),
        }
    }
}

/// One inbound event from the remote messaging platform, tagged by kind.
#[derive(Clone, PartialEq, Eq, Debug)]
pub struct Update {
    pub id: i64,
    pub kind: UpdateKind,
}

/// Mathematical view of an [`Update`].
pub struct UpdateV {
    pub id: int,
    pub kind: UpdateKindV,
}

impl View for Update {
    type V = UpdateV;

    open spec fn view(&self) -> UpdateV {
        UpdateV { id: self.id as int, kind: self.kind@ }
    }
}

} // verus!
