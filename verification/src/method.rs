//! The catalog of symbolic operations and their wire-level method names.

use vstd::prelude::*;
use vstd::string::StringExecFns;

verus! {

/// The closed set of operations the remote bot API offers. Each variant
/// maps one-to-one to a wire-level method string; see [`wire_name_spec`].
#[derive(Clone, Copy, PartialEq, Eq, Structural, Debug)]
pub enum Method {
    GetMe,
    LogOut,
    Close,
    SendMessage,
    ForwardMessage,
    CopyMessage,
    SendPhoto,
    SendAudio,
    SendDocument,
    SendVideo,
    SendAnimation,
    SendVoice,
    SendVideoNote,
    SendMediaGroup,
    SendLocation,
    SendVenue,
    SendContract,
    SendPoll,
    SendDice,
    SendChatAction,
    GetUserProfilePhotos,
    GetFile,
    BanChatMember,
    UnbanChatMember,
    RestrictChatMember,
    PromoteChatMember,
    SetChatAdministratorCustomTitle,
    BanChatSenderChat,
    UnbanChatSenderChat,
    SetChatPermissions,
    ExportChatInviteLink,
    CreateChatInviteLink,
    EditChatInviteLink,
    RevokeChatInviteLink,
    ApproveChatJoinRequest,
    DeclineChatJoinRequest,
    SetChatPhoto,
    DeleteChatPhoto,
    SetChatTitle,
    SetChatDescription,
    PinChatMessage,
    UnpinChatMessage,
    UnpinAllChatMessages,
    LeaveChat,
    GetChat,
    GetChatAdministrators,
    GetChatMemberCount,
    GetChatMember,
    SetChatStickerSet,
    DeleteChatStickerSet,
    GetForumTopicIconStickers,
    CreateForumTopic,
    EditForumTopic,
    CloseForumTopic,
    ReopenForumTopic,
    DeleteForumTopic,
    UnpinAllForumTopicMessages,
    EditGeneralForumTopic,
    CloseGeneralForumTopic,
    ReopenGeneralForumTopic,
    HideGeneralForumTopic,
    UnhideGeneralForumTopic,
    AnswerCallbackQuery,
    SetMyCommands,
    DeleteMyCommands,
    GetMyCommands,
    SetMyDescription,
    GetMyDescription,
    SetMyShortDescription,
    GetMyShortDescription,
    SetChatMenuButton,
    GetChatMenuButton,
    SetMyDefaultAdministratorRights,
    GetMyDefaultAdministratorRights,
    EditMessageText,
    EditMessageCaption,
    EditMessageMedia,
    EditMessageLiveLocation,
    StopMessageLiveLocation,
    EditMessageReplyMarkup,
    StopPoll,
    DeleteMessage,
}

/// The canonical wire-level method string of each operation: the symbolic
/// identifier in lower camel case. Total over the enumerated set; no
/// operation is without a mapping.
pub open spec fn wire_name_spec(m: Method) -> Seq<char> {
    match m {
        Method::GetMe => "getMe"@,
        Method::LogOut => "logOut"@,
        Method::Close => "close"@,
        Method::SendMessage => "sendMessage"@,
        Method::ForwardMessage => "forwardMessage"@,
        Method::CopyMessage => "copyMessage"@,
        Method::SendPhoto => "sendPhoto"@,
        Method::SendAudio => "sendAudio"@,
        Method::SendDocument => "sendDocument"@,
        Method::SendVideo => "sendVideo"@,
        Method::SendAnimation => "sendAnimation"@,
        Method::SendVoice => "sendVoice"@,
        Method::SendVideoNote => "sendVideoNote"@,
        Method::SendMediaGroup => "sendMediaGroup"@,
        Method::SendLocation => "sendLocation"@,
        Method::SendVenue => "sendVenue"@,
        Method::SendContract => "sendContract"@,
        Method::SendPoll => "sendPoll"@,
        Method::SendDice => "sendDice"@,
        Method::SendChatAction => "sendChatAction"@,
        Method::GetUserProfilePhotos => "getUserProfilePhotos"@,
        Method::GetFile => "getFile"@,
        Method::BanChatMember => "banChatMember"@,
        Method::UnbanChatMember => "unbanChatMember"@,
        Method::RestrictChatMember => "restrictChatMember"@,
        Method::PromoteChatMember => "promoteChatMember"@,
        Method::SetChatAdministratorCustomTitle => "setChatAdministratorCustomTitle"@,
        Method::BanChatSenderChat => "banChatSenderChat"@,
        Method::UnbanChatSenderChat => "unbanChatSenderChat"@,
        Method::SetChatPermissions => "setChatPermissions"@,
        Method::ExportChatInviteLink => "exportChatInviteLink"@,
        Method::CreateChatInviteLink => "createChatInviteLink"@,
        Method::EditChatInviteLink => "editChatInviteLink"@,
        Method::RevokeChatInviteLink => "revokeChatInviteLink"@,
        Method::ApproveChatJoinRequest => "approveChatJoinRequest"@,
        Method::DeclineChatJoinRequest => "declineChatJoinRequest"@,
        Method::SetChatPhoto => "setChatPhoto"@,
        Method::DeleteChatPhoto => "deleteChatPhoto"@,
        Method::SetChatTitle => "setChatTitle"@,
        Method::SetChatDescription => "setChatDescription"@,
        Method::PinChatMessage => "pinChatMessage"@,
        Method::UnpinChatMessage => "unpinChatMessage"@,
        Method::UnpinAllChatMessages => "unpinAllChatMessages"@,
        Method::LeaveChat => "leaveChat"@,
        Method::GetChat => "getChat"@,
        Method::GetChatAdministrators => "getChatAdministrators"@,
        Method::GetChatMemberCount => "getChatMemberCount"@,
        Method::GetChatMember => "getChatMember"@,
        Method::SetChatStickerSet => "setChatStickerSet"@,
        Method::DeleteChatStickerSet => "deleteChatStickerSet"@,
        Method::GetForumTopicIconStickers => "getForumTopicIconStickers"@,
        Method::CreateForumTopic => "createForumTopic"@,
        Method::EditForumTopic => "editForumTopic"@,
        Method::CloseForumTopic => "closeForumTopic"@,
        Method::ReopenForumTopic => "reopenForumTopic"@,
        Method::DeleteForumTopic => "deleteForumTopic"@,
        Method::UnpinAllForumTopicMessages => "unpinAllForumTopicMessages"@,
        Method::EditGeneralForumTopic => "editGeneralForumTopic"@,
        Method::CloseGeneralForumTopic => "closeGeneralForumTopic"@,
        Method::ReopenGeneralForumTopic => "reopenGeneralForumTopic"@,
        Method::HideGeneralForumTopic => "hideGeneralForumTopic"@,
        Method::UnhideGeneralForumTopic => "unhideGeneralForumTopic"@,
        Method::AnswerCallbackQuery => "answerCallbackQuery"@,
        Method::SetMyCommands => "setMyCommands"@,
        Method::DeleteMyCommands => "deleteMyCommands"@,
        Method::GetMyCommands => "getMyCommands"@,
        Method::SetMyDescription => "setMyDescription"@,
        Method::GetMyDescription => "getMyDescription"@,
        Method::SetMyShortDescription => "setMyShortDescription"@,
        Method::GetMyShortDescription => "getMyShortDescription"@,
        Method::SetChatMenuButton => "setChatMenuButton"@,
        Method::GetChatMenuButton => "getChatMenuButton"@,
        Method::SetMyDefaultAdministratorRights => "setMyDefaultAdministratorRights"@,
        Method::GetMyDefaultAdministratorRights => "getMyDefaultAdministratorRights"@,
        Method::EditMessageText => "editMessageText"@,
        Method::EditMessageCaption => "editMessageCaption"@,
        Method::EditMessageMedia => "editMessageMedia"@,
        Method::EditMessageLiveLocation => "editMessageLiveLocation"@,
        Method::StopMessageLiveLocation => "stopMessageLiveLocation"@,
        Method::EditMessageReplyMarkup => "editMessageReplyMarkup"@,
        Method::StopPoll => "stopPoll"@,
        Method::DeleteMessage => "deleteMessage"@,
    }
}

impl Method {
    /// The wire-level method string that names this operation in a request
    /// path. Deterministic and defined for every variant.
    pub fn wire_name(&self) -> (r: &'static str)
        ensures
            r@ == wire_name_spec(*self),
    {
        match self {
            Method::GetMe => "getMe",
            Method::LogOut => "logOut",
            Method::Close => "close",
            Method::SendMessage => "sendMessage",
            Method::ForwardMessage => "forwardMessage",
            Method::CopyMessage => "copyMessage",
            Method::SendPhoto => "sendPhoto",
            Method::SendAudio => "sendAudio",
            Method::SendDocument => "sendDocument",
            Method::SendVideo => "sendVideo",
            Method::SendAnimation => "sendAnimation",
            Method::SendVoice => "sendVoice",
            Method::SendVideoNote => "sendVideoNote",
            Method::SendMediaGroup => "sendMediaGroup",
            Method::SendLocation => "sendLocation",
            Method::SendVenue => "sendVenue",
            Method::SendContract => "sendContract",
            Method::SendPoll => "sendPoll",
            Method::SendDice => "sendDice",
            Method::SendChatAction => "sendChatAction",
            Method::GetUserProfilePhotos => "getUserProfilePhotos",
            Method::GetFile => "getFile",
            Method::BanChatMember => "banChatMember",
            Method::UnbanChatMember => "unbanChatMember",
            Method::RestrictChatMember => "restrictChatMember",
            Method::PromoteChatMember => "promoteChatMember",
            Method::SetChatAdministratorCustomTitle => "setChatAdministratorCustomTitle",
            Method::BanChatSenderChat => "banChatSenderChat",
            Method::UnbanChatSenderChat => "unbanChatSenderChat",
            Method::SetChatPermissions => "setChatPermissions",
            Method::ExportChatInviteLink => "exportChatInviteLink",
            Method::CreateChatInviteLink => "createChatInviteLink",
            Method::EditChatInviteLink => "editChatInviteLink",
            Method::RevokeChatInviteLink => "revokeChatInviteLink",
            Method::ApproveChatJoinRequest => "approveChatJoinRequest",
            Method::DeclineChatJoinRequest => "declineChatJoinRequest",
            Method::SetChatPhoto => "setChatPhoto",
            Method::DeleteChatPhoto => "deleteChatPhoto",
            Method::SetChatTitle => "setChatTitle",
            Method::SetChatDescription => "setChatDescription",
            Method::PinChatMessage => "pinChatMessage",
            Method::UnpinChatMessage => "unpinChatMessage",
            Method::UnpinAllChatMessages => "unpinAllChatMessages",
            Method::LeaveChat => "leaveChat",
            Method::GetChat => "getChat",
            Method::GetChatAdministrators => "getChatAdministrators",
            Method::GetChatMemberCount => "getChatMemberCount",
            Method::GetChatMember => "getChatMember",
            Method::SetChatStickerSet => "setChatStickerSet",
            Method::DeleteChatStickerSet => "deleteChatStickerSet",
            Method::GetForumTopicIconStickers => "getForumTopicIconStickers",
            Method::CreateForumTopic => "createForumTopic",
            Method::EditForumTopic => "editForumTopic",
            Method::CloseForumTopic => "closeForumTopic",
            Method::ReopenForumTopic => "reopenForumTopic",
            Method::DeleteForumTopic => "deleteForumTopic",
            Method::UnpinAllForumTopicMessages => "unpinAllForumTopicMessages",
            Method::EditGeneralForumTopic => "editGeneralForumTopic",
            Method::CloseGeneralForumTopic => "closeGeneralForumTopic",
            Method::ReopenGeneralForumTopic => "reopenGeneralForumTopic",
            Method::HideGeneralForumTopic => "hideGeneralForumTopic",
            Method::UnhideGeneralForumTopic => "unhideGeneralForumTopic",
            Method::AnswerCallbackQuery => "answerCallbackQuery",
            Method::SetMyCommands => "setMyCommands",
            Method::DeleteMyCommands => "deleteMyCommands",
            Method::GetMyCommands => "getMyCommands",
            Method::SetMyDescription => "setMyDescription",
            Method::GetMyDescription => "getMyDescription",
            Method::SetMyShortDescription => "setMyShortDescription",
            Method::GetMyShortDescription => "getMyShortDescription",
            Method::SetChatMenuButton => "setChatMenuButton",
            Method::GetChatMenuButton => "getChatMenuButton",
            Method::SetMyDefaultAdministratorRights => "setMyDefaultAdministratorRights",
            Method::GetMyDefaultAdministratorRights => "getMyDefaultAdministratorRights",
            Method::EditMessageText => "editMessageText",
            Method::EditMessageCaption => "editMessageCaption",
            Method::EditMessageMedia => "editMessageMedia",
            Method::EditMessageLiveLocation => "editMessageLiveLocation",
            Method::StopMessageLiveLocation => "stopMessageLiveLocation",
            Method::EditMessageReplyMarkup => "editMessageReplyMarkup",
            Method::StopPoll => "stopPoll",
            Method::DeleteMessage => "deleteMessage",
        }
    }

    /// The wire-level method string as an owned value.
    pub fn to_string(&self) -> (r: String)
        ensures
            r@ == wire_name_spec(*self),
    {
        String::from_str(self.wire_name())
    }
}

/// Every operation in the catalog has a defined, non-empty wire name: there
/// is no "unknown operation" outcome.
pub proof fn lemma_wire_name_defined(m: Method)
    ensures
        wire_name_spec(m).len() > 0,
{
    match m {
        Method::GetMe => {
            reveal_strlit("getMe");
            assert(wire_name_spec(m).len() == 5);
        },
        Method::LogOut => {
            reveal_strlit("logOut");
            assert(wire_name_spec(m).len() == 6);
        },
        Method::Close => {
            reveal_strlit("close");
            assert(wire_name_spec(m).len() == 5);
        },
        Method::SendMessage => {
            reveal_strlit("sendMessage");
            assert(wire_name_spec(m).len() == 11);
        },
        Method::ForwardMessage => {
            reveal_strlit("forwardMessage");
            assert(wire_name_spec(m).len() == 14);
        },
        Method::CopyMessage => {
            reveal_strlit("copyMessage");
            assert(wire_name_spec(m).len() == 11);
        },
        Method::SendPhoto => {
            reveal_strlit("sendPhoto");
            assert(wire_name_spec(m).len() == 9);
        },
        Method::SendAudio => {
            reveal_strlit("sendAudio");
            assert(wire_name_spec(m).len() == 9);
        },
        Method::SendDocument => {
            reveal_strlit("sendDocument");
            assert(wire_name_spec(m).len() == 12);
        },
        Method::SendVideo => {
            reveal_strlit("sendVideo");
            assert(wire_name_spec(m).len() == 9);
        },
        Method::SendAnimation => {
            reveal_strlit("sendAnimation");
            assert(wire_name_spec(m).len() == 13);
        },
        Method::SendVoice => {
            reveal_strlit("sendVoice");
            assert(wire_name_spec(m).len() == 9);
        },
        Method::SendVideoNote => {
            reveal_strlit("sendVideoNote");
            assert(wire_name_spec(m).len() == 13);
        },
        Method::SendMediaGroup => {
            reveal_strlit("sendMediaGroup");
            assert(wire_name_spec(m).len() == 14);
        },
        Method::SendLocation => {
            reveal_strlit("sendLocation");
            assert(wire_name_spec(m).len() == 12);
        },
        Method::SendVenue => {
            reveal_strlit("sendVenue");
            assert(wire_name_spec(m).len() == 9);
        },
        Method::SendContract => {
            reveal_strlit("sendContract");
            assert(wire_name_spec(m).len() == 12);
        },
        Method::SendPoll => {
            reveal_strlit("sendPoll");
            assert(wire_name_spec(m).len() == 8);
        },
        Method::SendDice => {
            reveal_strlit("sendDice");
            assert(wire_name_spec(m).len() == 8);
        },
        Method::SendChatAction => {
            reveal_strlit("sendChatAction");
            assert(wire_name_spec(m).len() == 14);
        },
        Method::GetUserProfilePhotos => {
            reveal_strlit("getUserProfilePhotos");
            assert(wire_name_spec(m).len() == 20);
        },
        Method::GetFile => {
            reveal_strlit("getFile");
            assert(wire_name_spec(m).len() == 7);
        },
        Method::BanChatMember => {
            reveal_strlit("banChatMember");
            assert(wire_name_spec(m).len() == 13);
        },
        Method::UnbanChatMember => {
            reveal_strlit("unbanChatMember");
            assert(wire_name_spec(m).len() == 15);
        },
        Method::RestrictChatMember => {
            reveal_strlit("restrictChatMember");
            assert(wire_name_spec(m).len() == 18);
        },
        Method::PromoteChatMember => {
            reveal_strlit("promoteChatMember");
            assert(wire_name_spec(m).len() == 17);
        },
        Method::SetChatAdministratorCustomTitle => {
            reveal_strlit("setChatAdministratorCustomTitle");
            assert(wire_name_spec(m).len() == 31);
        },
        Method::BanChatSenderChat => {
            reveal_strlit("banChatSenderChat");
            assert(wire_name_spec(m).len() == 17);
        },
        Method::UnbanChatSenderChat => {
            reveal_strlit("unbanChatSenderChat");
            assert(wire_name_spec(m).len() == 19);
        },
        Method::SetChatPermissions => {
            reveal_strlit("setChatPermissions");
            assert(wire_name_spec(m).len() == 18);
        },
        Method::ExportChatInviteLink => {
            reveal_strlit("exportChatInviteLink");
            assert(wire_name_spec(m).len() == 20);
        },
        Method::CreateChatInviteLink => {
            reveal_strlit("createChatInviteLink");
            assert(wire_name_spec(m).len() == 20);
        },
        Method::EditChatInviteLink => {
            reveal_strlit("editChatInviteLink");
            assert(wire_name_spec(m).len() == 18);
        },
        Method::RevokeChatInviteLink => {
            reveal_strlit("revokeChatInviteLink");
            assert(wire_name_spec(m).len() == 20);
        },
        Method::ApproveChatJoinRequest => {
            reveal_strlit("approveChatJoinRequest");
            assert(wire_name_spec(m).len() == 22);
        },
        Method::DeclineChatJoinRequest => {
            reveal_strlit("declineChatJoinRequest");
            assert(wire_name_spec(m).len() == 22);
        },
        Method::SetChatPhoto => {
            reveal_strlit("setChatPhoto");
            assert(wire_name_spec(m).len() == 12);
        },
        Method::DeleteChatPhoto => {
            reveal_strlit("deleteChatPhoto");
            assert(wire_name_spec(m).len() == 15);
        },
        Method::SetChatTitle => {
            reveal_strlit("setChatTitle");
            assert(wire_name_spec(m).len() == 12);
        },
        Method::SetChatDescription => {
            reveal_strlit("setChatDescription");
            assert(wire_name_spec(m).len() == 18);
        },
        Method::PinChatMessage => {
            reveal_strlit("pinChatMessage");
            assert(wire_name_spec(m).len() == 14);
        },
        Method::UnpinChatMessage => {
            reveal_strlit("unpinChatMessage");
            assert(wire_name_spec(m).len() == 16);
        },
        Method::UnpinAllChatMessages => {
            reveal_strlit("unpinAllChatMessages");
            assert(wire_name_spec(m).len() == 20);
        },
        Method::LeaveChat => {
            reveal_strlit("leaveChat");
            assert(wire_name_spec(m).len() == 9);
        },
        Method::GetChat => {
            reveal_strlit("getChat");
            assert(wire_name_spec(m).len() == 7);
        },
        Method::GetChatAdministrators => {
            reveal_strlit("getChatAdministrators");
            assert(wire_name_spec(m).len() == 21);
        },
        Method::GetChatMemberCount => {
            reveal_strlit("getChatMemberCount");
            assert(wire_name_spec(m).len() == 18);
        },
        Method::GetChatMember => {
            reveal_strlit("getChatMember");
            assert(wire_name_spec(m).len() == 13);
        },
        Method::SetChatStickerSet => {
            reveal_strlit("setChatStickerSet");
            assert(wire_name_spec(m).len() == 17);
        },
        Method::DeleteChatStickerSet => {
            reveal_strlit("deleteChatStickerSet");
            assert(wire_name_spec(m).len() == 20);
        },
        Method::GetForumTopicIconStickers => {
            reveal_strlit("getForumTopicIconStickers");
            assert(wire_name_spec(m).len() == 25);
        },
        Method::CreateForumTopic => {
            reveal_strlit("createForumTopic");
            assert(wire_name_spec(m).len() == 16);
        },
        Method::EditForumTopic => {
            reveal_strlit("editForumTopic");
            assert(wire_name_spec(m).len() == 14);
        },
        Method::CloseForumTopic => {
            reveal_strlit("closeForumTopic");
            assert(wire_name_spec(m).len() == 15);
        },
        Method::ReopenForumTopic => {
            reveal_strlit("reopenForumTopic");
            assert(wire_name_spec(m).len() == 16);
        },
        Method::DeleteForumTopic => {
            reveal_strlit("deleteForumTopic");
            assert(wire_name_spec(m).len() == 16);
        },
        Method::UnpinAllForumTopicMessages => {
            reveal_strlit("unpinAllForumTopicMessages");
            assert(wire_name_spec(m).len() == 26);
        },
        Method::EditGeneralForumTopic => {
            reveal_strlit("editGeneralForumTopic");
            assert(wire_name_spec(m).len() == 21);
        },
        Method::CloseGeneralForumTopic => {
            reveal_strlit("closeGeneralForumTopic");
            assert(wire_name_spec(m).len() == 22);
        },
        Method::ReopenGeneralForumTopic => {
            reveal_strlit("reopenGeneralForumTopic");
            assert(wire_name_spec(m).len() == 23);
        },
        Method::HideGeneralForumTopic => {
            reveal_strlit("hideGeneralForumTopic");
            assert(wire_name_spec(m).len() == 21);
        },
        Method::UnhideGeneralForumTopic => {
            reveal_strlit("unhideGeneralForumTopic");
            assert(wire_name_spec(m).len() == 23);
        },
        Method::AnswerCallbackQuery => {
            reveal_strlit("answerCallbackQuery");
            assert(wire_name_spec(m).len() == 19);
        },
        Method::SetMyCommands => {
            reveal_strlit("setMyCommands");
            assert(wire_name_spec(m).len() == 13);
        },
        Method::DeleteMyCommands => {
            reveal_strlit("deleteMyCommands");
            assert(wire_name_spec(m).len() == 16);
        },
        Method::GetMyCommands => {
            reveal_strlit("getMyCommands");
            assert(wire_name_spec(m).len() == 13);
        },
        Method::SetMyDescription => {
            reveal_strlit("setMyDescription");
            assert(wire_name_spec(m).len() == 16);
        },
        Method::GetMyDescription => {
            reveal_strlit("getMyDescription");
            assert(wire_name_spec(m).len() == 16);
        },
        Method::SetMyShortDescription => {
            reveal_strlit("setMyShortDescription");
            assert(wire_name_spec(m).len() == 21);
        },
        Method::GetMyShortDescription => {
            reveal_strlit("getMyShortDescription");
            assert(wire_name_spec(m).len() == 21);
        },
        Method::SetChatMenuButton => {
            reveal_strlit("setChatMenuButton");
            assert(wire_name_spec(m).len() == 17);
        },
        Method::GetChatMenuButton => {
            reveal_strlit("getChatMenuButton");
            assert(wire_name_spec(m).len() == 17);
        },
        Method::SetMyDefaultAdministratorRights => {
            reveal_strlit("setMyDefaultAdministratorRights");
            assert(wire_name_spec(m).len() == 31);
        },
        Method::GetMyDefaultAdministratorRights => {
            reveal_strlit("getMyDefaultAdministratorRights");
            assert(wire_name_spec(m).len() == 31);
        },
        Method::EditMessageText => {
            reveal_strlit("editMessageText");
            assert(wire_name_spec(m).len() == 15);
        },
        Method::EditMessageCaption => {
            reveal_strlit("editMessageCaption");
            assert(wire_name_spec(m).len() == 18);
        },
        Method::EditMessageMedia => {
            reveal_strlit("editMessageMedia");
            assert(wire_name_spec(m).len() == 16);
        },
        Method::EditMessageLiveLocation => {
            reveal_strlit("editMessageLiveLocation");
            assert(wire_name_spec(m).len() == 23);
        },
        Method::StopMessageLiveLocation => {
            reveal_strlit("stopMessageLiveLocation");
            assert(wire_name_spec(m).len() == 23);
        },
        Method::EditMessageReplyMarkup => {
            reveal_strlit("editMessageReplyMarkup");
            assert(wire_name_spec(m).len() == 22);
        },
        Method::StopPoll => {
            reveal_strlit("stopPoll");
            assert(wire_name_spec(m).len() == 8);
        },
        Method::DeleteMessage => {
            reveal_strlit("deleteMessage");
            assert(wire_name_spec(m).len() == 13);
        },
    }
}

/// Naming an operation is a pure function of the operation alone: two
/// lookups of the same operation always yield the same wire name, however
/// often they are repeated.
pub proof fn lemma_wire_name_deterministic(m: Method, r1: Seq<char>, r2: Seq<char>)
    requires
        r1 == wire_name_spec(m),
        r2 == wire_name_spec(m),
    ensures
        r1 == r2,
{
}

} // verus!
