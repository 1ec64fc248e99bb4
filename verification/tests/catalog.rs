//! The method catalog and the attachment classifier.

use tg_flows::{InputFile, Method};

#[test]
fn test_display() {
    assert_eq!(
        String::from("sendMessage"),
        Method::SendMessage.to_string()
    );
    assert_eq!(
        String::from("editMessageMedia"),
        Method::EditMessageMedia.to_string(),
    );
    assert_eq!(
        String::from("closeGeneralForumTopic"),
        Method::CloseGeneralForumTopic.to_string(),
    );
}

#[test]
fn wire_name_known_operations() {
    assert_eq!(Method::GetMe.wire_name(), "getMe");
    assert_eq!(Method::LogOut.wire_name(), "logOut");
    assert_eq!(Method::Close.wire_name(), "close");
    assert_eq!(Method::SendMessage.wire_name(), "sendMessage");
    assert_eq!(Method::GetChatMember.wire_name(), "getChatMember");
    assert_eq!(
        Method::SetMyDefaultAdministratorRights.wire_name(),
        "setMyDefaultAdministratorRights"
    );
    assert_eq!(Method::UnpinAllChatMessages.wire_name(), "unpinAllChatMessages");
}

#[test]
fn wire_name_defined_for_whole_catalog_sample() {
    let all = vec![
        Method::GetMe,
        Method::SendMessage,
        Method::CopyMessage,
        Method::SendPoll,
        Method::BanChatSenderChat,
        Method::ExportChatInviteLink,
        Method::GetForumTopicIconStickers,
        Method::HideGeneralForumTopic,
        Method::AnswerCallbackQuery,
        Method::EditMessageLiveLocation,
        Method::StopPoll,
        Method::DeleteMessage,
    ];
    for m in all {
        assert!(!m.wire_name().is_empty());
    }
}

#[test]
fn wire_name_repeated_calls_agree() {
    let first = Method::SendDice.wire_name();
    let second = Method::SendDice.wire_name();
    assert_eq!(first, second);
    assert_eq!(Method::GetChat.to_string(), Method::GetChat.to_string());
}

#[test]
fn needs_attach_classifies_variants() {
    let url = InputFile::Url(String::from("https://example.org/cat.png"));
    let file_id = InputFile::FileId(String::from("AgACAgIAAxk"));
    let memory = InputFile::Memory(vec![1u8, 2, 3]);
    assert!(!url.needs_attach());
    assert!(!file_id.needs_attach());
    assert!(memory.needs_attach());
}

#[test]
fn needs_attach_repeated_calls_agree() {
    let memory = InputFile::Memory(Vec::new());
    assert_eq!(memory.needs_attach(), memory.needs_attach());
    let url = InputFile::Url(String::new());
    assert_eq!(url.needs_attach(), url.needs_attach());
}
