use capi_channel::Authenticate;
use capi_channel::ChatBanUser;
use capi_channel::ChatConnect;
use capi_channel::ChatDisconnect;
use capi_channel::ChatKickUser;
use capi_channel::ChatSendEmote;
use capi_channel::ChatSendMessage;
use capi_channel::ChatSendWhisper;
use capi_channel::ChatSetModerator;
use capi_channel::ChatUnbanUser;
use capi_channel::EventType;
use capi_channel::IntoPayload;
use capi_channel::Packet;
use capi_channel::Payload;
use capi_channel::PayloadValue;
use capi_channel::RequestType;
use capi_channel::ResponseType;
use capi_channel::UserID;

#[test]
fn empty_payload_has_no_entries() {
    let p = Payload::new();
    assert!(p.entries().is_empty());
    assert_eq!(p, Payload::default());
}

#[test]
fn from_kv_holds_one_entry() {
    let p = Payload::from_kv("message".to_owned(), PayloadValue::Text("hello".to_owned()));
    assert_eq!(p.entries().len(), 1);
    assert_eq!(p.entries()[0].0, "message");
    assert_eq!(p.entries()[0].1, PayloadValue::Text("hello".to_owned()));
}

#[test]
fn insert_new_key_appends_in_order() {
    let mut p = Payload::new();
    p.insert("a".to_owned(), PayloadValue::Number(1));
    p.insert("b".to_owned(), PayloadValue::Number(2));
    assert_eq!(p.entries().len(), 2);
    assert_eq!(p.entries()[0].0, "a");
    assert_eq!(p.entries()[1].0, "b");
}

#[test]
fn insert_existing_key_replaces_in_place() {
    let mut p = Payload::from_kv("k".to_owned(), PayloadValue::Text("old".to_owned()));
    p.insert("k".to_owned(), PayloadValue::Text("new".to_owned()));
    assert_eq!(
        p,
        Payload::from_kv("k".to_owned(), PayloadValue::Text("new".to_owned()))
    );
}

#[test]
fn catalogue_wire_kinds() {
    assert_eq!(<Authenticate as Packet>::req_type(), RequestType::Authenticate);
    assert_eq!(<Authenticate as Packet>::res_type(), ResponseType::Authenticate);
    assert_eq!(<Authenticate as Packet>::evt_type(), None);

    assert_eq!(<ChatConnect as Packet>::req_type(), RequestType::Connect);
    assert_eq!(<ChatConnect as Packet>::res_type(), ResponseType::Connect);
    assert_eq!(<ChatConnect as Packet>::evt_type(), Some(EventType::Connect));

    assert_eq!(<ChatDisconnect as Packet>::req_type(), RequestType::Disconnect);
    assert_eq!(<ChatDisconnect as Packet>::res_type(), ResponseType::Disconnect);
    assert_eq!(<ChatDisconnect as Packet>::evt_type(), Some(EventType::Disconnect));

    assert_eq!(<ChatSendMessage as Packet>::req_type(), RequestType::SendMessage);
    assert_eq!(<ChatSendMessage as Packet>::res_type(), ResponseType::SendMessage);
    assert_eq!(<ChatSendMessage as Packet>::evt_type(), None);

    assert_eq!(<ChatSendWhisper as Packet>::req_type(), RequestType::SendWhisper);
    assert_eq!(<ChatSendWhisper as Packet>::res_type(), ResponseType::SendWhisper);

    assert_eq!(<ChatBanUser as Packet>::req_type(), RequestType::BanUser);
    assert_eq!(<ChatBanUser as Packet>::res_type(), ResponseType::BanUser);

    assert_eq!(<ChatUnbanUser as Packet>::req_type(), RequestType::UnbanUser);
    assert_eq!(<ChatUnbanUser as Packet>::res_type(), ResponseType::UnbanUser);

    assert_eq!(<ChatSendEmote as Packet>::req_type(), RequestType::SendEmote);
    assert_eq!(<ChatSendEmote as Packet>::res_type(), ResponseType::SendEmote);

    assert_eq!(<ChatKickUser as Packet>::req_type(), RequestType::KickUser);
    assert_eq!(<ChatKickUser as Packet>::res_type(), ResponseType::KickUser);

    assert_eq!(<ChatSetModerator as Packet>::req_type(), RequestType::SetModerator);
    assert_eq!(<ChatSetModerator as Packet>::res_type(), ResponseType::SetModerator);
}

#[test]
fn authenticate_payload_carries_api_key() {
    let p = Authenticate { api_key: "key-1234" }.into_payload();
    let expected = Payload::from_kv(
        "api_key".to_owned(),
        PayloadValue::Text("key-1234".to_owned()),
    );
    assert_eq!(p, expected);
}

#[test]
fn connect_and_disconnect_payloads_are_empty() {
    assert_eq!(ChatConnect.into_payload(), Payload::new());
    assert_eq!(ChatDisconnect.into_payload(), Payload::new());
}

#[test]
fn send_message_payload() {
    let p = ChatSendMessage { message: "hi all" }.into_payload();
    let expected = Payload::from_kv("message".to_owned(), PayloadValue::Text("hi all".to_owned()));
    assert_eq!(p, expected);
}

#[test]
fn send_whisper_payload_holds_message_and_user() {
    let p = ChatSendWhisper { message: "psst", user_id: UserID::new(42) }.into_payload();
    let mut expected = Payload::new();
    expected.insert("message".to_owned(), PayloadValue::Text("psst".to_owned()));
    expected.insert("user_id".to_owned(), PayloadValue::Number(42));
    assert_eq!(p, expected);
}

#[test]
fn moderation_payloads_hold_the_user() {
    let expected = Payload::from_kv("user_id".to_owned(), PayloadValue::Number(7));
    assert_eq!(ChatBanUser { user_id: UserID::new(7) }.into_payload(), expected);
    assert_eq!(ChatKickUser { user_id: UserID::new(7) }.into_payload(), expected);
    assert_eq!(ChatSetModerator { user_id: UserID::new(7) }.into_payload(), expected);
}

#[test]
fn unban_payload_holds_the_name() {
    let p = ChatUnbanUser { toon_name: "somebody" }.into_payload();
    let expected = Payload::from_kv("toon_name".to_owned(), PayloadValue::Text("somebody".to_owned()));
    assert_eq!(p, expected);
}

#[test]
fn emote_payload_holds_the_message() {
    let p = ChatSendEmote { message: "waves" }.into_payload();
    let expected = Payload::from_kv("message".to_owned(), PayloadValue::Text("waves".to_owned()));
    assert_eq!(p, expected);
}

#[test]
fn user_id_round_trip() {
    let id = UserID::new(123456789);
    assert_eq!(id.get(), 123456789);
}
