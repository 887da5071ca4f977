//! The catalogue of request kinds: each packet type names its wire request
//! kind, the response kind a reply must declare, an optional event kind, and
//! the payload it serializes to.
use vstd::prelude::*;

use crate::event::EventType;
use crate::payload::Payload;
use crate::payload::PayloadValue;
use crate::payload::ValueModel;
use crate::request::RequestType;
use crate::response::ResponseType;
use crate::sealed::Sealed;
use crate::user::UserID;

verus! {

/// A typed request: the static mapping from this packet kind to its wire
/// identifiers.
pub trait Packet: Sealed {
    /// The wire kind its request envelope is tagged with.
    spec fn spec_req_type() -> RequestType;

    /// The wire kind its response envelope must declare.
    spec fn spec_res_type() -> ResponseType;

    /// The event kind associated with this request kind, if any.
    spec fn spec_evt_type() -> Option<EventType>;

    /// The wire kind its request envelope is tagged with.
    fn req_type() -> (r: RequestType)
        ensures
            r == Self::spec_req_type(),
    ;

    /// The wire kind its response envelope must declare.
    fn res_type() -> (r: ResponseType)
        ensures
            r == Self::spec_res_type(),
    ;

    /// The event kind associated with this request kind, if any.
    fn evt_type() -> (r: Option<EventType>)
        ensures
            r == Self::spec_evt_type(),
    ;
}

/// How a typed request serializes itself into a payload.
pub trait IntoPayload: Sealed {
    /// The entries of the payload this packet serializes to.
    spec fn payload_model(&self) -> Seq<(Seq<char>, ValueModel)>;

    /// Build the payload for this packet.
    fn into_payload(&self) -> (r: Payload)
        ensures
            r.model() == self.payload_model(),
            r.wf(),
    ;
}

/// Authenticate with an API key.
#[derive(Clone, Copy, Debug, Hash, PartialEq, Eq)]
pub struct Authenticate<'a> {
    pub api_key: &'a str,
}

impl Sealed for Authenticate<'_> {

}

impl Packet for Authenticate<'_> {
    open spec fn spec_req_type() -> RequestType {
        RequestType::Authenticate
    }

    open spec fn spec_res_type() -> ResponseType {
        ResponseType::Authenticate
    }

    open spec fn spec_evt_type() -> Option<EventType> {
        Option::None
    }

    fn req_type() -> RequestType {
        RequestType::Authenticate
    }

    fn res_type() -> ResponseType {
        ResponseType::Authenticate
    }

    fn evt_type() -> Option<EventType> {
        Option::None
    }
}

impl IntoPayload for Authenticate<'_> {
    open spec fn payload_model(&self) -> Seq<(Seq<char>, ValueModel)> {
        seq![("api_key"@, ValueModel::Text(self.api_key@))]
    }

    fn into_payload(&self) -> (r: Payload) {
        let r = Payload::from_kv("api_key".to_owned(), PayloadValue::Text(self.api_key.to_owned()));
        proof {
            assert(r.model() =~~= self.payload_model());
        }
        r
    }
}

/// Connect the bot to the gateway and chat channel.
#[derive(Clone, Copy, Debug, Hash, PartialEq, Eq)]
pub struct ChatConnect;

impl Sealed for ChatConnect {

}

impl Packet for ChatConnect {
    open spec fn spec_req_type() -> RequestType {
        RequestType::Connect
    }

    open spec fn spec_res_type() -> ResponseType {
        ResponseType::Connect
    }

    open spec fn spec_evt_type() -> Option<EventType> {
        Option::Some(EventType::Connect)
    }

    fn req_type() -> RequestType {
        RequestType::Connect
    }

    fn res_type() -> ResponseType {
        ResponseType::Connect
    }

    fn evt_type() -> Option<EventType> {
        Option::Some(EventType::Connect)
    }
}

impl IntoPayload for ChatConnect {
    open spec fn payload_model(&self) -> Seq<(Seq<char>, ValueModel)> {
        Seq::empty()
    }

    fn into_payload(&self) -> (r: Payload) {
        Payload::new()
    }
}

/// Disconnect the bot from the gateway and chat channel.
#[derive(Clone, Copy, Debug, Hash, PartialEq, Eq)]
pub struct ChatDisconnect;

impl Sealed for ChatDisconnect {

}

impl Packet for ChatDisconnect {
    open spec fn spec_req_type() -> RequestType {
        RequestType::Disconnect
    }

    open spec fn spec_res_type() -> ResponseType {
        ResponseType::Disconnect
    }

    open spec fn spec_evt_type() -> Option<EventType> {
        Option::Some(EventType::Disconnect)
    }

    fn req_type() -> RequestType {
        RequestType::Disconnect
    }

    fn res_type() -> ResponseType {
        ResponseType::Disconnect
    }

    fn evt_type() -> Option<EventType> {
        Option::Some(EventType::Disconnect)
    }
}

impl IntoPayload for ChatDisconnect {
    open spec fn payload_model(&self) -> Seq<(Seq<char>, ValueModel)> {
        Seq::empty()
    }

    fn into_payload(&self) -> (r: Payload) {
        Payload::new()
    }
}

/// Send a chat message to the channel.
#[derive(Clone, Copy, Debug, Hash, PartialEq, Eq)]
pub struct ChatSendMessage<'a> {
    pub message: &'a str,
}

impl Sealed for ChatSendMessage<'_> {

}

impl Packet for ChatSendMessage<'_> {
    open spec fn spec_req_type() -> RequestType {
        RequestType::SendMessage
    }

    open spec fn spec_res_type() -> ResponseType {
        ResponseType::SendMessage
    }

    open spec fn spec_evt_type() -> Option<EventType> {
        Option::None
    }

    fn req_type() -> RequestType {
        RequestType::SendMessage
    }

    fn res_type() -> ResponseType {
        ResponseType::SendMessage
    }

    fn evt_type() -> Option<EventType> {
        Option::None
    }
}

impl IntoPayload for ChatSendMessage<'_> {
    open spec fn payload_model(&self) -> Seq<(Seq<char>, ValueModel)> {
        seq![("message"@, ValueModel::Text(self.message@))]
    }

    fn into_payload(&self) -> (r: Payload) {
        let r = Payload::from_kv("message".to_owned(), PayloadValue::Text(self.message.to_owned()));
        proof {
            assert(r.model() =~~= self.payload_model());
        }
        r
    }
}

/// Send a chat message to a single user in the channel.
#[derive(Clone, Copy, Debug, Hash, PartialEq, Eq)]
pub struct ChatSendWhisper<'a> {
    pub message: &'a str,
    pub user_id: UserID,
}

impl Sealed for ChatSendWhisper<'_> {

}

impl Packet for ChatSendWhisper<'_> {
    open spec fn spec_req_type() -> RequestType {
        RequestType::SendWhisper
    }

    open spec fn spec_res_type() -> ResponseType {
        ResponseType::SendWhisper
    }

    open spec fn spec_evt_type() -> Option<EventType> {
        Option::None
    }

    fn req_type() -> RequestType {
        RequestType::SendWhisper
    }

    fn res_type() -> ResponseType {
        ResponseType::SendWhisper
    }

    fn evt_type() -> Option<EventType> {
        Option::None
    }
}

impl IntoPayload for ChatSendWhisper<'_> {
    open spec fn payload_model(&self) -> Seq<(Seq<char>, ValueModel)> {
        seq![
            ("message"@, ValueModel::Text(self.message@)),
            ("user_id"@, ValueModel::Number(self.user_id.spec_get())),
        ]
    }

    fn into_payload(&self) -> (r: Payload) {
        let mut r = Payload::new();
        r.insert("message".to_owned(), PayloadValue::Text(self.message.to_owned()));
        r.insert("user_id".to_owned(), PayloadValue::Number(self.user_id.get()));
        proof {
            reveal_strlit("message");
            reveal_strlit("user_id");
            assert("message"@[0] != "user_id"@[0]);
            assert(r.model() =~~= self.payload_model());
        }
        r
    }
}

/// Ban a user from the channel.
#[derive(Clone, Copy, Debug, Hash, PartialEq, Eq)]
pub struct ChatBanUser {
    pub user_id: UserID,
}

impl Sealed for ChatBanUser {

}

impl Packet for ChatBanUser {
    open spec fn spec_req_type() -> RequestType {
        RequestType::BanUser
    }

    open spec fn spec_res_type() -> ResponseType {
        ResponseType::BanUser
    }

    open spec fn spec_evt_type() -> Option<EventType> {
        Option::None
    }

    fn req_type() -> RequestType {
        RequestType::BanUser
    }

    fn res_type() -> ResponseType {
        ResponseType::BanUser
    }

    fn evt_type() -> Option<EventType> {
        Option::None
    }
}

impl IntoPayload for ChatBanUser {
    open spec fn payload_model(&self) -> Seq<(Seq<char>, ValueModel)> {
        seq![("user_id"@, ValueModel::Number(self.user_id.spec_get()))]
    }

    fn into_payload(&self) -> (r: Payload) {
        let r = Payload::from_kv("user_id".to_owned(), PayloadValue::Number(self.user_id.get()));
        proof {
            assert(r.model() =~~= self.payload_model());
        }
        r
    }
}

/// Lift a ban by account name.
#[derive(Clone, Copy, Debug, Hash, PartialEq, Eq)]
pub struct ChatUnbanUser<'a> {
    pub toon_name: &'a str,
}

impl Sealed for ChatUnbanUser<'_> {

}

impl Packet for ChatUnbanUser<'_> {
    open spec fn spec_req_type() -> RequestType {
        RequestType::UnbanUser
    }

    open spec fn spec_res_type() -> ResponseType {
        ResponseType::UnbanUser
    }

    open spec fn spec_evt_type() -> Option<EventType> {
        Option::None
    }

    fn req_type() -> RequestType {
        RequestType::UnbanUser
    }

    fn res_type() -> ResponseType {
        ResponseType::UnbanUser
    }

    fn evt_type() -> Option<EventType> {
        Option::None
    }
}

impl IntoPayload for ChatUnbanUser<'_> {
    open spec fn payload_model(&self) -> Seq<(Seq<char>, ValueModel)> {
        seq![("toon_name"@, ValueModel::Text(self.toon_name@))]
    }

    fn into_payload(&self) -> (r: Payload) {
        let r = Payload::from_kv(
            "toon_name".to_owned(),
            PayloadValue::Text(self.toon_name.to_owned()),
        );
        proof {
            assert(r.model() =~~= self.payload_model());
        }
        r
    }
}

/// Send an emote on behalf of the bot.
#[derive(Clone, Copy, Debug, Hash, PartialEq, Eq)]
pub struct ChatSendEmote<'a> {
    pub message: &'a str,
}

impl Sealed for ChatSendEmote<'_> {

}

impl Packet for ChatSendEmote<'_> {
    open spec fn spec_req_type() -> RequestType {
        RequestType::SendEmote
    }

    open spec fn spec_res_type() -> ResponseType {
        ResponseType::SendEmote
    }

    open spec fn spec_evt_type() -> Option<EventType> {
        Option::None
    }

    fn req_type() -> RequestType {
        RequestType::SendEmote
    }

    fn res_type() -> ResponseType {
        ResponseType::SendEmote
    }

    fn evt_type() -> Option<EventType> {
        Option::None
    }
}

impl IntoPayload for ChatSendEmote<'_> {
    open spec fn payload_model(&self) -> Seq<(Seq<char>, ValueModel)> {
        seq![("message"@, ValueModel::Text(self.message@))]
    }

    fn into_payload(&self) -> (r: Payload) {
        let r = Payload::from_kv("message".to_owned(), PayloadValue::Text(self.message.to_owned()));
        proof {
            assert(r.model() =~~= self.payload_model());
        }
        r
    }
}

/// Kick a user from the channel.
#[derive(Clone, Copy, Debug, Hash, PartialEq, Eq)]
pub struct ChatKickUser {
    pub user_id: UserID,
}

impl Sealed for ChatKickUser {

}

impl Packet for ChatKickUser {
    open spec fn spec_req_type() -> RequestType {
        RequestType::KickUser
    }

    open spec fn spec_res_type() -> ResponseType {
        ResponseType::KickUser
    }

    open spec fn spec_evt_type() -> Option<EventType> {
        Option::None
    }

    fn req_type() -> RequestType {
        RequestType::KickUser
    }

    fn res_type() -> ResponseType {
        ResponseType::KickUser
    }

    fn evt_type() -> Option<EventType> {
        Option::None
    }
}

impl IntoPayload for ChatKickUser {
    open spec fn payload_model(&self) -> Seq<(Seq<char>, ValueModel)> {
        seq![("user_id"@, ValueModel::Number(self.user_id.spec_get()))]
    }

    fn into_payload(&self) -> (r: Payload) {
        let r = Payload::from_kv("user_id".to_owned(), PayloadValue::Number(self.user_id.get()));
        proof {
            assert(r.model() =~~= self.payload_model());
        }
        r
    }
}

/// Hand the moderator role to a member of the channel.
#[derive(Clone, Copy, Debug, Hash, PartialEq, Eq)]
pub struct ChatSetModerator {
    pub user_id: UserID,
}

impl Sealed for ChatSetModerator {

}

impl Packet for ChatSetModerator {
    open spec fn spec_req_type() -> RequestType {
        RequestType::SetModerator
    }

    open spec fn spec_res_type() -> ResponseType {
        ResponseType::SetModerator
    }

    open spec fn spec_evt_type() -> Option<EventType> {
        Option::None
    }

    fn req_type() -> RequestType {
        RequestType::SetModerator
    }

    fn res_type() -> ResponseType {
        ResponseType::SetModerator
    }

    fn evt_type() -> Option<EventType> {
        Option::None
    }
}

impl IntoPayload for ChatSetModerator {
    open spec fn payload_model(&self) -> Seq<(Seq<char>, ValueModel)> {
        seq![("user_id"@, ValueModel::Number(self.user_id.spec_get()))]
    }

    fn into_payload(&self) -> (r: Payload) {
        let r = Payload::from_kv("user_id".to_owned(), PayloadValue::Number(self.user_id.get()));
        proof {
            assert(r.model() =~~= self.payload_model());
        }
        r
    }
}

} // verus!
