//! Client-side request/response multiplexing for a single message-oriented
//! duplex connection.
//!
//! One driver task owns the connection. Callers submit typed requests through
//! a command queue; inbound traffic is correlated back to the matching caller
//! by request id, and everything uncorrelated is surfaced as an event stream.
mod driver;
mod error;
mod event;
mod mailbox;
mod message;
mod packet;
mod payload;
mod request;
mod response;
mod sealed;
mod user;

pub use driver::ActionModel;
pub use driver::Command;
pub use driver::DeliverTarget;
pub use driver::Driver;
pub use driver::DriverAction;
pub use driver::DriverEvent;
pub use driver::DriverModel;
pub use driver::EventModel;
pub use driver::Phase;
pub use driver::accepts;
pub use driver::deliver_failed_text;
pub use driver::duplicate_id_text;
pub use driver::lemma_correlation_correctness;
pub use driver::lemma_duplicate_tracking_rejected;
pub use driver::lemma_forced_shutdown;
pub use driver::lemma_graceful_shutdown;
pub use driver::lemma_tracked_before_write;
pub use driver::lemma_uncorrelated_routing;
pub use driver::lemma_uncorrelated_run_keeps_order;
pub use driver::run_inbound;
pub use driver::step_spec;
pub use error::ChannelError;
pub use error::ErrorKind;
pub use error::ErrorModel;
pub use error::ErrorSource;
pub use error::SourceModel;
pub use event::EventPacket;
pub use event::EventType;
pub use mailbox::MailBox;
pub use mailbox::ids_distinct;
pub use mailbox::lemma_index_of_unique;
pub use mailbox::lemma_remove_keeps_distinct;
pub use mailbox::lemma_remove_preserves_others;
pub use mailbox::seq_contains_id;
pub use mailbox::seq_index_of;
pub use mailbox::seq_remove_id;
pub use mailbox::seq_slot_of;
pub use message::Message;
pub use message::into_string;
pub use packet::Authenticate;
pub use packet::ChatBanUser;
pub use packet::ChatConnect;
pub use packet::ChatDisconnect;
pub use packet::ChatKickUser;
pub use packet::ChatSendEmote;
pub use packet::ChatSendMessage;
pub use packet::ChatSendWhisper;
pub use packet::ChatSetModerator;
pub use packet::ChatUnbanUser;
pub use packet::IntoPayload;
pub use packet::Packet;
pub use payload::Payload;
pub use payload::PayloadValue;
pub use payload::ValueModel;
pub use request::RequestID;
pub use request::RequestIdSource;
pub use request::RequestPacket;
pub use request::RequestType;
pub use request::allocated_ids;
pub use request::lemma_allocated_ids_distinct;
pub use response::ResponsePacket;
pub use response::ResponseStatus;
pub use response::ResponseType;
pub use response::status_ok;
pub use user::UserID;
