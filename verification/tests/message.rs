use capi_channel::ErrorKind;
use capi_channel::EventPacket;
use capi_channel::EventType;
use capi_channel::Message;
use capi_channel::Payload;
use capi_channel::RequestID;
use capi_channel::into_string;

/// A minimal transport message for exercising the message contract: it either
/// carries text or refuses to convert.
enum FakeMessage {
    Text(String),
    Garbled,
}

impl Message for FakeMessage {
    type Error = ();

    fn from_string(string: String) -> Self {
        FakeMessage::Text(string)
    }

    fn into_string(self) -> Result<String, Self::Error> {
        match self {
            FakeMessage::Text(s) => Ok(s),
            FakeMessage::Garbled => Err(()),
        }
    }
}

#[test]
fn message_text_converts_back() {
    let m = FakeMessage::from_string("hello".to_owned());
    assert_eq!(into_string(m), Ok("hello".to_owned()));
}

#[test]
fn message_conversion_failure_is_a_socket_error() {
    let err = into_string(FakeMessage::Garbled).unwrap_err();
    assert_eq!(err.kind, ErrorKind::Socket);
    assert_eq!(err.message(), "failed to convert transport message to text");
}

#[test]
fn event_packet_getters() {
    let id = RequestID::new(11);
    let payload = Payload::new();
    let event = EventPacket::new(EventType::Message, id, payload.clone());
    assert_eq!(event.command(), EventType::Message);
    assert_eq!(event.request(), id);
    assert_eq!(*event.payload(), payload);
}
