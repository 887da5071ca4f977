use capi_channel::ChannelError;
use capi_channel::ErrorKind;
use capi_channel::ErrorSource;
use capi_channel::Payload;
use capi_channel::RequestID;
use capi_channel::ResponsePacket;
use capi_channel::ResponseStatus;
use capi_channel::ResponseType;

#[test]
fn status_success_pair() {
    let st = ResponseStatus::new(0, 0);
    assert_eq!(st.area(), 0);
    assert_eq!(st.code(), 0);
    assert_eq!(st.as_str(), "Ok");
}

#[test]
fn status_not_connected() {
    assert_eq!(ResponseStatus::new(8, 1).as_str(), "Not Connected to chat");
}

#[test]
fn status_bad_request() {
    assert_eq!(ResponseStatus::new(8, 2).as_str(), "Bad request");
}

#[test]
fn status_timed_out() {
    assert_eq!(ResponseStatus::new(6, 5).as_str(), "Reqeust timed out");
}

#[test]
fn status_rate_limit() {
    assert_eq!(ResponseStatus::new(6, 8).as_str(), "Hit rate limit");
}

#[test]
fn status_unknown_pair() {
    assert_eq!(ResponseStatus::new(3, 9).as_str(), "Unknown");
    assert_eq!(ResponseStatus::new(255, 255).as_str(), "Unknown");
}

#[test]
fn accept_without_status_succeeds() {
    let id = RequestID::new(7);
    let resp = ResponsePacket::new(ResponseType::Connect, id, Payload::new(), None);
    let out = resp.clone().accept(ResponseType::Connect, id);
    assert_eq!(out, Ok(resp));
}

#[test]
fn accept_with_success_status_succeeds() {
    let id = RequestID::new(7);
    let status = Some(ResponseStatus::new(0, 0));
    let resp = ResponsePacket::new(ResponseType::Connect, id, Payload::new(), status);
    let out = resp.clone().accept(ResponseType::Connect, id);
    assert_eq!(out, Ok(resp));
}

#[test]
fn accept_with_failure_status_fails() {
    let id = RequestID::new(9);
    let status = ResponseStatus::new(8, 1);
    let resp = ResponsePacket::new(ResponseType::SendMessage, id, Payload::new(), Some(status));
    let out = resp.accept(ResponseType::SendMessage, id);
    let err = out.unwrap_err();
    assert_eq!(err.kind, ErrorKind::Status);
    assert_eq!(err.source, ErrorSource::Status(status));
    assert_eq!(err.message(), "Not Connected to chat");
}

#[test]
fn accept_with_unknown_status_fails() {
    let id = RequestID::new(9);
    let status = ResponseStatus::new(3, 9);
    let resp = ResponsePacket::new(ResponseType::SendWhisper, id, Payload::new(), Some(status));
    let err = resp.accept(ResponseType::SendWhisper, id).unwrap_err();
    assert_eq!(err.kind, ErrorKind::Status);
    assert_eq!(err.message(), "Unknown");
}

#[test]
fn error_kind_labels() {
    assert_eq!(ErrorKind::Socket.as_str(), "socket error");
    assert_eq!(ErrorKind::Encode.as_str(), "encode error");
    assert_eq!(ErrorKind::Decode.as_str(), "decode error");
    assert_eq!(ErrorKind::Status.as_str(), "status error");
    assert_eq!(ErrorKind::ChannRecv.as_str(), "recv error");
    assert_eq!(ErrorKind::ChannSend.as_str(), "send error");
    assert_eq!(ErrorKind::JoinError.as_str(), "join error");
}

#[test]
fn error_constructors_carry_their_text() {
    let wrapped = ChannelError::new(ErrorKind::Socket, "connection reset".to_owned());
    assert_eq!(wrapped.kind, ErrorKind::Socket);
    assert_eq!(wrapped.message(), "connection reset");

    let plain = ChannelError::msg(ErrorKind::ChannSend, "queue closed".to_owned());
    assert_eq!(plain.kind, ErrorKind::ChannSend);
    assert_eq!(plain.message(), "queue closed");

    let status = ChannelError::status(ResponseStatus::new(6, 8));
    assert_eq!(status.kind, ErrorKind::Status);
    assert_eq!(status.message(), "Hit rate limit");
}
