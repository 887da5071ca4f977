use capi_channel::ChatConnect;
use capi_channel::ChatSendMessage;
use capi_channel::ChatSendWhisper;
use capi_channel::Command;
use capi_channel::Driver;
use capi_channel::DriverAction;
use capi_channel::DriverEvent;
use capi_channel::ErrorKind;
use capi_channel::Packet;
use capi_channel::Payload;
use capi_channel::RequestID;
use capi_channel::RequestIdSource;
use capi_channel::RequestPacket;
use capi_channel::ResponsePacket;
use capi_channel::ResponseStatus;
use capi_channel::ResponseType;
use capi_channel::UserID;

fn send_cmd<S>(request: RequestID, message: &str, slot: S) -> DriverEvent<S> {
    DriverEvent::Command(Command::SendRequest { request, message: message.to_owned(), slot })
}

fn write_ok<S>() -> DriverEvent<S> {
    DriverEvent::WriteResult { ok: true, detail: String::new() }
}

fn delivered<S>() -> DriverEvent<S> {
    DriverEvent::DeliverResult { ok: true }
}

#[test]
fn scenario_connect_round_trip() {
    let mut source = RequestIdSource::new();
    let packet = RequestPacket::new(ChatConnect, &mut source);
    let id = packet.request();

    let mut driver: Driver<u32> = Driver::new();

    // The caller's command produces exactly one transport write.
    match driver.process(send_cmd(id, "{\"connect\":1}", 1)) {
        DriverAction::Write { message } => assert_eq!(message, "{\"connect\":1}"),
        _ => panic!("expected a write"),
    }
    assert!(matches!(driver.process(write_ok()), DriverAction::Proceed));
    assert_eq!(driver.pending_len(), 1);

    // The correlated response resolves the caller's slot with the wire text.
    match driver.process(DriverEvent::Inbound { correlation: id, text: "resp-text".to_owned() }) {
        DriverAction::Resolve { slot, text } => {
            assert_eq!(slot, 1);
            assert_eq!(text, "resp-text");
        },
        _ => panic!("expected a resolution"),
    }
    assert!(matches!(driver.process(delivered()), DriverAction::Proceed));
    assert_eq!(driver.pending_len(), 0);

    // The caller accepts the decoded response: matching kind and id, success
    // status, so the call resolves with the response's payload.
    let payload = Payload::new();
    let response = ResponsePacket::new(
        <ChatConnect as Packet>::res_type(),
        id,
        payload.clone(),
        Some(ResponseStatus::new(0, 0)),
    );
    assert_eq!(response.command(), ResponseType::Connect);
    assert_eq!(response.request(), id);
    let accepted = response.accept(ResponseType::Connect, id).unwrap();
    assert_eq!(*accepted.payload(), payload);
}

#[test]
fn scenario_interleaved_responses_and_events() {
    let mut source = RequestIdSource::new();
    let message_req = RequestPacket::new(ChatSendMessage { message: "hi" }, &mut source);
    let whisper_req = RequestPacket::new(
        ChatSendWhisper { message: "psst", user_id: UserID::new(9) },
        &mut source,
    );
    let a = message_req.request();
    let b = whisper_req.request();
    assert_ne!(a, b);

    let mut driver: Driver<&'static str> = Driver::new();

    // Two sends back to back, without awaiting either response.
    assert!(matches!(driver.process(send_cmd(a, "msg-a", "caller-a")), DriverAction::Write { .. }));
    assert!(matches!(driver.process(write_ok()), DriverAction::Proceed));
    assert!(matches!(driver.process(send_cmd(b, "msg-b", "caller-b")), DriverAction::Write { .. }));
    assert!(matches!(driver.process(write_ok()), DriverAction::Proceed));
    assert_eq!(driver.pending_len(), 2);

    // Three unrelated events and the two responses arrive interleaved, the
    // responses in the reverse of the send order.
    let unknown1 = RequestID::new(900001);
    let unknown2 = RequestID::new(900002);
    let unknown3 = RequestID::new(900003);
    let mut emitted: Vec<String> = Vec::new();
    let mut resolved: Vec<(&'static str, String)> = Vec::new();

    let arrivals: Vec<(RequestID, &str)> = vec![
        (unknown1, "event-1"),
        (b, "response-b"),
        (unknown2, "event-2"),
        (a, "response-a"),
        (unknown3, "event-3"),
    ];
    for (correlation, text) in arrivals {
        match driver.process(DriverEvent::Inbound { correlation, text: text.to_owned() }) {
            DriverAction::Resolve { slot, text } => resolved.push((slot, text)),
            DriverAction::Emit { text } => emitted.push(text),
            _ => panic!("expected a resolution or an event"),
        }
        assert!(matches!(driver.process(delivered()), DriverAction::Proceed));
    }

    // Each caller got exactly its own response, whatever the arrival order.
    assert_eq!(
        resolved,
        vec![("caller-b", "response-b".to_owned()), ("caller-a", "response-a".to_owned())]
    );
    // Every uncorrelated message reached the event side, in arrival order.
    assert_eq!(emitted, vec!["event-1", "event-2", "event-3"]);
    assert_eq!(driver.pending_len(), 0);
}

#[test]
fn scenario_kill_while_awaiting_cancels_the_caller() {
    let (tx, mut rx) = tokio::sync::oneshot::channel::<String>();
    let mut driver: Driver<tokio::sync::oneshot::Sender<String>> = Driver::new();

    let id = RequestID::new(1);
    assert!(matches!(driver.process(send_cmd(id, "msg", tx)), DriverAction::Write { .. }));
    assert!(matches!(driver.process(write_ok()), DriverAction::Proceed));

    // Forced shutdown terminates successfully at once, without closing the
    // transport, and the pending slot is surrendered to be dropped.
    match driver.process(DriverEvent::Command(Command::ShutdownForced)) {
        DriverAction::Halt { result } => assert_eq!(result, Ok(())),
        _ => panic!("expected termination"),
    }
    let abandoned = driver.finish();
    assert_eq!(abandoned.len(), 1);
    drop(abandoned);

    // The awaiting caller observes cancellation, not a hang.
    assert!(matches!(rx.try_recv(), Err(tokio::sync::oneshot::error::TryRecvError::Closed)));
}

#[test]
fn graceful_stop_closes_the_transport_before_terminating() {
    let mut driver: Driver<u32> = Driver::new();
    assert!(matches!(
        driver.process(DriverEvent::Command(Command::ShutdownGraceful)),
        DriverAction::Close
    ));
    match driver.process(DriverEvent::CloseResult { ok: true, detail: String::new() }) {
        DriverAction::Halt { result } => assert_eq!(result, Ok(())),
        _ => panic!("expected termination"),
    }
}

#[test]
fn failed_close_is_the_terminal_error() {
    let mut driver: Driver<u32> = Driver::new();
    assert!(matches!(
        driver.process(DriverEvent::Command(Command::ShutdownGraceful)),
        DriverAction::Close
    ));
    match driver.process(DriverEvent::CloseResult {
        ok: false,
        detail: "close handshake failed".to_owned(),
    }) {
        DriverAction::Halt { result } => {
            let err = result.unwrap_err();
            assert_eq!(err.kind, ErrorKind::Socket);
            assert_eq!(err.message(), "close handshake failed");
        },
        _ => panic!("expected termination"),
    }
}

#[test]
fn duplicate_request_id_is_rejected_loudly() {
    let mut driver: Driver<u32> = Driver::new();
    let id = RequestID::new(4);
    assert!(matches!(driver.process(send_cmd(id, "first", 1)), DriverAction::Write { .. }));
    assert!(matches!(driver.process(write_ok()), DriverAction::Proceed));
    assert_eq!(driver.pending_len(), 1);

    match driver.process(send_cmd(id, "second", 2)) {
        DriverAction::Halt { result } => {
            let err = result.unwrap_err();
            assert_eq!(err.kind, ErrorKind::ChannSend);
            assert_eq!(err.message(), "duplicate request id");
        },
        _ => panic!("expected loud rejection"),
    }
    // The first tracked entry was not overwritten.
    assert_eq!(driver.pending_len(), 1);
    assert_eq!(driver.finish(), vec![1]);
}

#[test]
fn connection_level_corruption_is_fatal() {
    let mut driver: Driver<u32> = Driver::new();
    match driver.process(DriverEvent::InboundInvalid {
        kind: ErrorKind::Decode,
        detail: "bad envelope".to_owned(),
    }) {
        DriverAction::Halt { result } => {
            let err = result.unwrap_err();
            assert_eq!(err.kind, ErrorKind::Decode);
            assert_eq!(err.message(), "bad envelope");
        },
        _ => panic!("expected termination"),
    }
}

#[test]
fn failed_write_is_the_terminal_error() {
    let mut driver: Driver<u32> = Driver::new();
    let id = RequestID::new(2);
    assert!(matches!(driver.process(send_cmd(id, "msg", 5)), DriverAction::Write { .. }));
    match driver.process(DriverEvent::WriteResult { ok: false, detail: "broken pipe".to_owned() }) {
        DriverAction::Halt { result } => {
            let err = result.unwrap_err();
            assert_eq!(err.kind, ErrorKind::ChannSend);
            assert_eq!(err.message(), "broken pipe");
        },
        _ => panic!("expected termination"),
    }
    // The tracked slot is surrendered at termination.
    assert_eq!(driver.finish(), vec![5]);
}

#[test]
fn failed_delivery_is_the_terminal_error() {
    let mut driver: Driver<u32> = Driver::new();
    let id = RequestID::new(3);
    assert!(matches!(driver.process(send_cmd(id, "msg", 8)), DriverAction::Write { .. }));
    assert!(matches!(driver.process(write_ok()), DriverAction::Proceed));
    assert!(matches!(
        driver.process(DriverEvent::Inbound { correlation: id, text: "resp".to_owned() }),
        DriverAction::Resolve { .. }
    ));
    match driver.process(DriverEvent::DeliverResult { ok: false }) {
        DriverAction::Halt { result } => {
            let err = result.unwrap_err();
            assert_eq!(err.kind, ErrorKind::ChannSend);
            assert_eq!(err.message(), "failed to broadcast response (oneshot)");
        },
        _ => panic!("expected termination"),
    }
}

#[test]
fn failed_event_forward_is_the_terminal_error() {
    let mut driver: Driver<u32> = Driver::new();
    assert!(matches!(
        driver.process(DriverEvent::Inbound {
            correlation: RequestID::new(77),
            text: "event".to_owned(),
        }),
        DriverAction::Emit { .. }
    ));
    match driver.process(DriverEvent::DeliverResult { ok: false }) {
        DriverAction::Halt { result } => {
            let err = result.unwrap_err();
            assert_eq!(err.kind, ErrorKind::ChannSend);
            assert_eq!(err.message(), "failed to broadcast response (mailbox)");
        },
        _ => panic!("expected termination"),
    }
}
