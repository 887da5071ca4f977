use capi_channel::ChatConnect;
use capi_channel::RequestID;
use capi_channel::RequestIdSource;
use capi_channel::RequestPacket;
use capi_channel::RequestType;

#[test]
fn ids_start_at_one_and_are_never_zero() {
    let mut source = RequestIdSource::new();
    let first = RequestID::next(&mut source);
    assert_eq!(first, RequestID::new(1));
    assert_ne!(first, RequestID::new(0));
}

#[test]
fn many_ids_are_pairwise_distinct() {
    let mut source = RequestIdSource::new();
    let mut seen: Vec<RequestID> = Vec::new();
    for _ in 0..64 {
        let id = RequestID::next(&mut source);
        assert!(!seen.contains(&id));
        seen.push(id);
    }
}

#[test]
fn packets_built_back_to_back_carry_distinct_ids() {
    let mut source = RequestIdSource::new();
    let a = RequestPacket::new(ChatConnect, &mut source);
    let b = RequestPacket::new(ChatConnect, &mut source);
    assert_ne!(a.request(), b.request());
    assert_eq!(a.command(), RequestType::Connect);
    assert_eq!(b.command(), RequestType::Connect);
}
