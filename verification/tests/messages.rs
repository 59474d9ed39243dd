use iggy_py::error::ErrorKind;
use iggy_py::message::Message;
use iggy_py::receive_message::{decode_all, decode_receive, MessageState, PolledMessage};
use iggy_py::send_message::{encode_send, SendMessage};

fn record(offset: u64, payload: &[u8]) -> PolledMessage {
    PolledMessage {
        offset,
        state: MessageState::Available,
        timestamp: 1_694_968_446_131_680,
        id: 0x0123_4567_89ab_cdef_0123_4567_89ab_cdef,
        checksum: 0xdead_beef,
        length: payload.len() as u64,
        payload: payload.to_vec(),
    }
}

#[test]
fn record_from_text_holds_the_bytes_of_the_text() {
    let m = Message::from_str("hello").unwrap();
    assert_eq!(m.id, 0);
    assert_eq!(m.length, 5);
    assert_eq!(m.payload, b"hello".to_vec());
}

#[test]
fn record_length_counts_bytes() {
    let m = Message::from_str("zażółć").unwrap();
    assert_eq!(m.length, 10);
    assert_eq!(m.payload, "zażółć".as_bytes().to_vec());
}

#[test]
fn empty_text_is_an_invalid_payload() {
    let e = Message::from_str("").unwrap_err();
    assert_eq!(e.kind, ErrorKind::InvalidPayload);
    assert_eq!(e.message, "EmptyMessagePayload");
}

#[test]
fn record_from_bytes_holds_the_bytes() {
    let bytes = vec![0u8, 159, 146, 150, 255];
    let m = Message::from_bytes(bytes.clone()).unwrap();
    assert_eq!(m.id, 0);
    assert_eq!(m.length, 5);
    assert_eq!(m.payload, bytes);
}

#[test]
fn empty_bytes_are_an_invalid_payload() {
    let e = Message::from_bytes(Vec::new()).unwrap_err();
    assert_eq!(e.kind, ErrorKind::InvalidPayload);
    assert_eq!(e.message, "EmptyMessagePayload");
}

#[test]
fn send_message_from_text_has_no_key() {
    let m = SendMessage::new("hello".to_string()).unwrap();
    assert_eq!(m.payload(), &b"hello".to_vec());
    assert!(m.key().is_none());
    assert_eq!(m.inner.length, 5);
    let copy = m.clone();
    assert_eq!(copy.payload(), m.payload());
    assert_eq!(copy.inner.id, m.inner.id);
    assert!(copy.key.is_none());
}

#[test]
fn send_message_from_empty_text_fails_at_construction() {
    let e = SendMessage::new(String::new()).unwrap_err();
    assert_eq!(e.kind, ErrorKind::InvalidPayload);
}

#[test]
fn encode_send_keeps_payload_and_key() {
    let m = encode_send(vec![1, 2, 3], Some(vec![9, 8])).unwrap();
    assert_eq!(m.payload(), &vec![1u8, 2, 3]);
    assert_eq!(m.key(), &Some(vec![9u8, 8]));
    assert_eq!(m.inner.length, 3);
    assert_eq!(m.inner.id, 0);
    let no_key = encode_send(vec![7], None).unwrap();
    assert!(no_key.key().is_none());
    assert_eq!(m.clone().key, Some(vec![9u8, 8]));
}

#[test]
fn encode_send_does_not_truncate_a_large_payload() {
    let payload: Vec<u8> = (0..100_000u32).map(|i| (i % 251) as u8).collect();
    let m = encode_send(payload.clone(), None).unwrap();
    assert_eq!(m.inner.length, 100_000);
    assert_eq!(m.payload(), &payload);
}

#[test]
fn encode_send_refuses_an_empty_payload() {
    let e = encode_send(Vec::new(), Some(vec![1])).unwrap_err();
    assert_eq!(e.kind, ErrorKind::InvalidPayload);
}

#[test]
fn text_and_bytes_make_the_same_record() {
    let a = SendMessage::new("events".to_string()).unwrap();
    let b = encode_send(b"events".to_vec(), None).unwrap();
    assert_eq!(a.inner.id, b.inner.id);
    assert_eq!(a.inner.length, b.inner.length);
    assert_eq!(a.inner.payload, b.inner.payload);
}

#[test]
fn decode_receive_keeps_every_field() {
    let m = decode_receive(PolledMessage {
        offset: u64::MAX,
        state: MessageState::Poisoned,
        timestamp: u64::MAX - 1,
        id: u128::MAX,
        checksum: u32::MAX,
        length: u64::MAX - 2,
        payload: vec![1, 2, 3],
    });
    assert_eq!(m.offset(), u64::MAX);
    assert_eq!(m.state(), MessageState::Poisoned);
    assert_eq!(m.timestamp(), u64::MAX - 1);
    assert_eq!(m.id(), u128::MAX);
    assert_eq!(m.checksum(), u32::MAX);
    assert_eq!(m.length(), u64::MAX - 2);
    assert_eq!(m.payload(), &vec![1u8, 2, 3]);
}

#[test]
fn decode_receive_keeps_each_state() {
    for state in [
        MessageState::Available,
        MessageState::Unavailable,
        MessageState::Poisoned,
        MessageState::MarkedForDeletion,
    ] {
        let mut r = record(0, b"x");
        r.state = state;
        assert_eq!(decode_receive(r).state(), state);
    }
}

#[test]
fn sent_payload_comes_back_byte_for_byte() {
    let sent = encode_send(vec![0, 1, 254, 255, 128], None).unwrap();
    let echoed = record(0, sent.payload());
    let received = decode_receive(echoed);
    assert_eq!(received.payload(), &vec![0u8, 1, 254, 255, 128]);
    assert_eq!(received.length(), 5);
}

#[test]
fn decode_all_keeps_the_order() {
    let out = decode_all(vec![record(0, b"a"), record(1, b"bb"), record(2, b"ccc")]);
    assert_eq!(out.len(), 3);
    assert_eq!(out[0].offset(), 0);
    assert_eq!(out[0].payload(), &b"a".to_vec());
    assert_eq!(out[1].offset(), 1);
    assert_eq!(out[1].payload(), &b"bb".to_vec());
    assert_eq!(out[2].offset(), 2);
    assert_eq!(out[2].payload(), &b"ccc".to_vec());
    assert!(decode_all(Vec::new()).is_empty());
}
