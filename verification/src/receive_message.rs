use vstd::prelude::*;
use crate::message::accepted_payload;
use crate::send_message::SendMessage;
pub use crate::strategy::PollingStrategy;

verus! {

/// The health of a message as the broker reports it.
#[derive(Clone, Copy, Debug, PartialEq, Eq, Structural)]
pub enum MessageState {
    Available,
    Unavailable,
    Poisoned,
    MarkedForDeletion,
}

/// One record as a poll returns it from the native client.
#[derive(Debug)]
pub struct PolledMessage {
    pub offset: u64,
    pub state: MessageState,
    pub timestamp: u64,
    pub id: u128,
    pub checksum: u32,
    pub length: u64,
    pub payload: Vec<u8>,
}

/// A received message as the caller sees it. It is read through its
/// accessors and never changes.
#[derive(Debug)]
pub struct ReceiveMessage {
    pub inner: PolledMessage,
}

/// The received message that shows the given record.
pub open spec fn decoded(native: PolledMessage) -> ReceiveMessage {
    ReceiveMessage { inner: native }
}

/// Turns a polled record into the message the caller sees. Every record
/// decodes, and every field is kept as it is.
pub fn decode_receive(native: PolledMessage) -> (m: ReceiveMessage)
    ensures
        m == decoded(native),
        m.inner.offset == native.offset,
        m.inner.state == native.state,
        m.inner.timestamp == native.timestamp,
        m.inner.id == native.id,
        m.inner.checksum == native.checksum,
        m.inner.length == native.length,
        m.inner.payload@ == native.payload@,
{
    ReceiveMessage { inner: native }
}

impl ReceiveMessage {
    /// The payload bytes of the message.
    pub open spec fn payload_bytes(&self) -> Seq<u8> {
        self.inner.payload@
    }

    /// The payload of the message.
    pub fn payload(&self) -> (p: &Vec<u8>)
        ensures
            p@ == self.payload_bytes(),
    {
        &self.inner.payload
    }

    /// The position of the message within its partition.
    pub fn offset(&self) -> (o: u64)
        ensures
            o == self.inner.offset,
    {
        self.inner.offset
    }

    /// The time the broker gave the message.
    pub fn timestamp(&self) -> (t: u64)
        ensures
            t == self.inner.timestamp,
    {
        self.inner.timestamp
    }

    /// The id of the message, in its full 128 bits.
    pub fn id(&self) -> (i: u128)
        ensures
            i == self.inner.id,
    {
        self.inner.id
    }

    /// The checksum of the message.
    pub fn checksum(&self) -> (c: u32)
        ensures
            c == self.inner.checksum,
    {
        self.inner.checksum
    }

    /// The health of the message as the broker reported it.
    pub fn state(&self) -> (s: MessageState)
        ensures
            s == self.inner.state,
    {
        self.inner.state
    }

    /// The length of the payload as the record states it, in its full 64
    /// bits.
    pub fn length(&self) -> (l: u64)
        ensures
            l == self.inner.length,
    {
        self.inner.length
    }
}

/// Turns every polled record into the message the caller sees, in the order
/// in which the records came.
pub fn decode_all(records: Vec<PolledMessage>) -> (out: Vec<ReceiveMessage>)
    ensures
        out@.len() == records@.len(),
        forall|i: int| 0 <= i < out@.len() ==> #[trigger] out@[i] == decoded(records@[i]),
{
    let ghost all = records@;
    let mut records = records;
    let mut out: Vec<ReceiveMessage> = Vec::new();
    let mut moved: Vec<PolledMessage> = Vec::new();
    // A vector gives up its items from the back: they are taken off into
    // `moved`, which is then emptied from its back, the first record first.
    while records.len() > 0
        invariant
            records@.len() + moved@.len() == all.len(),
            forall|i: int| 0 <= i < records@.len() ==> records@[i] == all[i],
            forall|j: int|
                0 <= j < moved@.len() ==> #[trigger] moved@[j] == all[all.len() - 1 - j],
        decreases records@.len(),
    {
        let last = records.pop().unwrap();
        moved.push(last);
    }
    while moved.len() > 0
        invariant
            out@.len() + moved@.len() == all.len(),
            forall|i: int| 0 <= i < out@.len() ==> #[trigger] out@[i] == decoded(all[i]),
            forall|j: int|
                0 <= j < moved@.len() ==> #[trigger] moved@[j] == all[all.len() - 1 - j],
        decreases moved@.len(),
    {
        let next = moved.pop().unwrap();
        out.push(decode_receive(next));
    }
    out
}

/// An accepted payload that was sent, and that the broker hands back in a
/// record, is read from the received message byte for byte: `sent` is the
/// message made of the payload, `echoed` a record that carries what was sent.
pub proof fn lemma_echo_preserves_payload(
    payload: Seq<u8>,
    sent: SendMessage,
    echoed: PolledMessage,
)
    requires
        accepted_payload(payload),
        sent.wf(),
        sent.payload_bytes() == payload,
        echoed.payload@ == sent.payload_bytes(),
    ensures
        decoded(echoed).payload_bytes() == payload,
        decoded(echoed).payload_bytes().len() == sent.inner.length,
{
}

} // verus!
