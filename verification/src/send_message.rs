use vstd::prelude::*;
use vstd::utf8::encode_utf8;
use crate::error::{ErrorKind, RuntimeError};
use crate::message::{accepted_payload, payload_refusal, Message};

verus! {

/// A message to be sent: the outbound record and, where the caller gave one,
/// the key by which the message is routed to a partition.
#[derive(Debug)]
pub struct SendMessage {
    pub inner: Message,
    pub key: Option<Vec<u8>>,
}

/// The bytes of an optional key, as a value of specifications.
pub open spec fn key_bytes(key: Option<Vec<u8>>) -> Option<Seq<u8>> {
    match key {
        Some(k) => Some(k@),
        None => None,
    }
}

impl SendMessage {
    /// The record inside is well formed.
    pub open spec fn wf(&self) -> bool {
        self.inner.wf()
    }

    /// The payload bytes that will be sent.
    pub open spec fn payload_bytes(&self) -> Seq<u8> {
        self.inner.payload@
    }

    /// A message without a key whose payload is the bytes of `data`. An
    /// empty text, or one too long for a record, is refused as an invalid
    /// payload.
    pub fn new(data: String) -> (r: Result<SendMessage, RuntimeError>)
        ensures
            r is Ok <==> accepted_payload(encode_utf8(data@)),
            r matches Ok(m) ==> m.wf() && m.inner.id == 0 && m.key is None
                && m.payload_bytes() == encode_utf8(data@),
            r matches Err(e) ==> e.kind == ErrorKind::InvalidPayload && e.message@
                == payload_refusal(encode_utf8(data@)),
    {
        match Message::from_str(data.as_str()) {
            Ok(inner) => Ok(SendMessage { inner, key: None }),
            Err(e) => Err(e),
        }
    }

    /// The payload bytes that will be sent.
    pub fn payload(&self) -> (p: &Vec<u8>)
        ensures
            p@ == self.payload_bytes(),
    {
        &self.inner.payload
    }

    /// The routing key, where the message has one.
    pub fn key(&self) -> (k: &Option<Vec<u8>>)
        ensures
            *k == self.key,
    {
        &self.key
    }
}

/// Makes the message that carries `payload`, with the routing key kept as
/// given. The payload is taken whole: a payload that is empty, or too long
/// for a record, is refused as an invalid payload, and no other is.
pub fn encode_send(payload: Vec<u8>, key: Option<Vec<u8>>) -> (r: Result<
    SendMessage,
    RuntimeError,
>)
    ensures
        r is Ok <==> accepted_payload(payload@),
        r matches Ok(m) ==> m.wf() && m.inner.id == 0 && m.payload_bytes() == payload@
            && key_bytes(m.key) == key_bytes(key),
        r matches Err(e) ==> e.kind == ErrorKind::InvalidPayload && e.message@ == payload_refusal(
            payload@,
        ),
{
    match Message::from_bytes(payload) {
        Ok(inner) => Ok(SendMessage { inner, key }),
        Err(e) => Err(e),
    }
}

impl Clone for SendMessage {
    fn clone(&self) -> (c: SendMessage)
        ensures
            c.inner.id == self.inner.id,
            c.inner.length == self.inner.length,
            c.payload_bytes() == self.payload_bytes(),
            key_bytes(c.key) == key_bytes(self.key),
            c.wf() == self.wf(),
    {
        let key = match &self.key {
            Some(k) => Some(k.clone()),
            None => None,
        };
        SendMessage { inner: self.inner.clone(), key }
    }
}

} // verus!
