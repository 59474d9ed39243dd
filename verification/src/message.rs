use vstd::prelude::*;
use vstd::utf8::encode_utf8;
use crate::error::{ErrorKind, RuntimeError};
use crate::native::{message_from_bytes, message_from_str};

verus! {

/// The longest payload whose length the record's 32-bit length field holds.
pub const MAX_RECORD_LENGTH: usize = 0xFFFF_FFFF;

/// One outbound record as the native client sends it: an id, where 0 lets
/// the broker assign one, the payload and its length in bytes.
#[derive(Debug)]
pub struct Message {
    pub id: u128,
    pub length: u32,
    pub payload: Vec<u8>,
}

/// Whether a payload of these bytes makes a record: it is not empty and its
/// length fits the record's length field.
pub open spec fn accepted_payload(bytes: Seq<u8>) -> bool {
    1 <= bytes.len() <= MAX_RECORD_LENGTH
}

/// The diagnostic text with which a payload of these bytes is refused.
pub open spec fn payload_refusal(bytes: Seq<u8>) -> Seq<char> {
    if bytes.len() == 0 {
        "EmptyMessagePayload"@
    } else {
        "TooBigMessagePayload"@
    }
}

impl Message {
    /// The record's length is that of its payload, and the payload is not
    /// empty.
    pub open spec fn wf(&self) -> bool {
        &&& self.length as int == self.payload@.len()
        &&& self.length >= 1
    }

    /// The record for a payload given as text: the bytes of the text, with
    /// no id. An empty text, or one too long for the length field, is
    /// refused as an invalid payload.
    pub fn from_str(data: &str) -> (r: Result<Message, RuntimeError>)
        ensures
            r is Ok <==> accepted_payload(encode_utf8(data@)),
            r matches Ok(m) ==> m.wf() && m.id == 0 && m.payload@ == encode_utf8(data@),
            r matches Err(e) ==> e.kind == ErrorKind::InvalidPayload && e.message@
                == payload_refusal(encode_utf8(data@)),
    {
        if data.as_bytes().len() > MAX_RECORD_LENGTH {
            return Err(
                RuntimeError::new(ErrorKind::InvalidPayload, "TooBigMessagePayload".to_owned()),
            );
        }
        match message_from_str(data) {
            Some(m) => Ok(m),
            None => Err(
                RuntimeError::new(ErrorKind::InvalidPayload, "EmptyMessagePayload".to_owned()),
            ),
        }
    }

    /// The record for a payload given as bytes, with no id. An empty
    /// payload, or one too long for the length field, is refused as an
    /// invalid payload.
    pub fn from_bytes(payload: Vec<u8>) -> (r: Result<Message, RuntimeError>)
        ensures
            r is Ok <==> accepted_payload(payload@),
            r matches Ok(m) ==> m.wf() && m.id == 0 && m.payload@ == payload@,
            r matches Err(e) ==> e.kind == ErrorKind::InvalidPayload && e.message@
                == payload_refusal(payload@),
    {
        if payload.len() == 0 {
            return Err(
                RuntimeError::new(ErrorKind::InvalidPayload, "EmptyMessagePayload".to_owned()),
            );
        }
        if payload.len() > MAX_RECORD_LENGTH {
            return Err(
                RuntimeError::new(ErrorKind::InvalidPayload, "TooBigMessagePayload".to_owned()),
            );
        }
        Ok(message_from_bytes(payload))
    }
}

impl Clone for Message {
    fn clone(&self) -> (c: Message)
        ensures
            c.id == self.id,
            c.length == self.length,
            c.payload@ == self.payload@,
            c.wf() == self.wf(),
    {
        Message { id: self.id, length: self.length, payload: self.payload.clone() }
    }
}

} // verus!
