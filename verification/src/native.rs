//! The calls into the native client library. Verus takes the contracts in
//! this file on trust; each one restates what the native source shows.

use vstd::prelude::*;
use vstd::utf8::encode_utf8;
use crate::compression::CompressionAlgorithm;
use crate::identifier::{IdKind, Identifier};
use crate::message::Message;

verus! {

/// Calls `iggy::identifier::Identifier::named`. The native function accepts a
/// name of 1 to 255 bytes and refuses every other; an accepted name comes
/// back as a string identifier that holds the name's bytes and their count.
#[verifier::external_body]
pub(crate) fn named_identifier(name: &str) -> (r: Option<Identifier>)
    ensures
        r is Some <==> 1 <= encode_utf8(name@).len() <= 255,
        r matches Some(id) ==> id.kind == IdKind::String
            && id.length as int == encode_utf8(name@).len()
            && id.value@ == encode_utf8(name@),
{
    match iggy::identifier::Identifier::named(name) {
        Ok(id) => Some(Identifier {
            kind: match id.kind {
                iggy::identifier::IdKind::Numeric => IdKind::Numeric,
                iggy::identifier::IdKind::String => IdKind::String,
            },
            length: id.length,
            value: id.value,
        }),
        Err(_) => None,
    }
}

/// Calls `Message::from_str` of `iggy::messages::send_messages`. The native
/// function refuses an empty text; of any other it makes a record with id 0
/// whose payload is the text's bytes and whose length is their count. Texts
/// whose byte count does not fit 32 bits are left out, since the native
/// length field would not hold it.
#[verifier::external_body]
pub(crate) fn message_from_str(data: &str) -> (r: Option<Message>)
    requires
        encode_utf8(data@).len() <= u32::MAX,
    ensures
        r is Some <==> encode_utf8(data@).len() >= 1,
        r matches Some(m) ==> m.id == 0 && m.length as int == encode_utf8(data@).len()
            && m.payload@ == encode_utf8(data@),
{
    match <iggy::messages::send_messages::Message as std::str::FromStr>::from_str(data) {
        Ok(m) => Some(Message { id: m.id, length: m.length, payload: m.payload.to_vec() }),
        Err(_) => None,
    }
}

/// Calls `iggy::messages::send_messages::Message::new` with no id and no
/// headers. The native function makes a record with id 0 that holds the
/// payload and its byte count. Payloads whose byte count does not fit 32
/// bits are left out, since the native length field would not hold it.
#[verifier::external_body]
pub(crate) fn message_from_bytes(payload: Vec<u8>) -> (m: Message)
    requires
        payload@.len() <= u32::MAX,
    ensures
        m.id == 0,
        m.length as int == payload@.len(),
        m.payload@ == payload@,
{
    let m = iggy::messages::send_messages::Message::new(None, payload.into(), None);
    Message { id: m.id, length: m.length, payload: m.payload.to_vec() }
}

/// What `CompressionAlgorithm::from_str` of
/// `iggy::compression::compression_algorithm` returns for a name: the
/// algorithm, or its error in debug form.
pub uninterp spec fn parsed_compression(name: Seq<char>) -> Result<
    CompressionAlgorithm,
    Seq<char>,
>;

/// A parse result with its diagnostic text as a value of specifications.
pub open spec fn parse_view(r: Result<CompressionAlgorithm, String>) -> Result<
    CompressionAlgorithm,
    Seq<char>,
> {
    match r {
        Ok(c) => Ok(c),
        Err(e) => Err(e@),
    }
}

/// Calls `CompressionAlgorithm::from_str` of
/// `iggy::compression::compression_algorithm`. The result depends on the
/// name alone; an error comes back as its debug text. The native function
/// compares the lower-cased name with `gzip` and `none`, so these two names
/// give their algorithm.
#[verifier::external_body]
pub(crate) fn parse_compression_algorithm(name: &str) -> (r: Result<CompressionAlgorithm, String>)
    ensures
        parse_view(r) == parsed_compression(name@),
        r is Ok || (name@ != "gzip"@ && name@ != "none"@),
        r matches Ok(c) ==> (name@ == "gzip"@ ==> c == CompressionAlgorithm::Gzip),
        r matches Ok(c) ==> (name@ == "none"@ ==> c == CompressionAlgorithm::Uncompressed),
{
    match <iggy::compression::compression_algorithm::CompressionAlgorithm as std::str::FromStr>::from_str(name) {
        Ok(iggy::compression::compression_algorithm::CompressionAlgorithm::None) => Ok(CompressionAlgorithm::Uncompressed),
        Ok(iggy::compression::compression_algorithm::CompressionAlgorithm::Gzip) => Ok(CompressionAlgorithm::Gzip),
        Err(e) => Err(format!("{:?}", e)),
    }
}

} // verus!
