use vstd::prelude::*;
use vstd::utf8::encode_utf8;
use crate::error::{ErrorKind, RuntimeError};
use crate::native::named_identifier;

verus! {

/// The longest name, in bytes, that an identifier can carry.
pub const MAX_NAME_LENGTH: usize = 255;

/// Which of the two representations an identifier holds.
#[derive(Clone, Copy, Debug, PartialEq, Eq, Structural)]
pub enum IdKind {
    Numeric,
    String,
}

impl Default for IdKind {
    fn default() -> (k: IdKind)
        ensures
            k == IdKind::Numeric,
    {
        IdKind::Numeric
    }
}

/// What an identifier stands for: a number or a name given as bytes.
pub enum IdentifierValue {
    Numeric(u32),
    Named(Seq<u8>),
}

/// The four bytes of `n`, least significant first.
pub open spec fn le_bytes(n: u32) -> Seq<u8> {
    seq![
        (n % 256) as u8,
        ((n / 256) % 256) as u8,
        ((n / 65536) % 256) as u8,
        ((n / 16777216) % 256) as u8,
    ]
}

/// The number whose least-significant-first bytes are the first four of `b`.
pub open spec fn from_le_bytes(b: Seq<u8>) -> int {
    b[0] as int + 256 * (b[1] as int) + 65536 * (b[2] as int) + 16777216 * (b[3] as int)
}

/// Addresses a stream or a topic, by number or by name.
#[derive(Debug)]
pub struct Identifier {
    pub kind: IdKind,
    pub length: u8,
    pub value: Vec<u8>,
}

impl View for Identifier {
    type V = IdentifierValue;

    open spec fn view(&self) -> IdentifierValue {
        match self.kind {
            IdKind::Numeric => IdentifierValue::Numeric(from_le_bytes(self.value@) as u32),
            IdKind::String => IdentifierValue::Named(self.value@),
        }
    }
}

impl Identifier {
    /// A numeric identifier holds four bytes; a named one holds between one
    /// and 255; `length` is the number of bytes held.
    pub open spec fn wf(&self) -> bool {
        &&& self.length as int == self.value@.len()
        &&& self.kind == IdKind::Numeric ==> self.length == 4
        &&& self.kind == IdKind::String ==> 1 <= self.length
    }

    /// The numeric identifier of `value`: four bytes, least significant first.
    pub fn new(value: u32) -> (id: Identifier)
        ensures
            id.wf(),
            id.kind == IdKind::Numeric,
            id.length == 4,
            id.value@ == le_bytes(value),
            id@ == IdentifierValue::Numeric(value),
    {
        let mut bytes: Vec<u8> = Vec::new();
        bytes.push((value % 256) as u8);
        bytes.push(((value / 256) % 256) as u8);
        bytes.push(((value / 65536) % 256) as u8);
        bytes.push(((value / 16777216) % 256) as u8);
        assert(bytes@ =~= le_bytes(value));
        Identifier { kind: IdKind::Numeric, length: 4, value: bytes }
    }

    /// The numeric identifier of `value`. Every number is accepted.
    pub fn from_numeric(value: u32) -> (id: Identifier)
        ensures
            id.wf(),
            id.kind == IdKind::Numeric,
            id.length == 4,
            id.value@ == le_bytes(value),
            id@ == IdentifierValue::Numeric(value),
    {
        Identifier::new(value)
    }

    /// The identifier that carries `name`. A name of 1 to 255 bytes is
    /// accepted; an empty or longer one is refused as an invalid identifier.
    pub fn from_name(name: &str) -> (r: Result<Identifier, RuntimeError>)
        ensures
            r is Ok <==> 1 <= encode_utf8(name@).len() <= MAX_NAME_LENGTH,
            r matches Ok(id) ==> id.wf() && id.kind == IdKind::String
                && id.length as int == encode_utf8(name@).len()
                && id.value@ == encode_utf8(name@)
                && id@ == IdentifierValue::Named(encode_utf8(name@)),
            r matches Err(e) ==> e.kind == ErrorKind::InvalidIdentifier
                && e.message@ == "InvalidIdentifier"@,
    {
        match named_identifier(name) {
            Some(id) => Ok(id),
            None => Err(RuntimeError::new(
                ErrorKind::InvalidIdentifier,
                "InvalidIdentifier".to_owned(),
            )),
        }
    }
}

impl Identifier {
    /// The number a numeric identifier stands for; `None` for a named one or
    /// for one that does not hold exactly four bytes.
    pub fn numeric_value(&self) -> (r: Option<u32>)
        ensures
            r is Some <==> self.kind == IdKind::Numeric && self.value@.len() == 4,
            r matches Some(n) ==> n as int == from_le_bytes(self.value@)
                && self@ == IdentifierValue::Numeric(n),
    {
        match self.kind {
            IdKind::Numeric => {
                if self.value.len() != 4 {
                    return None;
                }
                let b0: u32 = self.value[0] as u32;
                let b1: u32 = self.value[1] as u32;
                let b2: u32 = self.value[2] as u32;
                let b3: u32 = self.value[3] as u32;
                Some(b0 + 256 * b1 + 65536 * b2 + 16777216 * b3)
            },
            IdKind::String => None,
        }
    }

    /// The bytes of the name a named identifier carries; `None` for a numeric
    /// one.
    pub fn name_bytes(&self) -> (r: Option<&Vec<u8>>)
        ensures
            r is Some <==> self.kind == IdKind::String,
            r matches Some(b) ==> b@ == self.value@ && self@ == IdentifierValue::Named(b@),
    {
        match self.kind {
            IdKind::Numeric => None,
            IdKind::String => Some(&self.value),
        }
    }
}

impl Clone for Identifier {
    fn clone(&self) -> (c: Identifier)
        ensures
            c.kind == self.kind,
            c.length == self.length,
            c.value@ == self.value@,
            c@ == self@,
            c.wf() == self.wf(),
    {
        Identifier { kind: self.kind, length: self.length, value: self.value.clone() }
    }
}

impl Default for Identifier {
    /// The numeric identifier 1.
    fn default() -> (id: Identifier)
        ensures
            id.wf(),
            id.kind == IdKind::Numeric,
            id.value@ == le_bytes(1),
            id@ == IdentifierValue::Numeric(1),
    {
        Identifier::new(1)
    }
}

/// An address as a caller gives it: a name or a number.
#[derive(Debug)]
pub enum PyIdentifier {
    String(String),
    Int(u32),
}

impl PyIdentifier {
    /// What `resolve` yields for this address when it yields an identifier.
    pub open spec fn target(&self) -> IdentifierValue {
        match self {
            PyIdentifier::String(s) => IdentifierValue::Named(encode_utf8(s@)),
            PyIdentifier::Int(n) => IdentifierValue::Numeric(*n),
        }
    }

    /// The kind and the bytes of the identifier this address denotes.
    pub open spec fn encoding(&self) -> (IdKind, Seq<u8>) {
        match self {
            PyIdentifier::String(s) => (IdKind::String, encode_utf8(s@)),
            PyIdentifier::Int(n) => (IdKind::Numeric, le_bytes(*n)),
        }
    }

    /// Whether `resolve` accepts this address: every number, and every name
    /// of 1 to 255 bytes.
    pub open spec fn valid(&self) -> bool {
        match self {
            PyIdentifier::String(s) => 1 <= encode_utf8(s@).len() <= MAX_NAME_LENGTH,
            PyIdentifier::Int(_) => true,
        }
    }

    /// Turns the address into the one identifier it denotes, or refuses it as
    /// an invalid identifier.
    pub fn resolve(&self) -> (r: Result<Identifier, RuntimeError>)
        ensures
            r is Ok <==> self.valid(),
            r matches Ok(id) ==> id.wf() && id@ == self.target() && (id.kind, id.value@)
                == self.encoding(),
            r matches Err(e) ==> e.kind == ErrorKind::InvalidIdentifier
                && e.message@ == "InvalidIdentifier"@,
    {
        match self {
            PyIdentifier::String(s) => Identifier::from_name(s.as_str()),
            PyIdentifier::Int(n) => Ok(Identifier::from_numeric(*n)),
        }
    }
}

/// Decoding the bytes of a number gives the number back.
pub proof fn lemma_numeric_round_trip(n: u32)
    ensures
        le_bytes(n).len() == 4,
        from_le_bytes(le_bytes(n)) == n,
{
}

/// Two numbers with the same bytes are the same number.
pub proof fn lemma_le_bytes_injective(a: u32, b: u32)
    requires
        le_bytes(a) == le_bytes(b),
    ensures
        a == b,
{
    lemma_numeric_round_trip(a);
    lemma_numeric_round_trip(b);
}

} // verus!
