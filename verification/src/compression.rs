use vstd::prelude::*;
use crate::error::{ErrorKind, RuntimeError};
use crate::native::{parse_compression_algorithm, parse_view, parsed_compression};

verus! {

/// How the messages of a topic are compressed.
#[derive(Clone, Copy, Debug, PartialEq, Eq, Structural)]
pub enum CompressionAlgorithm {
    Uncompressed,
    Gzip,
}

impl Default for CompressionAlgorithm {
    /// Topics are not compressed unless the caller asks for it.
    fn default() -> (c: CompressionAlgorithm)
        ensures
            c == CompressionAlgorithm::Uncompressed,
    {
        CompressionAlgorithm::Uncompressed
    }
}

/// How a parse result is handed on: the algorithm as it is, a refusal as an
/// operation failure with the parser's diagnostic text.
pub open spec fn parse_outcome(parsed: Result<CompressionAlgorithm, Seq<char>>) -> Result<
    CompressionAlgorithm,
    (ErrorKind, Seq<char>),
> {
    match parsed {
        Ok(c) => Ok(c),
        Err(text) => Err((ErrorKind::OperationFailure, text)),
    }
}

/// A selection result with its error as a value of specifications.
pub open spec fn outcome_view(r: Result<CompressionAlgorithm, RuntimeError>) -> Result<
    CompressionAlgorithm,
    (ErrorKind, Seq<char>),
> {
    match r {
        Ok(c) => Ok(c),
        Err(e) => Err((e.kind, e.message@)),
    }
}

/// Hands a parse result on: the algorithm as it is, a refusal as an
/// operation failure that carries the parser's diagnostic text unchanged.
pub fn accept_parsed(parsed: Result<CompressionAlgorithm, String>) -> (r: Result<
    CompressionAlgorithm,
    RuntimeError,
>)
    ensures
        outcome_view(r) == parse_outcome(parse_view(parsed)),
{
    match parsed {
        Ok(c) => Ok(c),
        Err(text) => Err(RuntimeError::new(ErrorKind::OperationFailure, text)),
    }
}

/// The algorithm a caller selected: none where no name was given, else what
/// the native parser makes of the name.
pub open spec fn selected_compression(name: Option<String>) -> Result<
    CompressionAlgorithm,
    (ErrorKind, Seq<char>),
> {
    match name {
        None => Ok(CompressionAlgorithm::Uncompressed),
        Some(n) => parse_outcome(parsed_compression(n@)),
    }
}

/// Resolves the compression algorithm of a new topic. Without a name the
/// topic is not compressed; a name is parsed by the native client, and a
/// name it does not know is an operation failure with the parser's
/// diagnostic text. The names `gzip` and `none` are always known.
pub fn select_compression(name: &Option<String>) -> (r: Result<CompressionAlgorithm, RuntimeError>)
    ensures
        outcome_view(r) == selected_compression(*name),
        *name is None ==> r is Ok,
        name matches Some(n) && n@ == "gzip"@ ==> (r matches Ok(c) && c
            == CompressionAlgorithm::Gzip),
        name matches Some(n) && n@ == "none"@ ==> (r matches Ok(c) && c
            == CompressionAlgorithm::Uncompressed),
{
    match name {
        None => Ok(CompressionAlgorithm::Uncompressed),
        Some(n) => accept_parsed(parse_compression_algorithm(n.as_str())),
    }
}

} // verus!
