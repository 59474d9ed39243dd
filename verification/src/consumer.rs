use vstd::prelude::*;
use crate::identifier::{IdKind, Identifier, IdentifierValue};

verus! {

/// Whether messages are consumed by a single consumer or by a group.
#[derive(Clone, Copy, Debug, PartialEq, Eq, Structural)]
pub enum ConsumerKind {
    Consumer,
    ConsumerGroup,
}

impl Default for ConsumerKind {
    fn default() -> (k: ConsumerKind)
        ensures
            k == ConsumerKind::Consumer,
    {
        ConsumerKind::Consumer
    }
}

/// Names who polls: a kind and an identifier. It describes a consumer; it is
/// no handle to a subscription.
#[derive(Debug)]
pub struct Consumer {
    pub kind: ConsumerKind,
    pub id: Identifier,
}

impl Consumer {
    /// A single consumer with a copy of the given identifier.
    pub fn new(id: &Identifier) -> (c: Consumer)
        ensures
            c.kind == ConsumerKind::Consumer,
            c.id.kind == id.kind,
            c.id.length == id.length,
            c.id.value@ == id.value@,
            c.id@ == id@,
            c.id.wf() == id.wf(),
    {
        Consumer { kind: ConsumerKind::Consumer, id: id.clone() }
    }

    /// A consumer group with a copy of the given identifier.
    pub fn group(id: &Identifier) -> (c: Consumer)
        ensures
            c.kind == ConsumerKind::ConsumerGroup,
            c.id.kind == id.kind,
            c.id.length == id.length,
            c.id.value@ == id.value@,
            c.id@ == id@,
            c.id.wf() == id.wf(),
    {
        Consumer { kind: ConsumerKind::ConsumerGroup, id: id.clone() }
    }
}

impl Default for Consumer {
    /// The consumer used when a poll names none: a single consumer with the
    /// numeric identifier 1.
    fn default() -> (c: Consumer)
        ensures
            c.kind == ConsumerKind::Consumer,
            c.id.wf(),
            c.id.kind == IdKind::Numeric,
            c.id@ == IdentifierValue::Numeric(1),
    {
        Consumer { kind: ConsumerKind::Consumer, id: Identifier::new(1) }
    }
}

} // verus!
