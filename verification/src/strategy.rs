use vstd::prelude::*;
use crate::identifier::le_bytes;

verus! {

/// Where a poll starts reading, as the caller selects it.
#[derive(Clone, Copy, Debug, PartialEq, Eq, Structural)]
pub enum PollingStrategy {
    Offset { value: u64 },
    Timestamp { value: u64 },
    First,
    Last,
    Next,
}

/// The kinds of polling the native client knows.
#[derive(Clone, Copy, Debug, PartialEq, Eq, Structural)]
pub enum PollingKind {
    Offset,
    Timestamp,
    First,
    Last,
    Next,
}

/// Where a poll starts reading, as the native client takes it: a kind and a
/// number, which is 0 for the kinds that need none.
#[derive(Clone, Copy, Debug, PartialEq, Eq, Structural)]
pub struct NativePollingStrategy {
    pub kind: PollingKind,
    pub value: u64,
}

/// The native strategy that a caller's selection stands for.
pub open spec fn native_polling(strategy: PollingStrategy) -> NativePollingStrategy {
    match strategy {
        PollingStrategy::Offset { value } => NativePollingStrategy {
            kind: PollingKind::Offset,
            value,
        },
        PollingStrategy::Timestamp { value } => NativePollingStrategy {
            kind: PollingKind::Timestamp,
            value,
        },
        PollingStrategy::First => NativePollingStrategy { kind: PollingKind::First, value: 0 },
        PollingStrategy::Last => NativePollingStrategy { kind: PollingKind::Last, value: 0 },
        PollingStrategy::Next => NativePollingStrategy { kind: PollingKind::Next, value: 0 },
    }
}

/// The selection that yields a native kind, with the given number where the
/// kind takes one.
pub open spec fn selection_of(kind: PollingKind, value: u64) -> PollingStrategy {
    match kind {
        PollingKind::Offset => PollingStrategy::Offset { value },
        PollingKind::Timestamp => PollingStrategy::Timestamp { value },
        PollingKind::First => PollingStrategy::First,
        PollingKind::Last => PollingStrategy::Last,
        PollingKind::Next => PollingStrategy::Next,
    }
}

/// Maps a caller's selection onto the native strategy. An offset or a
/// timestamp keeps its number; the other three carry none.
pub fn to_native_polling(strategy: PollingStrategy) -> (native: NativePollingStrategy)
    ensures
        native == native_polling(strategy),
{
    match strategy {
        PollingStrategy::Offset { value } => NativePollingStrategy {
            kind: PollingKind::Offset,
            value,
        },
        PollingStrategy::Timestamp { value } => NativePollingStrategy {
            kind: PollingKind::Timestamp,
            value,
        },
        PollingStrategy::First => NativePollingStrategy { kind: PollingKind::First, value: 0 },
        PollingStrategy::Last => NativePollingStrategy { kind: PollingKind::Last, value: 0 },
        PollingStrategy::Next => NativePollingStrategy { kind: PollingKind::Next, value: 0 },
    }
}

/// Two selections with the same native strategy are the same selection.
pub proof fn lemma_native_polling_injective(a: PollingStrategy, b: PollingStrategy)
    requires
        native_polling(a) == native_polling(b),
    ensures
        a == b,
{
}

/// Every native kind is the kind of some selection, and of one variant only:
/// the selection is found again from its native strategy.
pub proof fn lemma_native_polling_onto(kind: PollingKind, value: u64)
    ensures
        native_polling(selection_of(kind, value)).kind == kind,
        forall|s: PollingStrategy| #[trigger]
            native_polling(s).kind == kind ==> selection_of(kind, native_polling(s).value) == s,
{
}

/// How the messages of a batch are routed, as the caller states it.
#[derive(Debug)]
pub enum PartitioningStrategy {
    Balanced,
    PartitionId(u32),
    MessageKey(Vec<u8>),
}

/// The kinds of routing the native client knows.
#[derive(Clone, Copy, Debug, PartialEq, Eq, Structural)]
pub enum PartitioningKind {
    Balanced,
    PartitionId,
    MessagesKey,
}

/// How a batch is routed, as the native client takes it: a kind, and the
/// bytes that go with it together with their count.
#[derive(Debug)]
pub struct Partitioning {
    pub kind: PartitioningKind,
    pub length: u8,
    pub value: Vec<u8>,
}

impl Partitioning {
    /// `length` counts the bytes held; balanced routing holds none, a
    /// partition id holds four, a key at least one.
    pub open spec fn wf(&self) -> bool {
        &&& self.length as int == self.value@.len()
        &&& self.kind == PartitioningKind::Balanced ==> self.length == 0
        &&& self.kind == PartitioningKind::PartitionId ==> self.length == 4
        &&& self.kind == PartitioningKind::MessagesKey ==> self.length >= 1
    }
}

/// The native routing that a caller's statement stands for; `None` where a
/// key is empty or longer than 255 bytes.
pub open spec fn native_partitioning(strategy: PartitioningStrategy) -> Option<
    (PartitioningKind, Seq<u8>),
> {
    match strategy {
        PartitioningStrategy::Balanced => Some((PartitioningKind::Balanced, Seq::<u8>::empty())),
        PartitioningStrategy::PartitionId(id) => Some((PartitioningKind::PartitionId, le_bytes(id))),
        PartitioningStrategy::MessageKey(key) => if 1 <= key@.len() <= 255 {
            Some((PartitioningKind::MessagesKey, key@))
        } else {
            None
        },
    }
}

impl PartitioningStrategy {
    /// Maps the caller's statement onto the native routing: balanced routing
    /// carries no bytes, a partition id its four bytes, a key its own bytes.
    /// A key that is empty or longer than 255 bytes has no native form.
    pub fn to_native(&self) -> (r: Option<Partitioning>)
        ensures
            r is Some <==> native_partitioning(*self) is Some,
            r matches Some(p) ==> p.wf() && (p.kind, p.value@) == native_partitioning(*self)->0,
    {
        match self {
            PartitioningStrategy::Balanced => Some(
                Partitioning { kind: PartitioningKind::Balanced, length: 0, value: Vec::new() },
            ),
            PartitioningStrategy::PartitionId(id) => Some(to_native_partitioning(*id)),
            PartitioningStrategy::MessageKey(key) => {
                let n = key.len();
                if n == 0 || n > 255 {
                    None
                } else {
                    Some(
                        Partitioning {
                            kind: PartitioningKind::MessagesKey,
                            length: n as u8,
                            value: key.clone(),
                        },
                    )
                }
            },
        }
    }
}

/// The native routing for a partition given by its id: the four bytes of the
/// id, least significant first.
pub fn to_native_partitioning(partition_id: u32) -> (p: Partitioning)
    ensures
        p.wf(),
        p.kind == PartitioningKind::PartitionId,
        p.length == 4,
        p.value@ == le_bytes(partition_id),
{
    let mut bytes: Vec<u8> = Vec::new();
    bytes.push((partition_id % 256) as u8);
    bytes.push(((partition_id / 256) % 256) as u8);
    bytes.push(((partition_id / 65536) % 256) as u8);
    bytes.push(((partition_id / 16777216) % 256) as u8);
    assert(bytes@ =~= le_bytes(partition_id));
    Partitioning { kind: PartitioningKind::PartitionId, length: 4, value: bytes }
}

} // verus!
