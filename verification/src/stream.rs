use vstd::prelude::*;

verus! {

/// What a lookup reports of a stream, as it was when the lookup ran.
#[derive(Debug)]
pub struct StreamDetails {
    pub id: u32,
    pub name: String,
    pub messages_count: u64,
    pub topics_count: u32,
}

impl StreamDetails {
    /// A snapshot with the given contents.
    pub fn new(id: u32, name: String, messages_count: u64, topics_count: u32) -> (s: StreamDetails)
        ensures
            s.id == id,
            s.name == name,
            s.messages_count == messages_count,
            s.topics_count == topics_count,
    {
        StreamDetails { id, name, messages_count, topics_count }
    }

    /// The numeric id of the stream.
    pub fn id(&self) -> (id: u32)
        ensures
            id == self.id,
    {
        self.id
    }

    /// The name of the stream, as a copy of its own.
    pub fn name(&self) -> (name: String)
        ensures
            name@ == self.name@,
    {
        self.name.clone()
    }

    /// How many messages the stream held.
    pub fn messages_count(&self) -> (n: u64)
        ensures
            n == self.messages_count,
    {
        self.messages_count
    }

    /// How many topics the stream held.
    pub fn topics_count(&self) -> (n: u32)
        ensures
            n == self.topics_count,
    {
        self.topics_count
    }
}

} // verus!
