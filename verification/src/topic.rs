use vstd::prelude::*;

verus! {

/// What a lookup reports of a topic, as it was when the lookup ran.
#[derive(Debug)]
pub struct TopicDetails {
    pub id: u32,
    pub name: String,
    pub messages_count: u64,
    pub partitions_count: u32,
}

impl TopicDetails {
    /// A snapshot with the given contents.
    pub fn new(id: u32, name: String, messages_count: u64, partitions_count: u32) -> (t:
        TopicDetails)
        ensures
            t.id == id,
            t.name == name,
            t.messages_count == messages_count,
            t.partitions_count == partitions_count,
    {
        TopicDetails { id, name, messages_count, partitions_count }
    }

    /// The numeric id of the topic.
    pub fn id(&self) -> (id: u32)
        ensures
            id == self.id,
    {
        self.id
    }

    /// The name of the topic, as a copy of its own.
    pub fn name(&self) -> (name: String)
        ensures
            name@ == self.name@,
    {
        self.name.clone()
    }

    /// How many messages the topic held.
    pub fn messages_count(&self) -> (n: u64)
        ensures
            n == self.messages_count,
    {
        self.messages_count
    }

    /// How many partitions the topic had. A topic holds partitions where a
    /// stream holds topics, and this accessor stands where a stream's count
    /// of topics does.
    pub fn topics_count(&self) -> (n: u32)
        ensures
            n == self.partitions_count,
    {
        self.partitions_count
    }

    /// How many partitions the topic had.
    pub fn partitions_count(&self) -> (n: u32)
        ensures
            n == self.partitions_count,
    {
        self.partitions_count
    }
}

} // verus!
