use vstd::prelude::*;
use crate::compression::{select_compression, selected_compression, CompressionAlgorithm};
use crate::consumer::{Consumer, ConsumerKind};
use crate::error::{ErrorKind, RuntimeError};
use crate::identifier::{le_bytes, Identifier, IdentifierValue, PyIdentifier};
use crate::lifecycle::{failure_kind, state_after, translate_error, ClientState, Operation};
use crate::message::Message;
use crate::receive_message::{decode_all, decoded, PolledMessage, ReceiveMessage};
use crate::send_message::SendMessage;
use crate::strategy::{
    native_polling, to_native_partitioning, to_native_polling, NativePollingStrategy, Partitioning,
    PartitioningKind, PollingStrategy,
};
use crate::stream::StreamDetails;
use crate::topic::TopicDetails;

verus! {

/// The address a client is given when the caller names none.
pub const DEFAULT_ADDRESS: &'static str = "127.0.0.1:8090";

/// The client a caller constructs. It holds where to connect and how far the
/// connection has come; each operation is prepared here as a request, run by
/// the native client, and its outcome handed back here to be translated.
#[derive(Debug)]
pub struct IggyClient {
    pub address: String,
    pub state: ClientState,
}

/// The arguments of a login.
#[derive(Debug)]
pub struct LoginUser {
    pub username: String,
    pub password: String,
}

/// The arguments of a stream's creation.
#[derive(Debug)]
pub struct CreateStream {
    pub name: String,
    pub stream_id: Option<u32>,
}

/// The arguments of a stream lookup.
#[derive(Debug)]
pub struct GetStream {
    pub stream_id: Identifier,
}

/// How long the messages of a topic are kept.
#[derive(Clone, Copy, Debug, PartialEq, Eq, Structural)]
pub enum MessageExpiry {
    ServerDefault,
    NeverExpire,
}

/// How large a topic may grow.
#[derive(Clone, Copy, Debug, PartialEq, Eq, Structural)]
pub enum MaxTopicSize {
    ServerDefault,
    Unlimited,
}

/// The arguments of a topic's creation.
#[derive(Debug)]
pub struct CreateTopic {
    pub stream: Identifier,
    pub name: String,
    pub partitions_count: u32,
    pub compression_algorithm: CompressionAlgorithm,
    pub replication_factor: Option<u8>,
    pub topic_id: Option<u32>,
    pub message_expiry: MessageExpiry,
    pub max_topic_size: MaxTopicSize,
}

/// The arguments of a topic lookup.
#[derive(Debug)]
pub struct GetTopic {
    pub stream_id: Identifier,
    pub topic_id: Identifier,
}

/// The arguments of a send: where to, how routed, and the records in the
/// order in which they are sent.
#[derive(Debug)]
pub struct SendMessages {
    pub stream: Identifier,
    pub topic: Identifier,
    pub partitioning: Partitioning,
    pub messages: Vec<Message>,
}

/// The arguments of a poll.
#[derive(Debug)]
pub struct PollMessages {
    pub stream: Identifier,
    pub topic: Identifier,
    pub partition_id: Option<u32>,
    pub consumer: Consumer,
    pub strategy: NativePollingStrategy,
    pub count: u32,
    pub auto_commit: bool,
}

/// The address a client connects to: the one given, or the default.
pub open spec fn resolved_address(conn: Option<String>) -> Seq<char> {
    match conn {
        Some(a) => a@,
        None => DEFAULT_ADDRESS@,
    }
}

/// What the caller gets for the outcome of an operation without a value:
/// nothing on success, the translated error on failure.
pub open spec fn unit_reply(operation: Operation, result: Result<(), String>) -> Result<
    (),
    (ErrorKind, Seq<char>),
> {
    match result {
        Ok(_) => Ok(()),
        Err(text) => Err((failure_kind(operation), text@)),
    }
}

/// A reply without a value, with its error as a value of specifications.
pub open spec fn unit_view(r: Result<(), RuntimeError>) -> Result<(), (ErrorKind, Seq<char>)> {
    match r {
        Ok(_) => Ok(()),
        Err(e) => Err((e.kind, e.message@)),
    }
}

impl IggyClient {
    /// A client for the given address, or for the default address where none
    /// is given. It is not connected: construction reaches no broker.
    pub fn new(conn: Option<String>) -> (client: IggyClient)
        ensures
            client.address@ == resolved_address(conn),
            client.state == ClientState::Unconnected,
    {
        let address = match conn {
            Some(a) => a,
            None => DEFAULT_ADDRESS.to_owned(),
        };
        IggyClient { address, state: ClientState::Unconnected }
    }

    /// The address this client connects to.
    pub fn address(&self) -> (a: &String)
        ensures
            a == self.address,
    {
        &self.address
    }

    /// How far this client has come.
    pub fn state(&self) -> (s: ClientState)
        ensures
            s == self.state,
    {
        self.state
    }

    /// Prepares a ping. It takes no arguments and is never refused here.
    pub fn ping(&self) -> (op: Operation)
        ensures
            op == Operation::Ping,
    {
        Operation::Ping
    }

    /// Prepares a connect. It takes no arguments and is never refused here.
    pub fn connect(&self) -> (op: Operation)
        ensures
            op == Operation::Connect,
    {
        Operation::Connect
    }

    /// Prepares a login with the credentials as given.
    pub fn login_user(&self, username: String, password: String) -> (request: LoginUser)
        ensures
            request.username == username,
            request.password == password,
    {
        LoginUser { username, password }
    }

    /// Prepares the creation of a stream with the name and the optional id as
    /// given.
    pub fn create_stream(&self, name: String, stream_id: Option<u32>) -> (request: CreateStream)
        ensures
            request.name == name,
            request.stream_id == stream_id,
    {
        CreateStream { name, stream_id }
    }

    /// Prepares a stream lookup. The address is resolved to one identifier;
    /// an address that is no valid identifier is refused, and nothing is
    /// submitted.
    pub fn get_stream(&self, stream_id: &PyIdentifier) -> (r: Result<GetStream, RuntimeError>)
        ensures
            r is Ok <==> stream_id.valid(),
            r matches Ok(request) ==> request.stream_id.wf() && request.stream_id@
                == stream_id.target() && (request.stream_id.kind, request.stream_id.value@)
                == stream_id.encoding(),
            r matches Err(e) ==> e.kind == ErrorKind::InvalidIdentifier && e.message@
                == "InvalidIdentifier"@,
    {
        match stream_id.resolve() {
            Ok(id) => Ok(GetStream { stream_id: id }),
            Err(e) => Err(e),
        }
    }

    /// Prepares a topic lookup. Both addresses are resolved; if either is no
    /// valid identifier the lookup is refused, and nothing is submitted.
    pub fn get_topic(&self, stream_id: &PyIdentifier, topic_id: &PyIdentifier) -> (r: Result<
        GetTopic,
        RuntimeError,
    >)
        ensures
            r is Ok <==> stream_id.valid() && topic_id.valid(),
            r matches Ok(request) ==> request.stream_id.wf() && request.topic_id.wf()
                && request.stream_id@ == stream_id.target() && request.topic_id@
                == topic_id.target() && (request.stream_id.kind, request.stream_id.value@)
                == stream_id.encoding() && (request.topic_id.kind, request.topic_id.value@)
                == topic_id.encoding(),
            r matches Err(e) ==> e.kind == ErrorKind::InvalidIdentifier && e.message@
                == "InvalidIdentifier"@,
    {
        let stream = match stream_id.resolve() {
            Ok(id) => id,
            Err(e) => { return Err(e); },
        };
        match topic_id.resolve() {
            Ok(topic) => Ok(GetTopic { stream_id: stream, topic_id: topic }),
            Err(e) => Err(e),
        }
    }
}

/// Whether the creation of a topic is submitted: the compression algorithm
/// resolves and the stream's address is a valid identifier.
pub open spec fn create_topic_accepted(stream: PyIdentifier, compression: Option<String>) -> bool {
    selected_compression(compression) is Ok && stream.valid()
}

/// The error that refuses the creation of a topic: that of the compression
/// algorithm where it does not resolve, else the invalid identifier.
pub open spec fn create_topic_refusal(compression: Option<String>) -> (ErrorKind, Seq<char>) {
    match selected_compression(compression) {
        Err(error) => error,
        Ok(_) => (ErrorKind::InvalidIdentifier, "InvalidIdentifier"@),
    }
}

impl IggyClient {
    /// Prepares the creation of a topic. The compression algorithm is
    /// resolved first, then the stream's address; the first of the two that
    /// fails refuses the creation, and nothing is submitted. The messages of
    /// the topic never expire, and its size is left to the broker.
    pub fn create_topic(
        &self,
        stream: &PyIdentifier,
        name: String,
        partitions_count: u32,
        compression_algorithm: &Option<String>,
        topic_id: Option<u32>,
        replication_factor: Option<u8>,
    ) -> (r: Result<CreateTopic, RuntimeError>)
        ensures
            r is Ok <==> create_topic_accepted(*stream, *compression_algorithm),
            match r {
                Ok(request) => {
                    &&& request.stream.wf()
                    &&& request.stream@ == stream.target()
                    &&& (request.stream.kind, request.stream.value@) == stream.encoding()
                    &&& request.name == name
                    &&& request.partitions_count == partitions_count
                    &&& selected_compression(*compression_algorithm) == Ok::<
                        CompressionAlgorithm,
                        (ErrorKind, Seq<char>),
                    >(request.compression_algorithm)
                    &&& request.replication_factor == replication_factor
                    &&& request.topic_id == topic_id
                    &&& request.message_expiry == MessageExpiry::NeverExpire
                    &&& request.max_topic_size == MaxTopicSize::ServerDefault
                },
                Err(e) => (e.kind, e.message@) == create_topic_refusal(*compression_algorithm),
            },
    {
        let compression = match select_compression(compression_algorithm) {
            Ok(c) => c,
            Err(e) => { return Err(e); },
        };
        let stream = match stream.resolve() {
            Ok(id) => id,
            Err(e) => { return Err(e); },
        };
        Ok(
            CreateTopic {
                stream,
                name,
                partitions_count,
                compression_algorithm: compression,
                replication_factor,
                topic_id,
                message_expiry: MessageExpiry::NeverExpire,
                max_topic_size: MaxTopicSize::ServerDefault,
            },
        )
    }

    /// Prepares a send. Both addresses are resolved, the partition is stated
    /// by its id, and the records of the messages are taken in their order,
    /// each with its id and its payload whole. If either address is no valid
    /// identifier the send is refused, and nothing is submitted.
    pub fn send_messages(
        &self,
        stream: &PyIdentifier,
        topic: &PyIdentifier,
        partitioning: u32,
        messages: &Vec<SendMessage>,
    ) -> (r: Result<SendMessages, RuntimeError>)
        ensures
            r is Ok <==> stream.valid() && topic.valid(),
            match r {
                Ok(request) => {
                    &&& request.stream.wf()
                    &&& request.stream@ == stream.target()
                    &&& (request.stream.kind, request.stream.value@) == stream.encoding()
                    &&& request.topic.wf()
                    &&& request.topic@ == topic.target()
                    &&& (request.topic.kind, request.topic.value@) == topic.encoding()
                    &&& request.partitioning.wf()
                    &&& request.partitioning.kind == PartitioningKind::PartitionId
                    &&& request.partitioning.value@ == le_bytes(partitioning)
                    &&& request.messages@.len() == messages@.len()
                    &&& forall|i: int|
                        0 <= i < messages@.len() ==> {
                            &&& (#[trigger] request.messages@[i]).id == messages@[i].inner.id
                            &&& request.messages@[i].length == messages@[i].inner.length
                            &&& request.messages@[i].payload@ == messages@[i].payload_bytes()
                        }
                },
                Err(e) => e.kind == ErrorKind::InvalidIdentifier && e.message@
                    == "InvalidIdentifier"@,
            },
    {
        let mut records: Vec<Message> = Vec::new();
        let mut i: usize = 0;
        while i < messages.len()
            invariant
                i <= messages@.len(),
                records@.len() == i,
                forall|j: int|
                    0 <= j < i ==> {
                        &&& (#[trigger] records@[j]).id == messages@[j].inner.id
                        &&& records@[j].length == messages@[j].inner.length
                        &&& records@[j].payload@ == messages@[j].payload_bytes()
                    },
            decreases messages@.len() - i,
        {
            records.push(messages[i].inner.clone());
            i += 1;
        }
        let stream = match stream.resolve() {
            Ok(id) => id,
            Err(e) => { return Err(e); },
        };
        let topic = match topic.resolve() {
            Ok(id) => id,
            Err(e) => { return Err(e); },
        };
        Ok(
            SendMessages {
                stream,
                topic,
                partitioning: to_native_partitioning(partitioning),
                messages: records,
            },
        )
    }

    /// Prepares a poll of one partition on behalf of the default consumer.
    /// Both addresses are resolved and the strategy is mapped onto its
    /// native form; the partition, the count and the commit flag are kept as
    /// given. If either address is no valid identifier the poll is refused,
    /// and nothing is submitted.
    pub fn poll_messages(
        &self,
        stream: &PyIdentifier,
        topic: &PyIdentifier,
        partition_id: u32,
        polling_strategy: &PollingStrategy,
        count: u32,
        auto_commit: bool,
    ) -> (r: Result<PollMessages, RuntimeError>)
        ensures
            r is Ok <==> stream.valid() && topic.valid(),
            match r {
                Ok(request) => {
                    &&& request.stream.wf()
                    &&& request.stream@ == stream.target()
                    &&& (request.stream.kind, request.stream.value@) == stream.encoding()
                    &&& request.topic.wf()
                    &&& request.topic@ == topic.target()
                    &&& (request.topic.kind, request.topic.value@) == topic.encoding()
                    &&& request.partition_id == Some(partition_id)
                    &&& request.consumer.kind == ConsumerKind::Consumer
                    &&& request.consumer.id.wf()
                    &&& request.consumer.id@ == IdentifierValue::Numeric(1)
                    &&& request.strategy == native_polling(*polling_strategy)
                    &&& request.count == count
                    &&& request.auto_commit == auto_commit
                },
                Err(e) => e.kind == ErrorKind::InvalidIdentifier && e.message@
                    == "InvalidIdentifier"@,
            },
    {
        let consumer = Consumer::default();
        let stream = match stream.resolve() {
            Ok(id) => id,
            Err(e) => { return Err(e); },
        };
        let topic = match topic.resolve() {
            Ok(id) => id,
            Err(e) => { return Err(e); },
        };
        let strategy = to_native_polling(*polling_strategy);
        Ok(
            PollMessages {
                stream,
                topic,
                partition_id: Some(partition_id),
                consumer,
                strategy,
                count,
                auto_commit,
            },
        )
    }

    /// Takes the outcome of an operation that yields no value. A failure
    /// comes back as the translated error with the native diagnostic text
    /// unchanged; the state moves as the lifecycle says.
    pub fn finish(&mut self, operation: Operation, result: Result<(), String>) -> (r: Result<
        (),
        RuntimeError,
    >)
        ensures
            unit_view(r) == unit_reply(operation, result),
            final(self).state == state_after(old(self).state, operation, result is Ok),
            final(self).address == old(self).address,
    {
        match result {
            Ok(_) => {
                self.state = self.state.after(operation, true);
                Ok(())
            },
            Err(text) => Err(translate_error(operation, text)),
        }
    }

    /// Takes the outcome of a stream lookup: the snapshot, or nothing where
    /// the broker has no such stream, as it came; a failure as the
    /// translated error with the native diagnostic text unchanged.
    pub fn finish_get_stream(&self, result: Result<Option<StreamDetails>, String>) -> (r: Result<
        Option<StreamDetails>,
        RuntimeError,
    >)
        ensures
            match result {
                Ok(found) => r matches Ok(reply) && reply == found,
                Err(text) => r matches Err(e) && e.kind == ErrorKind::OperationFailure && e.message
                    == text,
            },
    {
        match result {
            Ok(found) => Ok(found),
            Err(text) => Err(translate_error(Operation::GetStream, text)),
        }
    }

    /// Takes the outcome of a topic lookup: the snapshot, or nothing where
    /// the broker has no such topic, as it came; a failure as the translated
    /// error with the native diagnostic text unchanged.
    pub fn finish_get_topic(&self, result: Result<Option<TopicDetails>, String>) -> (r: Result<
        Option<TopicDetails>,
        RuntimeError,
    >)
        ensures
            match result {
                Ok(found) => r matches Ok(reply) && reply == found,
                Err(text) => r matches Err(e) && e.kind == ErrorKind::OperationFailure && e.message
                    == text,
            },
    {
        match result {
            Ok(found) => Ok(found),
            Err(text) => Err(translate_error(Operation::GetTopic, text)),
        }
    }

    /// Takes the outcome of a poll: every record decoded, in the order in
    /// which the records came; a failure as the translated error with the
    /// native diagnostic text unchanged, and no record with it.
    pub fn finish_poll_messages(&self, result: Result<Vec<PolledMessage>, String>) -> (r: Result<
        Vec<ReceiveMessage>,
        RuntimeError,
    >)
        ensures
            match result {
                Ok(records) => r matches Ok(messages) && messages@.len() == records@.len()
                    && forall|i: int|
                    0 <= i < messages@.len() ==> #[trigger] messages@[i] == decoded(records@[i]),
                Err(text) => r matches Err(e) && e.kind == ErrorKind::OperationFailure && e.message
                    == text,
            },
    {
        match result {
            Ok(records) => Ok(decode_all(records)),
            Err(text) => Err(translate_error(Operation::PollMessages, text)),
        }
    }
}

} // verus!
