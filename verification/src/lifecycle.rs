use vstd::prelude::*;
use crate::error::{ErrorKind, RuntimeError};

verus! {

/// The operations a client offers.
#[derive(Clone, Copy, Debug, PartialEq, Eq, Structural)]
pub enum Operation {
    Ping,
    LoginUser,
    Connect,
    CreateStream,
    GetStream,
    CreateTopic,
    GetTopic,
    SendMessages,
    PollMessages,
}

/// How far a client has come: constructed, connected, logged in.
#[derive(Clone, Copy, Debug, PartialEq, Eq, Structural)]
pub enum ClientState {
    Unconnected,
    Connected,
    Authenticated,
}

/// The category under which a native failure of an operation is reported:
/// reaching the broker fails as a connection, logging in as an
/// authentication, every other operation as an operation.
pub open spec fn failure_kind(operation: Operation) -> ErrorKind {
    match operation {
        Operation::Ping | Operation::Connect => ErrorKind::ConnectionFailure,
        Operation::LoginUser => ErrorKind::AuthenticationFailure,
        _ => ErrorKind::OperationFailure,
    }
}

/// The state after an operation has ended. A failure changes nothing. A
/// connect that succeeds leaves an unconnected client connected, a login
/// that succeeds leaves the client authenticated, and no other operation
/// moves the state.
pub open spec fn state_after(state: ClientState, operation: Operation, succeeded: bool)
    -> ClientState {
    if !succeeded {
        state
    } else {
        match operation {
            Operation::Connect => if state == ClientState::Unconnected {
                ClientState::Connected
            } else {
                state
            },
            Operation::LoginUser => ClientState::Authenticated,
            _ => state,
        }
    }
}

/// A number that grows along the lifecycle.
pub open spec fn rank(state: ClientState) -> int {
    match state {
        ClientState::Unconnected => 0,
        ClientState::Connected => 1,
        ClientState::Authenticated => 2,
    }
}

impl Operation {
    /// The category under which a native failure of this operation is
    /// reported.
    pub fn failure_kind(self) -> (kind: ErrorKind)
        ensures
            kind == failure_kind(self),
    {
        match self {
            Operation::Ping => ErrorKind::ConnectionFailure,
            Operation::Connect => ErrorKind::ConnectionFailure,
            Operation::LoginUser => ErrorKind::AuthenticationFailure,
            Operation::CreateStream => ErrorKind::OperationFailure,
            Operation::GetStream => ErrorKind::OperationFailure,
            Operation::CreateTopic => ErrorKind::OperationFailure,
            Operation::GetTopic => ErrorKind::OperationFailure,
            Operation::SendMessages => ErrorKind::OperationFailure,
            Operation::PollMessages => ErrorKind::OperationFailure,
        }
    }
}

impl ClientState {
    /// The state after `operation` has ended with or without success.
    pub fn after(self, operation: Operation, succeeded: bool) -> (next: ClientState)
        ensures
            next == state_after(self, operation, succeeded),
    {
        if !succeeded {
            return self;
        }
        match operation {
            Operation::Connect => match self {
                ClientState::Unconnected => ClientState::Connected,
                ClientState::Connected => ClientState::Connected,
                ClientState::Authenticated => ClientState::Authenticated,
            },
            Operation::LoginUser => ClientState::Authenticated,
            _ => self,
        }
    }
}

/// Turns the failure of an operation into the error the caller sees: the
/// category of the operation, and the native diagnostic text as it came.
pub fn translate_error(operation: Operation, diagnostic: String) -> (e: RuntimeError)
    ensures
        e.kind == failure_kind(operation),
        e.message == diagnostic,
{
    RuntimeError::new(operation.failure_kind(), diagnostic)
}

/// The lifecycle never runs backwards, whatever operation ends and however.
pub proof fn lemma_state_never_regresses(state: ClientState, operation: Operation, succeeded: bool)
    ensures
        rank(state) <= rank(state_after(state, operation, succeeded)),
{
}

/// Only a connect or a login that succeeded moves the state.
pub proof fn lemma_state_moves_only_on_connect_or_login(
    state: ClientState,
    operation: Operation,
    succeeded: bool,
)
    requires
        state_after(state, operation, succeeded) != state,
    ensures
        succeeded,
        operation == Operation::Connect || operation == Operation::LoginUser,
{
}

} // verus!
