//! The client's side of the bus: the reconnect cycle with its fixed backoff,
//! the events that a connection yields, and the queues that hold outbound
//! messages until the channel takes them.
//!
//! The surrounding program connects, sleeps, reads and writes; it reports
//! each outcome here and does what comes back.

use crate::framing::{write_frame, write_result, ByteOrder, FramingError};
use std::collections::VecDeque;
use vstd::prelude::*;
use vstd::string::StringSliceAdditionalSpecFns;

verus! {

/// Seconds between a failed connection attempt, or a lost connection, and the
/// next attempt.
pub const BACKOFF_SECS: u64 = 5;

/// Where a client stands in its reconnect cycle.
#[derive(Clone, Copy, Debug, PartialEq, Eq, Structural)]
pub enum ClientState {
    /// An attempt to connect is due or under way.
    Connecting,
    /// The connection stands: frames are read and outbound messages written.
    Connected,
    /// The backoff runs; the next attempt follows it.
    Waiting,
    /// The owning process tore the client down.
    Stopped,
}

/// What the program reports to a client.
#[derive(Clone, Copy, Debug, PartialEq, Eq, Structural)]
pub enum ClientInput {
    /// The attempt to connect succeeded.
    ConnectSucceeded,
    /// The attempt to connect failed.
    ConnectFailed,
    /// The backoff is over.
    BackoffElapsed,
    /// A read failed or reached the end of the stream.
    ReadFailed,
    /// A write failed.
    WriteFailed,
    /// The owning process tears the client down.
    Stop,
}

/// A lifecycle event that a client emits.
#[derive(Clone, Copy, Debug, PartialEq, Eq, Structural)]
pub enum Lifecycle {
    /// The connection was made.
    Connected,
    /// The connection was lost.
    Disconnected,
}

/// The state that follows `state` on `input`. A failed read and a failed
/// write both end the connection. An input that does not belong to the state
/// changes nothing.
pub open spec fn next_state(state: ClientState, input: ClientInput) -> ClientState {
    match (state, input) {
        (ClientState::Stopped, _) => ClientState::Stopped,
        (_, ClientInput::Stop) => ClientState::Stopped,
        (ClientState::Connecting, ClientInput::ConnectSucceeded) => ClientState::Connected,
        (ClientState::Connecting, ClientInput::ConnectFailed) => ClientState::Waiting,
        (ClientState::Waiting, ClientInput::BackoffElapsed) => ClientState::Connecting,
        (ClientState::Connected, ClientInput::ReadFailed) => ClientState::Waiting,
        (ClientState::Connected, ClientInput::WriteFailed) => ClientState::Waiting,
        _ => state,
    }
}

/// The lifecycle event that `input` makes a client in `state` emit.
pub open spec fn emitted(state: ClientState, input: ClientInput) -> Option<Lifecycle> {
    match (state, input) {
        (ClientState::Connecting, ClientInput::ConnectSucceeded) => Some(Lifecycle::Connected),
        (ClientState::Connected, ClientInput::ReadFailed) => Some(Lifecycle::Disconnected),
        (ClientState::Connected, ClientInput::WriteFailed) => Some(Lifecycle::Disconnected),
        _ => None,
    }
}

/// The state after the inputs `inputs` arrived in order.
pub open spec fn run_client(state: ClientState, inputs: Seq<ClientInput>) -> ClientState
    decreases inputs.len(),
{
    if inputs.len() == 0 {
        state
    } else {
        next_state(run_client(state, inputs.drop_last()), inputs.last())
    }
}

/// The lifecycle events that a client emits while `inputs` arrive in order.
pub open spec fn emissions(state: ClientState, inputs: Seq<ClientInput>) -> Seq<Lifecycle>
    decreases inputs.len(),
{
    if inputs.len() == 0 {
        Seq::empty()
    } else {
        let before = emissions(state, inputs.drop_last());
        match emitted(run_client(state, inputs.drop_last()), inputs.last()) {
            Some(event) => before.push(event),
            None => before,
        }
    }
}

/// How many of `events` are `Connected`.
pub open spec fn count_connected(events: Seq<Lifecycle>) -> nat
    decreases events.len(),
{
    if events.len() == 0 {
        0
    } else {
        count_connected(events.drop_last()) + if events.last() == Lifecycle::Connected {
            1nat
        } else {
            0nat
        }
    }
}

/// How many attempts to connect succeed while `inputs` arrive in order: the
/// `ConnectSucceeded` inputs that find the client `Connecting`.
pub open spec fn successful_attempts(state: ClientState, inputs: Seq<ClientInput>) -> nat
    decreases inputs.len(),
{
    if inputs.len() == 0 {
        0
    } else {
        successful_attempts(state, inputs.drop_last()) + if run_client(state, inputs.drop_last())
            == ClientState::Connecting && inputs.last() == ClientInput::ConnectSucceeded {
            1nat
        } else {
            0nat
        }
    }
}

/// Whether `events` alternate, beginning with `first`.
pub open spec fn alternates(events: Seq<Lifecycle>, first: Lifecycle) -> bool {
    forall|i: int|
        0 <= i < events.len() ==> #[trigger] events[i] == if i % 2 == 0 {
            first
        } else {
            other(first)
        }
}

/// The other lifecycle event.
pub open spec fn other(event: Lifecycle) -> Lifecycle {
    match event {
        Lifecycle::Connected => Lifecycle::Disconnected,
        Lifecycle::Disconnected => Lifecycle::Connected,
    }
}

/// A client emits exactly one `Connected` for each attempt that succeeds, and
/// none otherwise: failed attempts and backoffs emit nothing.
pub proof fn lemma_one_connected_per_success(state: ClientState, inputs: Seq<ClientInput>)
    ensures
        count_connected(emissions(state, inputs)) == successful_attempts(state, inputs),
    decreases inputs.len(),
{
    if inputs.len() > 0 {
        lemma_one_connected_per_success(state, inputs.drop_last());
        let before = emissions(state, inputs.drop_last());
        let s = run_client(state, inputs.drop_last());
        match emitted(s, inputs.last()) {
            Some(event) => {
                assert(before.push(event).drop_last() =~= before);
            },
            None => {},
        }
    }
}

/// The lifecycle events of a client that starts out unconnected alternate:
/// `Connected` comes first, each `Disconnected` follows a `Connected`, and no
/// connection is reported twice.
pub proof fn lemma_lifecycle_alternates(inputs: Seq<ClientInput>)
    ensures
        alternates(emissions(ClientState::Connecting, inputs), Lifecycle::Connected),
        (run_client(ClientState::Connecting, inputs) == ClientState::Connected) ==> emissions(
            ClientState::Connecting,
            inputs,
        ).len() % 2 == 1,
        (run_client(ClientState::Connecting, inputs) == ClientState::Connecting || run_client(
            ClientState::Connecting,
            inputs,
        ) == ClientState::Waiting) ==> emissions(ClientState::Connecting, inputs).len() % 2 == 0,
    decreases inputs.len(),
{
    if inputs.len() > 0 {
        lemma_lifecycle_alternates(inputs.drop_last());
    }
}

/// The inputs of `failures` attempts that find no listener, each followed by
/// its backoff.
pub open spec fn failed_attempts(failures: nat) -> Seq<ClientInput>
    decreases failures,
{
    if failures == 0 {
        Seq::empty()
    } else {
        failed_attempts((failures - 1) as nat).push(ClientInput::ConnectFailed).push(
            ClientInput::BackoffElapsed,
        )
    }
}

/// However often a client finds no listener, it emits nothing while it
/// retries and is ready for the next attempt after each backoff.
pub proof fn lemma_retries_are_silent(failures: nat)
    ensures
        run_client(ClientState::Connecting, failed_attempts(failures)) == ClientState::Connecting,
        emissions(ClientState::Connecting, failed_attempts(failures)) == Seq::<Lifecycle>::empty(),
    decreases failures,
{
    if failures > 0 {
        lemma_retries_are_silent((failures - 1) as nat);
        let shorter = failed_attempts((failures - 1) as nat);
        let failed = shorter.push(ClientInput::ConnectFailed);
        let all = failed.push(ClientInput::BackoffElapsed);
        assert(failed.drop_last() =~= shorter);
        assert(all.drop_last() =~= failed);
        assert(run_client(ClientState::Connecting, failed) == ClientState::Waiting);
        assert(emissions(ClientState::Connecting, failed) == Seq::<Lifecycle>::empty());
    }
}

/// A client that finds no listener any number of times, waits out the
/// backoff each time and then connects emits exactly one `Connected`, and
/// nothing before it.
pub proof fn lemma_retry_then_connect(failures: nat)
    ensures
        emissions(
            ClientState::Connecting,
            failed_attempts(failures).push(ClientInput::ConnectSucceeded),
        ) == seq![Lifecycle::Connected],
        run_client(
            ClientState::Connecting,
            failed_attempts(failures).push(ClientInput::ConnectSucceeded),
        ) == ClientState::Connected,
{
    lemma_retries_are_silent(failures);
    let before = failed_attempts(failures);
    let all = before.push(ClientInput::ConnectSucceeded);
    assert(all.drop_last() =~= before);
    assert(emissions(ClientState::Connecting, all) =~= seq![Lifecycle::Connected]);
}

/// What the program does next for a client.
#[derive(Clone, Copy, Debug, PartialEq, Eq, Structural)]
pub enum Directive {
    /// Try to connect to the endpoint.
    Connect,
    /// Read frames and write outbound messages.
    Serve,
    /// Sleep for this many seconds, then report `BackoffElapsed`.
    Sleep(u64),
    /// End the client's task.
    Halt,
}

/// What the program does for a client in `state`.
pub open spec fn directive_of(state: ClientState) -> Directive {
    match state {
        ClientState::Connecting => Directive::Connect,
        ClientState::Connected => Directive::Serve,
        ClientState::Waiting => Directive::Sleep(BACKOFF_SECS),
        ClientState::Stopped => Directive::Halt,
    }
}

/// An event of a client's stream.
#[derive(Debug)]
pub enum ClientMessage {
    /// The connection was made.
    Connected,
    /// The connection was lost.
    Disconnected,
    /// The peer sent this text.
    Payload(String),
}

/// What an event of a client's stream holds.
pub enum ClientMessageModel {
    Connected,
    Disconnected,
    Payload(Seq<char>),
}

impl View for ClientMessage {
    type V = ClientMessageModel;

    open spec fn view(&self) -> ClientMessageModel {
        match self {
            ClientMessage::Connected => ClientMessageModel::Connected,
            ClientMessage::Disconnected => ClientMessageModel::Disconnected,
            ClientMessage::Payload(body) => ClientMessageModel::Payload(body@),
        }
    }
}

/// The view of an optional event.
pub open spec fn message_view(r: Option<ClientMessage>) -> Option<ClientMessageModel> {
    match r {
        Some(m) => Some(m@),
        None => None,
    }
}

/// The event for a lifecycle change.
pub open spec fn lifecycle_message(event: Option<Lifecycle>) -> Option<ClientMessageModel> {
    match event {
        Some(Lifecycle::Connected) => Some(ClientMessageModel::Connected),
        Some(Lifecycle::Disconnected) => Some(ClientMessageModel::Disconnected),
        None => None,
    }
}

/// The text that tells a single-peer bridge of an event: a command object
/// for the two lifecycle events, the payload itself otherwise.
pub open spec fn notice_text(message: ClientMessageModel) -> Seq<char> {
    match message {
        ClientMessageModel::Connected => "{\"command\":\"connected\"}"@,
        ClientMessageModel::Disconnected => "{\"command\":\"disconnected\"}"@,
        ClientMessageModel::Payload(body) => body,
    }
}

impl ClientMessage {
    /// The text that tells a single-peer bridge of this event.
    pub fn notice(&self) -> (text: String)
        ensures
            text@ == notice_text(self@),
    {
        match self {
            ClientMessage::Connected => "{\"command\":\"connected\"}".to_owned(),
            ClientMessage::Disconnected => "{\"command\":\"disconnected\"}".to_owned(),
            ClientMessage::Payload(body) => body.clone(),
        }
    }
}

/// A client: where it stands in its reconnect cycle, and the byte order of
/// its frames.
pub struct Client {
    state: ClientState,
    order: ByteOrder,
}

impl Client {
    /// Where the client stands.
    pub closed spec fn spec_state(&self) -> ClientState {
        self.state
    }

    /// The byte order of the client's frames.
    pub closed spec fn spec_order(&self) -> ByteOrder {
        self.order
    }

    /// A client that is about to make its first attempt.
    pub fn new(order: ByteOrder) -> (client: Client)
        ensures
            client.spec_state() == ClientState::Connecting,
            client.spec_order() == order,
    {
        Client { state: ClientState::Connecting, order }
    }

    /// Where the client stands.
    pub fn state(&self) -> (state: ClientState)
        ensures
            state == self.spec_state(),
    {
        self.state
    }

    /// What the program does next.
    pub fn directive(&self) -> (directive: Directive)
        ensures
            directive == directive_of(self.spec_state()),
    {
        match self.state {
            ClientState::Connecting => Directive::Connect,
            ClientState::Connected => Directive::Serve,
            ClientState::Waiting => Directive::Sleep(BACKOFF_SECS),
            ClientState::Stopped => Directive::Halt,
        }
    }

    /// Takes one report from the program, moves on in the cycle and returns
    /// the lifecycle event to emit, if the report calls for one.
    pub fn handle(&mut self, input: ClientInput) -> (r: Option<ClientMessage>)
        ensures
            final(self).spec_state() == next_state(old(self).spec_state(), input),
            final(self).spec_order() == old(self).spec_order(),
            message_view(r) == lifecycle_message(emitted(old(self).spec_state(), input)),
    {
        let state = self.state;
        match state {
            ClientState::Stopped => None,
            ClientState::Connecting => match input {
                ClientInput::Stop => {
                    self.state = ClientState::Stopped;
                    None
                },
                ClientInput::ConnectSucceeded => {
                    self.state = ClientState::Connected;
                    Some(ClientMessage::Connected)
                },
                ClientInput::ConnectFailed => {
                    self.state = ClientState::Waiting;
                    None
                },
                _ => None,
            },
            ClientState::Waiting => match input {
                ClientInput::Stop => {
                    self.state = ClientState::Stopped;
                    None
                },
                ClientInput::BackoffElapsed => {
                    self.state = ClientState::Connecting;
                    None
                },
                _ => None,
            },
            ClientState::Connected => match input {
                ClientInput::Stop => {
                    self.state = ClientState::Stopped;
                    None
                },
                ClientInput::ReadFailed => {
                    self.state = ClientState::Waiting;
                    Some(ClientMessage::Disconnected)
                },
                ClientInput::WriteFailed => {
                    self.state = ClientState::Waiting;
                    Some(ClientMessage::Disconnected)
                },
                _ => None,
            },
        }
    }

    /// Turns a frame that was read into its `Payload` event. A client that
    /// is not connected yields none: after `Disconnected` nothing more is
    /// delivered until the next `Connected`.
    pub fn frame_read(&self, body: String) -> (r: Option<ClientMessage>)
        ensures
            message_view(r) == if self.spec_state() == ClientState::Connected {
                Some(ClientMessageModel::Payload(body@))
            } else {
                None
            },
    {
        match self.state {
            ClientState::Connected => Some(ClientMessage::Payload(body)),
            _ => None,
        }
    }

    /// Frames one outbound message for the channel. `Ok(None)` where the
    /// client is not connected: the message stays with the caller.
    pub fn outgoing(&self, message: &str) -> (r: Result<Option<Vec<u8>>, FramingError>)
        ensures
            match r {
                Ok(Some(frame)) => self.spec_state() == ClientState::Connected && write_result(
                    message.spec_bytes(),
                    self.spec_order(),
                ) == Ok::<Seq<u8>, FramingError>(frame@),
                Ok(None) => self.spec_state() != ClientState::Connected,
                Err(e) => self.spec_state() == ClientState::Connected && write_result(
                    message.spec_bytes(),
                    self.spec_order(),
                ) == Err::<Seq<u8>, FramingError>(e),
            },
    {
        match self.state {
            ClientState::Connected => match write_frame(message.as_bytes(), self.order) {
                Ok(frame) => Ok(Some(frame)),
                Err(e) => Err(e),
            },
            _ => Ok(None),
        }
    }
}

/// The error of the client binding.
#[derive(Clone, Copy, Debug, PartialEq, Eq, Structural)]
pub enum IpcError {
    /// The one error that the binding reports.
    Test,
}

impl IpcError {
    /// The text of the error.
    pub fn message(&self) -> (text: String)
        ensures
            text@ == "test"@,
    {
        match self {
            IpcError::Test => "test".to_owned(),
        }
    }
}

/// What the host of a client binding implements to be told of each message
/// that arrives.
pub trait MessageCallback: Send {
    /// Called with each message, in the order of arrival.
    fn message(&self, message: String);
}

/// The outbound queue of a client binding: callers append, the channel takes
/// from the front, so messages leave in the order in which they were sent.
#[derive(Debug)]
pub struct IpcClient {
    messages: VecDeque<String>,
}

impl View for IpcClient {
    type V = Seq<String>;

    closed spec fn view(&self) -> Seq<String> {
        self.messages@
    }
}

impl IpcClient {
    /// A binding with nothing queued.
    pub fn new() -> (client: IpcClient)
        ensures
            client@ == Seq::<String>::empty(),
    {
        IpcClient { messages: VecDeque::new() }
    }

    /// Queues `message` behind what waits already.
    pub fn send(&mut self, message: String)
        ensures
            final(self)@ == old(self)@.push(message),
    {
        self.messages.push_back(message);
    }

    /// Takes the message that has waited longest, if any waits.
    pub fn next_outgoing(&mut self) -> (r: Option<String>)
        ensures
            match r {
                Some(message) => {
                    &&& old(self)@.len() > 0
                    &&& message == old(self)@[0]
                    &&& final(self)@ == old(self)@.subrange(1, old(self)@.len() as int)
                },
                None => old(self)@.len() == 0 && final(self)@ == old(self)@,
            },
    {
        self.messages.pop_front()
    }

    /// How many messages wait.
    pub fn queued(&self) -> (count: usize)
        ensures
            count == self@.len(),
    {
        self.messages.len()
    }
}

} // verus!
