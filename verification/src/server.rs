//! The server's side of the bus: client identifiers, the registry of live
//! connections, and the events that the read loops hand to the owning process.
//!
//! The surrounding program accepts connections, reads frames and writes them;
//! it reports each of those here and acts on what comes back. The registry is
//! owned state: a program that touches it from several tasks keeps it behind
//! one lock.

use crate::framing::{write_frame, write_result, ByteOrder, FramingError};
use vstd::prelude::*;
use vstd::string::StringSliceAdditionalSpecFns;

verus! {

/// What an event is about.
#[derive(Clone, Copy, Debug, PartialEq, Eq, Structural)]
pub enum MessageType {
    /// A client connected.
    Connected,
    /// A client went away.
    Disconnected,
    /// A client sent a payload.
    Message,
}

/// One event of the server: a client connected, went away, or sent a payload.
#[derive(Debug)]
pub struct Message {
    /// The client that the event is about.
    pub client_id: u32,
    /// What happened.
    pub kind: MessageType,
    /// The payload; for the two lifecycle events, their name.
    pub message: String,
}

/// What an event holds.
pub struct MessageModel {
    /// The client that the event is about.
    pub client_id: u32,
    /// What happened.
    pub kind: MessageType,
    /// The payload; for the two lifecycle events, their name.
    pub message: Seq<char>,
}

impl View for Message {
    type V = MessageModel;

    open spec fn view(&self) -> MessageModel {
        MessageModel { client_id: self.client_id, kind: self.kind, message: self.message@ }
    }
}

/// The event that client `client_id` connected.
pub open spec fn connected_event(client_id: u32) -> MessageModel {
    MessageModel { client_id, kind: MessageType::Connected, message: "Connected"@ }
}

/// The event that client `client_id` went away.
pub open spec fn disconnected_event(client_id: u32) -> MessageModel {
    MessageModel { client_id, kind: MessageType::Disconnected, message: "Disconnected"@ }
}

/// The event that client `client_id` sent `body`.
pub open spec fn payload_event(client_id: u32, body: Seq<char>) -> MessageModel {
    MessageModel { client_id, kind: MessageType::Message, message: body }
}

/// The view of an optional event.
pub open spec fn event_view(r: Option<Message>) -> Option<MessageModel> {
    match r {
        Some(m) => Some(m@),
        None => None,
    }
}

impl Message {
    /// The event that client `client_id` connected.
    pub fn connected(client_id: u32) -> (m: Message)
        ensures
            m@ == connected_event(client_id),
    {
        Message { client_id, kind: MessageType::Connected, message: "Connected".to_owned() }
    }

    /// The event that client `client_id` went away.
    pub fn disconnected(client_id: u32) -> (m: Message)
        ensures
            m@ == disconnected_event(client_id),
    {
        Message { client_id, kind: MessageType::Disconnected, message: "Disconnected".to_owned() }
    }

    /// The event that client `client_id` sent `body`.
    pub fn payload(client_id: u32, body: String) -> (m: Message)
        ensures
            m@ == payload_event(client_id, body@),
    {
        Message { client_id, kind: MessageType::Message, message: body }
    }
}

/// A live connection: its identifier and the handle that writes to it.
pub struct Connection<W> {
    /// The identifier that the server gave the client when it accepted it.
    pub client_id: u32,
    /// The handle that writes to the client.
    pub writer: W,
}

/// The mathematical state of a server.
pub struct ServerState<W> {
    /// The identifier that the next accepted client gets.
    pub next_client_id: u32,
    /// The live connections, in the order in which they were accepted.
    pub live: Seq<Connection<W>>,
    /// Whether the server still accepts connections.
    pub running: bool,
}

impl<W> ServerState<W> {
    /// A server that has just started: no client yet, the first gets 1.
    pub open spec fn initial() -> Self {
        ServerState { next_client_id: 1, live: Seq::empty(), running: true }
    }

    /// The identifiers of the live connections, in order.
    pub open spec fn ids(self) -> Seq<u32> {
        self.live.map_values(|c: Connection<W>| c.client_id)
    }

    /// Identifiers start at 1, every live one was handed out, and the live
    /// ones strictly increase: no identifier has two connections.
    pub open spec fn wf(self) -> bool {
        &&& self.next_client_id >= 1
        &&& forall|i: int|
            0 <= i < self.live.len() ==> 1 <= (#[trigger] self.live[i]).client_id
                < self.next_client_id
        &&& forall|i: int, j: int|
            0 <= i < j < self.live.len() ==> (#[trigger] self.live[i]).client_id < (
            #[trigger] self.live[j]).client_id
    }

    /// Whether client `client_id` has a live connection.
    pub open spec fn is_live(self, client_id: u32) -> bool {
        exists|i: int| 0 <= i < self.live.len() && (#[trigger] self.live[i]).client_id == client_id
    }

    /// The place of client `client_id` among the live connections.
    pub open spec fn position(self, client_id: u32) -> int
        recommends
            self.is_live(client_id),
    {
        choose|i: int| 0 <= i < self.live.len() && (#[trigger] self.live[i]).client_id == client_id
    }

    /// Whether a connection that arrives now is taken in.
    pub open spec fn can_accept(self) -> bool {
        self.running && self.next_client_id < u32::MAX
    }

    /// The state after a connection with handle `writer` arrived.
    pub open spec fn accept(self, writer: W) -> Self {
        if self.can_accept() {
            ServerState {
                next_client_id: (self.next_client_id + 1) as u32,
                live: self.live.push(Connection { client_id: self.next_client_id, writer }),
                running: self.running,
            }
        } else {
            self
        }
    }

    /// The state after client `client_id` was dropped: its connection is gone,
    /// every other one is where it was.
    pub open spec fn disconnect(self, client_id: u32) -> Self {
        if self.is_live(client_id) {
            ServerState {
                next_client_id: self.next_client_id,
                live: self.live.remove(self.position(client_id)),
                running: self.running,
            }
        } else {
            self
        }
    }

    /// The state after the server stopped: no connection is left and none is
    /// taken in any more.
    pub open spec fn stop(self) -> Self {
        ServerState { next_client_id: self.next_client_id, live: Seq::empty(), running: false }
    }
}

/// In a well-formed state a live client sits at exactly one place.
pub proof fn lemma_position_unique<W>(s: ServerState<W>, client_id: u32, i: int)
    requires
        s.wf(),
        0 <= i < s.live.len(),
        s.live[i].client_id == client_id,
    ensures
        s.is_live(client_id),
        s.position(client_id) == i,
{
    let p = s.position(client_id);
    if p < i {
        assert(s.live[p].client_id < s.live[i].client_id);
    } else if i < p {
        assert(s.live[i].client_id < s.live[p].client_id);
    }
}

/// Accepting keeps a state well formed; the new client is live, got the
/// identifier that was next, and no connection that was live before has it.
pub proof fn lemma_accept<W>(s: ServerState<W>, writer: W)
    requires
        s.wf(),
        s.can_accept(),
    ensures
        s.accept(writer).wf(),
        !s.is_live(s.next_client_id),
        s.accept(writer).is_live(s.next_client_id),
        s.accept(writer).next_client_id == s.next_client_id + 1,
        forall|id: u32| s.is_live(id) ==> s.accept(writer).is_live(id),
{
    let t = s.accept(writer);
    assert(t.live[s.live.len() as int].client_id == s.next_client_id);
    assert forall|id: u32| s.is_live(id) implies t.is_live(id) by {
        let i = s.position(id);
        assert(t.live[i].client_id == id);
    }
}

/// Dropping one client keeps a state well formed and touches no other client:
/// the dropped one is gone, every other live one stays live with its handle,
/// in the same order, and nobody becomes live.
pub proof fn lemma_disconnect_isolated<W>(s: ServerState<W>, client_id: u32)
    requires
        s.wf(),
    ensures
        s.disconnect(client_id).wf(),
        !s.disconnect(client_id).is_live(client_id),
        forall|other: u32|
            other != client_id ==> (s.disconnect(client_id).is_live(other) <==> s.is_live(other)),
        forall|other: u32|
            other != client_id && s.is_live(other) ==> s.disconnect(client_id).live[s.disconnect(
                client_id,
            ).position(other)] == s.live[s.position(other)],
        s.is_live(client_id) ==> s.disconnect(client_id).live.len() == s.live.len() - 1,
        !s.is_live(client_id) ==> s.disconnect(client_id) == s,
{
    let t = s.disconnect(client_id);
    if s.is_live(client_id) {
        let p = s.position(client_id);
        assert forall|i: int| 0 <= i < t.live.len() implies #[trigger] t.live[i] == s.live[if i
            < p {
            i
        } else {
            i + 1
        }] by {}
        assert(t.wf()) by {
            assert forall|i: int, j: int| 0 <= i < j < t.live.len() implies (
            #[trigger] t.live[i]).client_id < (#[trigger] t.live[j]).client_id by {
                let si = if i < p {
                    i
                } else {
                    i + 1
                };
                let sj = if j < p {
                    j
                } else {
                    j + 1
                };
                assert(s.live[si].client_id < s.live[sj].client_id);
            }
            assert forall|i: int| 0 <= i < t.live.len() implies 1 <= (
            #[trigger] t.live[i]).client_id < t.next_client_id by {
                let si = if i < p {
                    i
                } else {
                    i + 1
                };
                assert(1 <= s.live[si].client_id < s.next_client_id);
            }
        }
        if t.is_live(client_id) {
            let q = t.position(client_id);
            let sq = if q < p {
                q
            } else {
                q + 1
            };
            lemma_position_unique(s, client_id, sq);
        }
        assert forall|other: u32| other != client_id implies (t.is_live(other) <==> s.is_live(
            other,
        )) by {
            if s.is_live(other) {
                let i = s.position(other);
                let ti = if i < p {
                    i
                } else {
                    i - 1
                };
                assert(t.live[ti].client_id == other);
            }
            if t.is_live(other) {
                let i = t.position(other);
                let si = if i < p {
                    i
                } else {
                    i + 1
                };
                assert(s.live[si].client_id == other);
            }
        }
        assert forall|other: u32| other != client_id && s.is_live(other) implies t.live[t.position(
            other,
        )] == s.live[s.position(other)] by {
            let i = t.position(other);
            let si = if i < p {
                i
            } else {
                i + 1
            };
            lemma_position_unique(s, other, si);
        }
    } else {
        assert forall|other: u32| other != client_id implies (t.is_live(other) <==> s.is_live(
            other,
        )) by {}
    }
}

/// One thing that happens to a server.
pub enum ServerOp<W> {
    /// A connection with this handle arrived.
    Accept(W),
    /// A read or a write failed for this client.
    Disconnect(u32),
    /// The server stopped.
    Stop,
}

/// The state after `ops` happened in order from `s`.
pub open spec fn run_server<W>(s: ServerState<W>, ops: Seq<ServerOp<W>>) -> ServerState<W>
    decreases ops.len(),
{
    if ops.len() == 0 {
        s
    } else {
        let before = run_server(s, ops.drop_last());
        match ops.last() {
            ServerOp::Accept(writer) => before.accept(writer),
            ServerOp::Disconnect(client_id) => before.disconnect(client_id),
            ServerOp::Stop => before.stop(),
        }
    }
}

/// The identifier that event `i` of `ops` hands out: `Some` for a connection
/// that is taken in.
pub open spec fn assigned_at<W>(s: ServerState<W>, ops: Seq<ServerOp<W>>, i: int) -> Option<u32>
    recommends
        0 <= i < ops.len(),
{
    let before = run_server(s, ops.take(i));
    match ops[i] {
        ServerOp::Accept(_) => if before.can_accept() {
            Some(before.next_client_id)
        } else {
            None
        },
        _ => None,
    }
}

/// Whatever happens keeps a server well formed, and the next identifier never
/// goes down.
pub proof fn lemma_run_server_wf<W>(s: ServerState<W>, ops: Seq<ServerOp<W>>)
    requires
        s.wf(),
    ensures
        run_server(s, ops).wf(),
        s.next_client_id <= run_server(s, ops).next_client_id,
    decreases ops.len(),
{
    if ops.len() > 0 {
        let before = run_server(s, ops.drop_last());
        lemma_run_server_wf(s, ops.drop_last());
        match ops.last() {
            ServerOp::Accept(writer) => {
                if before.can_accept() {
                    lemma_accept(before, writer);
                }
            },
            ServerOp::Disconnect(client_id) => {
                lemma_disconnect_isolated(before, client_id);
            },
            ServerOp::Stop => {},
        }
    }
}

/// Client identifiers strictly increase and are never used again: of two
/// connections that were taken in, the later one got the larger identifier,
/// whatever happened in between.
pub proof fn lemma_client_ids_increase<W>(
    s: ServerState<W>,
    ops: Seq<ServerOp<W>>,
    i: int,
    j: int,
)
    requires
        s.wf(),
        0 <= i < j < ops.len(),
        assigned_at(s, ops, i) is Some,
        assigned_at(s, ops, j) is Some,
    ensures
        assigned_at(s, ops, i)->Some_0 < assigned_at(s, ops, j)->Some_0,
{
    let before_i = run_server(s, ops.take(i));
    let after_i = run_server(s, ops.take(i + 1));
    assert(ops.take(i + 1).drop_last() =~= ops.take(i));
    assert(ops.take(i + 1).last() == ops[i]);
    assert(after_i.next_client_id == before_i.next_client_id + 1);
    lemma_server_monotonic(s, ops, i + 1, j);
}

/// The next identifier after a longer run is at least what it was after a
/// shorter one.
pub proof fn lemma_server_monotonic<W>(s: ServerState<W>, ops: Seq<ServerOp<W>>, i: int, j: int)
    requires
        s.wf(),
        0 <= i <= j <= ops.len(),
    ensures
        run_server(s, ops.take(i)).next_client_id <= run_server(s, ops.take(j)).next_client_id,
    decreases j - i,
{
    if i < j {
        lemma_server_monotonic(s, ops, i, j - 1);
        assert(ops.take(j).drop_last() =~= ops.take(j - 1));
    }
}

/// A client that went away stays away: its identifier is never handed out
/// again, so whatever happens later it has no live connection. Its
/// `Disconnected` event cannot come a second time, and no payload is
/// delivered for it any more.
pub proof fn lemma_gone_stays_gone<W>(s: ServerState<W>, client_id: u32, ops: Seq<ServerOp<W>>)
    requires
        s.wf(),
        client_id < s.next_client_id,
        !s.is_live(client_id),
    ensures
        !run_server(s, ops).is_live(client_id),
    decreases ops.len(),
{
    if ops.len() > 0 {
        let before = run_server(s, ops.drop_last());
        let after = run_server(s, ops);
        lemma_gone_stays_gone(s, client_id, ops.drop_last());
        lemma_run_server_wf(s, ops.drop_last());
        match ops.last() {
            ServerOp::Accept(writer) => {
                if before.can_accept() && after.is_live(client_id) {
                    let p = after.position(client_id);
                    if p < before.live.len() {
                        assert(before.live[p].client_id == client_id);
                    }
                }
            },
            ServerOp::Disconnect(dropped) => {
                lemma_disconnect_isolated(before, dropped);
            },
            ServerOp::Stop => {},
        }
    }
}

/// The first client of a fresh server gets 1, the second 2.
pub proof fn lemma_first_identifiers<W>(a: W, b: W)
    ensures
        ServerState::<W>::initial().wf(),
        ServerState::<W>::initial().next_client_id == 1,
        ServerState::<W>::initial().accept(a).next_client_id == 2,
        ServerState::<W>::initial().accept(a).accept(b).ids() == seq![1u32, 2u32],
{
    let s = ServerState::<W>::initial().accept(a).accept(b);
    assert(s.ids() =~= seq![1u32, 2u32]);
}

/// The server: the registry of live connections and the counter for client
/// identifiers. `W` is the program's write handle; the server keeps it and
/// never looks into it.
pub struct Server<W> {
    next_client_id: u32,
    connections: Vec<Connection<W>>,
    running: bool,
}

impl<W> View for Server<W> {
    type V = ServerState<W>;

    closed spec fn view(&self) -> ServerState<W> {
        ServerState {
            next_client_id: self.next_client_id,
            live: self.connections@,
            running: self.running,
        }
    }
}

impl<W> Server<W> {
    /// Whether the server is well formed.
    pub open spec fn wf(&self) -> bool {
        self@.wf()
    }

    /// A server that has just started.
    pub fn new() -> (server: Self)
        ensures
            server@ == ServerState::<W>::initial(),
            server.wf(),
    {
        Server { next_client_id: 1, connections: Vec::new(), running: true }
    }

    /// Whether the server still accepts connections.
    pub fn is_running(&self) -> (running: bool)
        ensures
            running == self@.running,
    {
        self.running
    }

    /// How many connections are live.
    pub fn connection_count(&self) -> (count: usize)
        ensures
            count == self@.live.len(),
    {
        self.connections.len()
    }

    /// The place of client `client_id` among the live connections.
    fn find(&self, client_id: u32) -> (r: Option<usize>)
        requires
            self.wf(),
        ensures
            match r {
                Some(i) => self@.is_live(client_id) && i == self@.position(client_id),
                None => !self@.is_live(client_id),
            },
    {
        let mut i: usize = 0;
        while i < self.connections.len()
            invariant
                i <= self.connections.len(),
                self.wf(),
                forall|k: int| 0 <= k < i ==> (#[trigger] self@.live[k]).client_id != client_id,
            decreases self.connections.len() - i,
        {
            if self.connections[i].client_id == client_id {
                proof {
                    lemma_position_unique(self@, client_id, i as int);
                }
                return Some(i);
            }
            i = i + 1;
        }
        None
    }

    /// Whether client `client_id` has a live connection.
    pub fn is_connected(&self, client_id: u32) -> (live: bool)
        requires
            self.wf(),
        ensures
            live == self@.is_live(client_id),
    {
        self.find(client_id).is_some()
    }

    /// Takes in a connection: gives it the next identifier, registers its
    /// write handle and returns the `Connected` event. A server that was
    /// stopped, or that has no identifier left, refuses and gives the handle
    /// back.
    pub fn accept(&mut self, writer: W) -> (r: Result<Message, W>)
        requires
            old(self).wf(),
        ensures
            final(self).wf(),
            final(self)@ == old(self)@.accept(writer),
            match r {
                Ok(event) => old(self)@.can_accept() && event@ == connected_event(
                    old(self)@.next_client_id,
                ),
                Err(handle) => !old(self)@.can_accept() && handle == writer,
            },
    {
        if !self.running || self.next_client_id == u32::MAX {
            return Err(writer);
        }
        let client_id: u32 = self.next_client_id;
        proof {
            lemma_accept(self@, writer);
        }
        self.connections.push(Connection { client_id, writer });
        self.next_client_id = client_id + 1;
        Ok(Message::connected(client_id))
    }

    /// Turns a frame that was read from client `client_id` into its `Message`
    /// event. A client that is not live gets none: after its `Disconnected`
    /// nothing more is delivered for it.
    pub fn frame_read(&self, client_id: u32, body: String) -> (r: Option<Message>)
        requires
            self.wf(),
        ensures
            event_view(r) == if self@.is_live(client_id) {
                Some(payload_event(client_id, body@))
            } else {
                None
            },
    {
        if self.is_connected(client_id) {
            Some(Message::payload(client_id, body))
        } else {
            None
        }
    }

    /// Drops client `client_id` after its first failure and returns its
    /// `Disconnected` event; `None`, and nothing changes, where the client is
    /// not live.
    fn drop_client(&mut self, client_id: u32) -> (r: Option<Message>)
        requires
            old(self).wf(),
        ensures
            final(self).wf(),
            final(self)@ == old(self)@.disconnect(client_id),
            event_view(r) == if old(self)@.is_live(client_id) {
                Some(disconnected_event(client_id))
            } else {
                None
            },
    {
        proof {
            lemma_disconnect_isolated(self@, client_id);
        }
        match self.find(client_id) {
            Some(i) => {
                let _ = self.connections.remove(i);
                Some(Message::disconnected(client_id))
            },
            None => None,
        }
    }

    /// Reports that reading from client `client_id` failed or reached the
    /// end: the client is dropped and its `Disconnected` event returned. A
    /// client that is not live yields nothing, so the event comes at most
    /// once.
    pub fn read_failed(&mut self, client_id: u32) -> (r: Option<Message>)
        requires
            old(self).wf(),
        ensures
            final(self).wf(),
            final(self)@ == old(self)@.disconnect(client_id),
            event_view(r) == if old(self)@.is_live(client_id) {
                Some(disconnected_event(client_id))
            } else {
                None
            },
    {
        self.drop_client(client_id)
    }

    /// Reports that writing to client `client_id` failed: that client alone is
    /// dropped, and its `Disconnected` event returned. A client that is not
    /// live yields nothing.
    pub fn write_failed(&mut self, client_id: u32) -> (r: Option<Message>)
        requires
            old(self).wf(),
        ensures
            final(self).wf(),
            final(self)@ == old(self)@.disconnect(client_id),
            event_view(r) == if old(self)@.is_live(client_id) {
                Some(disconnected_event(client_id))
            } else {
                None
            },
    {
        self.drop_client(client_id)
    }

    /// The clients that a broadcast which starts now writes to, in the order
    /// in which they were accepted. Their number is the broadcast's attempted
    /// count: it counts every connection that was live when the broadcast
    /// began, also those whose write then fails.
    pub fn recipients(&self) -> (ids: Vec<u32>)
        ensures
            ids@ == self@.ids(),
    {
        let mut ids: Vec<u32> = Vec::new();
        let mut i: usize = 0;
        while i < self.connections.len()
            invariant
                i <= self.connections.len(),
                ids@ == self@.ids().take(i as int),
            decreases self.connections.len() - i,
        {
            ids.push(self.connections[i].client_id);
            i = i + 1;
            assert(ids@ =~= self@.ids().take(i as int));
        }
        assert(self@.ids().take(i as int) =~= self@.ids());
        ids
    }

    /// The write handle of client `client_id`, where it is live.
    pub fn writer(&self, client_id: u32) -> (r: Option<&W>)
        requires
            self.wf(),
        ensures
            match r {
                Some(w) => self@.is_live(client_id) && *w == self@.live[self@.position(
                    client_id,
                )].writer,
                None => !self@.is_live(client_id),
            },
    {
        match self.find(client_id) {
            Some(i) => Some(&self.connections[i].writer),
            None => None,
        }
    }

    /// Stops the server: every tracked connection is dropped and none is
    /// taken in any more. Returns how many connections were dropped.
    pub fn stop(&mut self) -> (dropped: usize)
        requires
            old(self).wf(),
        ensures
            final(self).wf(),
            final(self)@ == old(self)@.stop(),
            dropped == old(self)@.live.len(),
    {
        let dropped: usize = self.connections.len();
        self.connections = Vec::new();
        self.running = false;
        dropped
    }
}

/// A broadcast that is ready to be written: one frame and the clients that
/// get it.
#[derive(Debug)]
pub struct Broadcast {
    /// The message as one frame.
    pub frame: Vec<u8>,
    /// The clients to write the frame to, in the order in which they were
    /// accepted.
    pub recipients: Vec<u32>,
}

impl Broadcast {
    /// The number of clients that the broadcast writes to. It counts every
    /// connection that was live when the broadcast began, also one whose
    /// write then fails; how many writes arrive it does not say.
    pub fn attempted_count(&self) -> (count: usize)
        ensures
            count == self.recipients@.len(),
    {
        self.recipients.len()
    }
}

/// What preparing a broadcast yields: the frame and its recipients, or the
/// reason why the message cannot be framed.
pub open spec fn broadcast_result<W>(
    s: ServerState<W>,
    message: Seq<u8>,
    order: ByteOrder,
) -> Result<(Seq<u8>, Seq<u32>), FramingError> {
    match write_result(message, order) {
        Ok(frame) => Ok((frame, s.ids())),
        Err(e) => Err(e),
    }
}

/// The view of a prepared broadcast.
pub open spec fn broadcast_view(r: Result<Broadcast, FramingError>) -> Result<
    (Seq<u8>, Seq<u32>),
    FramingError,
> {
    match r {
        Ok(b) => Ok((b.frame@, b.recipients@)),
        Err(e) => Err(e),
    }
}

/// A broadcast to three clients of which the second fails on write still
/// goes to the first and the third: the failure drops the second alone, and
/// the attempted count, taken when the broadcast began, stays three.
pub proof fn lemma_failed_write_spares_the_rest<W>(s: ServerState<W>)
    requires
        s.wf(),
        s.live.len() == 3,
    ensures
        s.ids().len() == 3,
        s.disconnect(s.ids()[1]).ids() == seq![s.ids()[0], s.ids()[2]],
        s.disconnect(s.ids()[1]).live == seq![s.live[0], s.live[2]],
{
    let second = s.ids()[1];
    assert(s.live[1].client_id == second);
    lemma_position_unique(s, second, 1);
    let t = s.disconnect(second);
    assert(t.live =~= seq![s.live[0], s.live[2]]);
    assert(t.ids() =~= seq![s.ids()[0], s.ids()[2]]);
}

impl<W> Server<W> {
    /// Prepares a broadcast of `message`: frames it in the given byte order
    /// and lists every live client as a recipient. The program writes the
    /// frame to each of them and reports a failed write with `write_failed`,
    /// which drops that client alone.
    pub fn send_all(&self, message: &str, order: ByteOrder) -> (r: Result<Broadcast, FramingError>)
        ensures
            broadcast_view(r) == broadcast_result(self@, message.spec_bytes(), order),
    {
        match write_frame(message.as_bytes(), order) {
            Ok(frame) => Ok(Broadcast { frame, recipients: self.recipients() }),
            Err(e) => Err(e),
        }
    }
}

/// The outbound stack of a server that broadcasts on a timer: callers push,
/// the broadcaster takes the message that was pushed last.
pub struct IpcContext {
    messages: Vec<String>,
}

impl View for IpcContext {
    type V = Seq<String>;

    closed spec fn view(&self) -> Seq<String> {
        self.messages@
    }
}

impl IpcContext {
    /// A context with nothing to send.
    pub fn new() -> (context: IpcContext)
        ensures
            context@ == Seq::<String>::empty(),
    {
        IpcContext { messages: Vec::new() }
    }

    /// Leaves `message` for the broadcaster.
    pub fn send(&mut self, message: String)
        ensures
            final(self)@ == old(self)@.push(message),
    {
        self.messages.push(message);
    }

    /// Takes the message that was left last, if any is left.
    pub fn next_message(&mut self) -> (r: Option<String>)
        ensures
            match r {
                Some(message) => {
                    &&& old(self)@.len() > 0
                    &&& message == old(self)@.last()
                    &&& final(self)@ == old(self)@.drop_last()
                },
                None => old(self)@.len() == 0 && final(self)@ == old(self)@,
            },
    {
        self.messages.pop()
    }
}

} // verus!
