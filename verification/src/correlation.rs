//! The pending table of the correlation layer: every outbound request gets a
//! fresh sequence number and leaves its completion in the table; the first of
//! a matching reply and a send failure takes the completion out again, and
//! whatever comes second finds nothing.
//!
//! The table is owned state. Callers that share it put it behind one lock, so
//! that every operation here runs alone.

use crate::envelope::{
    decode, decode_result, document_of, encode, lemma_envelope_round_trip, BitwardenError,
    DecodeError, Envelope, EnvelopeModel,
};
use crate::json::{json_of, json_parse, json_text, Json};
use crate::passkey::{registration_request_document, PasskeyRegistrationRequest};
use std::collections::HashMap;
use vstd::prelude::*;
use vstd::string::StringExecFns;

verus! {

broadcast use vstd::std_specs::hash::group_hash_axioms;

/// The mathematical state of a pending table.
pub struct CorrelationState<C> {
    /// The sequence number that the next request gets.
    pub next: u64,
    /// The completions that wait, by sequence number.
    pub pending: Map<u64, C>,
}

impl<C> CorrelationState<C> {
    /// The state of a fresh table.
    pub open spec fn initial() -> Self {
        CorrelationState { next: 0, pending: Map::empty() }
    }

    /// Every waiting sequence number was issued: it lies below `next`.
    pub open spec fn wf(self) -> bool {
        &&& self.pending.dom().finite()
        &&& forall|k: u64| self.pending.contains_key(k) ==> k < self.next
    }

    /// No sequence number is left that was never issued.
    pub open spec fn exhausted(self) -> bool {
        self.next == u64::MAX
    }

    /// The state after a request with completion `c` was registered. An
    /// exhausted table stays as it is.
    pub open spec fn issue(self, c: C) -> Self {
        if self.exhausted() {
            self
        } else {
            CorrelationState {
                next: (self.next + 1) as u64,
                pending: self.pending.insert(self.next, c),
            }
        }
    }

    /// The state after the entry for `seq`, if any, was taken out.
    pub open spec fn take(self, seq: u64) -> Self {
        CorrelationState { next: self.next, pending: self.pending.remove(seq) }
    }
}

/// One operation on a pending table.
pub enum Op<C> {
    /// Register a request with this completion.
    Issue(C),
    /// Take out the entry for this sequence number: a reply arrived for it, or
    /// its send failed.
    Take(u64),
}

/// The state after the operations `ops` ran in order from `s`.
pub open spec fn run<C>(s: CorrelationState<C>, ops: Seq<Op<C>>) -> CorrelationState<C>
    decreases ops.len(),
{
    if ops.len() == 0 {
        s
    } else {
        let before = run(s, ops.drop_last());
        match ops.last() {
            Op::Issue(c) => before.issue(c),
            Op::Take(seq) => before.take(seq),
        }
    }
}

/// The sequence number that operation `i` of `ops` hands out when the
/// operations run in order from `s`: `Some` for an `Issue` on a table that is
/// not exhausted, `None` otherwise.
pub open spec fn issued_at<C>(s: CorrelationState<C>, ops: Seq<Op<C>>, i: int) -> Option<u64>
    recommends
        0 <= i < ops.len(),
{
    let before = run(s, ops.take(i));
    match ops[i] {
        Op::Issue(_) => if before.exhausted() {
            None
        } else {
            Some(before.next)
        },
        Op::Take(_) => None,
    }
}

/// Running operations keeps a table well formed and never lowers `next`.
pub proof fn lemma_run_wf<C>(s: CorrelationState<C>, ops: Seq<Op<C>>)
    requires
        s.wf(),
    ensures
        run(s, ops).wf(),
        s.next <= run(s, ops).next,
    decreases ops.len(),
{
    if ops.len() > 0 {
        lemma_run_wf(s, ops.drop_last());
    }
}

/// `next` only grows along a run: after a longer prefix it is at least what it
/// was after a shorter one.
pub proof fn lemma_run_monotonic<C>(s: CorrelationState<C>, ops: Seq<Op<C>>, i: int, j: int)
    requires
        s.wf(),
        0 <= i <= j <= ops.len(),
    ensures
        run(s, ops.take(i)).next <= run(s, ops.take(j)).next,
    decreases j - i,
{
    if i < j {
        lemma_run_monotonic(s, ops, i, j - 1);
        assert(ops.take(j).drop_last() =~= ops.take(j - 1));
    }
}

/// Sequence numbers never repeat: whatever operations run on one table, in
/// whatever order, two requests that both got a number got different ones.
pub proof fn lemma_sequence_numbers_distinct<C>(
    s: CorrelationState<C>,
    ops: Seq<Op<C>>,
    i: int,
    j: int,
)
    requires
        s.wf(),
        0 <= i < j < ops.len(),
        issued_at(s, ops, i) is Some,
        issued_at(s, ops, j) is Some,
    ensures
        issued_at(s, ops, i) != issued_at(s, ops, j),
{
    let before_i = run(s, ops.take(i));
    let after_i = run(s, ops.take(i + 1));
    assert(ops.take(i + 1).drop_last() =~= ops.take(i));
    assert(ops.take(i + 1).last() == ops[i]);
    assert(after_i.next == before_i.next + 1);
    lemma_run_monotonic(s, ops, i + 1, j);
}

/// A number that a request gets is not the number of any request that still
/// waits.
pub proof fn lemma_issued_number_is_fresh<C>(s: CorrelationState<C>, c: C)
    requires
        s.wf(),
        !s.exhausted(),
    ensures
        !s.pending.contains_key(s.next),
        s.issue(c).pending.contains_key(s.next),
        s.issue(c).pending[s.next] == c,
        s.issue(c).wf(),
{
}

/// A reply for a sequence number that was already resolved finds nothing and
/// changes nothing, whatever ran on the table in between.
pub proof fn lemma_stale_reply_dropped<C>(s: CorrelationState<C>, seq: u64, ops: Seq<Op<C>>)
    requires
        s.wf(),
        seq < s.next,
    ensures
        !run(s.take(seq), ops).pending.contains_key(seq),
        run(s.take(seq), ops).take(seq) == run(s.take(seq), ops),
    decreases ops.len(),
{
    let t = s.take(seq);
    assert(t.wf());
    if ops.len() > 0 {
        lemma_stale_reply_dropped(s, seq, ops.drop_last());
        lemma_run_wf(t, ops.drop_last());
    }
    let r = run(t, ops);
    assert(r.take(seq).pending =~= r.pending);
}

/// A request whose send fails leaves the table as it was before the request,
/// but for the number it used up.
pub proof fn lemma_failed_send_leaves_nothing<C>(s: CorrelationState<C>, c: C)
    requires
        s.wf(),
        !s.exhausted(),
    ensures
        s.issue(c).pending[s.next] == c,
        !s.issue(c).take(s.next).pending.contains_key(s.next),
        s.issue(c).take(s.next).pending == s.pending,
        s.issue(c).take(s.next).next == s.next + 1,
{
    assert(s.issue(c).take(s.next).pending =~= s.pending);
}

/// The pending table: the counter for sequence numbers and the completions
/// that wait for a reply. `C` is the caller's completion; the table never
/// looks into it and never copies it.
pub struct PendingTable<C> {
    next: u64,
    floor: u64,
    pending: HashMap<u64, C>,
}

impl<C> View for PendingTable<C> {
    type V = CorrelationState<C>;

    closed spec fn view(&self) -> CorrelationState<C> {
        CorrelationState { next: self.next, pending: self.pending@ }
    }
}

impl<C> PendingTable<C> {
    /// Whether the table is well formed.
    pub open spec fn wf(&self) -> bool {
        self@.wf() && self.floor_wf()
    }

    /// No completion waits below the mark up to which the table was last
    /// emptied.
    pub closed spec fn floor_wf(&self) -> bool {
        &&& self.floor <= self.next
        &&& forall|k: u64| self.pending@.contains_key(k) ==> self.floor <= k
    }

    /// An empty table whose first sequence number is 0.
    pub fn new() -> (table: Self)
        ensures
            table@ == CorrelationState::<C>::initial(),
            table.wf(),
    {
        PendingTable { next: 0, floor: 0, pending: HashMap::new() }
    }

    /// The sequence number that the next request gets.
    pub fn next_sequence_number(&self) -> (next: u64)
        ensures
            next == self@.next,
    {
        self.next
    }

    /// How many completions wait.
    pub fn pending_count(&self) -> (count: usize)
        ensures
            count == self@.pending.len(),
    {
        self.pending.len()
    }

    /// Whether a completion waits for `sequence_number`.
    pub fn is_pending(&self, sequence_number: u64) -> (waits: bool)
        ensures
            waits == self@.pending.contains_key(sequence_number),
    {
        self.pending.contains_key(&sequence_number)
    }

    /// Registers `completion` under the next sequence number and returns that
    /// number. A table that has handed out every number but the last refuses
    /// and gives the completion back, so that no number is ever used twice.
    pub fn add_callback(&mut self, completion: C) -> (r: Result<u64, C>)
        requires
            old(self).wf(),
        ensures
            final(self).wf(),
            final(self)@ == old(self)@.issue(completion),
            r == if old(self)@.exhausted() {
                Err::<u64, C>(completion)
            } else {
                Ok::<u64, C>(old(self)@.next)
            },
    {
        if self.next == u64::MAX {
            return Err(completion);
        }
        let sequence_number: u64 = self.next;
        self.pending.insert(sequence_number, completion);
        self.next = sequence_number + 1;
        Ok(sequence_number)
    }

    /// Takes the completion for `sequence_number` out of the table. `None`
    /// where none waits: the number is unknown, or a reply or a failed send
    /// resolved it before.
    pub fn take(&mut self, sequence_number: u64) -> (r: Option<C>)
        requires
            old(self).wf(),
        ensures
            final(self).wf(),
            final(self)@ == old(self)@.take(sequence_number),
            r == if old(self)@.pending.contains_key(sequence_number) {
                Some(old(self)@.pending[sequence_number])
            } else {
                None::<C>
            },
    {
        let r = self.pending.remove(&sequence_number);
        r
    }
}

/// A request that is ready for the channel: its sequence number and the text
/// of its envelope.
#[derive(Debug)]
pub struct Outbound {
    /// The sequence number that the reply will echo.
    pub sequence_number: u64,
    /// The envelope, as compact JSON text.
    pub wire: String,
}

/// A completion that was taken out of the table, with what it is owed. The
/// caller fires it: the success arm with the value, or the error arm with the
/// error.
#[derive(Debug)]
pub enum Delivery<C> {
    /// Fire the success arm with this value.
    Success { completion: C, value: serde_json::Value },
    /// Fire the error arm with this error.
    Failure { completion: C, error: BitwardenError },
}

/// What a delivery holds.
pub enum DeliveryModel<C> {
    /// The success arm, with the value's document.
    Success { completion: C, value: Json },
    /// The error arm, with the error's message.
    Failure { completion: C, message: Seq<char> },
}

impl<C> View for Delivery<C> {
    type V = DeliveryModel<C>;

    open spec fn view(&self) -> DeliveryModel<C> {
        match self {
            Delivery::Success { completion, value } => DeliveryModel::Success {
                completion: *completion,
                value: json_of(*value),
            },
            Delivery::Failure { completion, error } => DeliveryModel::Failure {
                completion: *completion,
                message: error@,
            },
        }
    }
}

/// What became of an inbound payload.
#[derive(Debug)]
pub enum Received<C> {
    /// The payload answers a waiting request: fire this.
    Delivered(Delivery<C>),
    /// The payload is an envelope, but nothing waits for its sequence number:
    /// it is reported and dropped, and no completion fires.
    Miss(u64),
    /// The payload is no envelope: it is reported and dropped.
    Undecodable(DecodeError),
}

/// What a reception holds.
pub enum ReceivedModel<C> {
    Delivered(DeliveryModel<C>),
    Miss(u64),
    Undecodable(DecodeError),
}

impl<C> View for Received<C> {
    type V = ReceivedModel<C>;

    open spec fn view(&self) -> ReceivedModel<C> {
        match self {
            Received::Delivered(delivery) => ReceivedModel::Delivered(delivery@),
            Received::Miss(sequence_number) => ReceivedModel::Miss(*sequence_number),
            Received::Undecodable(e) => ReceivedModel::Undecodable(*e),
        }
    }
}

/// The envelope of a request: the sequence number around the payload.
pub open spec fn request_envelope(sequence_number: u64, payload: Json) -> EnvelopeModel {
    EnvelopeModel { sequence_number, result: Ok(payload) }
}

/// The message of the error that a request gets which the table refused
/// because no sequence number is left.
pub open spec fn refusal_message() -> Seq<char> {
    "Error sending message: no sequence number is left"@
}

/// The message of the error that a failed send leaves with its completion.
pub open spec fn send_failure_message(cause: Seq<char>) -> Seq<char> {
    "Error sending message: "@ + cause
}

/// What the arrival of `envelope` yields on a table in state `s`: the
/// delivery that matches the envelope's arm, or a miss.
pub open spec fn resolution<C>(s: CorrelationState<C>, envelope: EnvelopeModel) -> ReceivedModel<C> {
    if s.pending.contains_key(envelope.sequence_number) {
        let completion = s.pending[envelope.sequence_number];
        match envelope.result {
            Ok(value) => ReceivedModel::Delivered(DeliveryModel::Success { completion, value }),
            Err(message) => ReceivedModel::Delivered(
                DeliveryModel::Failure { completion, message },
            ),
        }
    } else {
        ReceivedModel::Miss(envelope.sequence_number)
    }
}

/// What the arrival of a payload yields, by what the payload parses to.
pub open spec fn reception<C>(s: CorrelationState<C>, parsed: Option<Json>) -> ReceivedModel<C> {
    match decode_result(parsed) {
        Ok(envelope) => resolution(s, envelope),
        Err(e) => ReceivedModel::Undecodable(e),
    }
}

/// The state of a table after a payload arrived.
pub open spec fn state_after_reception<C>(
    s: CorrelationState<C>,
    parsed: Option<Json>,
) -> CorrelationState<C> {
    match decode_result(parsed) {
        Ok(envelope) => s.take(envelope.sequence_number),
        Err(_) => s,
    }
}

/// The sequence numbers from `lo` up to, not including, `hi` for which a
/// completion waits, in ascending order.
pub open spec fn waiting<C>(pending: Map<u64, C>, lo: int, hi: int) -> Seq<u64>
    decreases hi - lo,
{
    if lo >= hi {
        Seq::empty()
    } else if pending.contains_key((hi - 1) as u64) {
        waiting(pending, lo, hi - 1).push((hi - 1) as u64)
    } else {
        waiting(pending, lo, hi - 1)
    }
}

/// The failures that are owed when every request that waits is given up
/// with `message`: one for each waiting completion, in the order of their
/// sequence numbers.
pub open spec fn failures<C>(s: CorrelationState<C>, message: Seq<char>) -> Seq<DeliveryModel<C>> {
    waiting(s.pending, 0, s.next as int).map_values(
        |k: u64| DeliveryModel::Failure { completion: s.pending[k], message },
    )
}

/// The state of a table after every waiting request was given up.
pub open spec fn state_after_failures<C>(s: CorrelationState<C>) -> CorrelationState<C> {
    CorrelationState { next: s.next, pending: Map::empty() }
}

/// The views of a list of deliveries.
pub open spec fn deliveries_view<C>(deliveries: Seq<Delivery<C>>) -> Seq<DeliveryModel<C>> {
    deliveries.map_values(|d: Delivery<C>| d@)
}

/// The waiting numbers of a range are exactly the numbers of the range for
/// which a completion waits, each once and in ascending order.
pub proof fn lemma_waiting<C>(pending: Map<u64, C>, lo: int, hi: int)
    requires
        0 <= lo,
        hi <= u64::MAX + 1,
    ensures
        forall|i: int|
            0 <= i < waiting(pending, lo, hi).len() ==> {
                &&& lo <= #[trigger] waiting(pending, lo, hi)[i] < hi
                &&& pending.contains_key(waiting(pending, lo, hi)[i])
            },
        forall|i: int, j: int|
            0 <= i < j < waiting(pending, lo, hi).len() ==> waiting(pending, lo, hi)[i] < waiting(
                pending,
                lo,
                hi,
            )[j],
        forall|k: u64|
            lo <= k < hi && pending.contains_key(k) ==> waiting(pending, lo, hi).contains(k),
    decreases hi - lo,
{
    if lo < hi {
        lemma_waiting(pending, lo, hi - 1);
        let shorter = waiting(pending, lo, hi - 1);
        let all = waiting(pending, lo, hi);
        assert forall|k: u64| lo <= k < hi && pending.contains_key(k) implies all.contains(
            k,
        ) by {
            if k < hi - 1 {
                let i = choose|i: int| 0 <= i < shorter.len() && shorter[i] == k;
                assert(all[i] == k);
            } else {
                assert(all[all.len() - 1] == k);
            }
        }
    }
}

/// Giving up every waiting request owes each waiting completion exactly one
/// failure and no other: the failures stand one to one with the waiting
/// sequence numbers, and nothing waits afterwards.
pub proof fn lemma_failures_cover_pending<C>(s: CorrelationState<C>, message: Seq<char>)
    requires
        s.wf(),
    ensures
        failures(s, message).len() == waiting(s.pending, 0, s.next as int).len(),
        forall|k: u64|
            s.pending.contains_key(k) ==> waiting(s.pending, 0, s.next as int).contains(k),
        forall|i: int|
            0 <= i < failures(s, message).len() ==> s.pending.contains_key(
                waiting(s.pending, 0, s.next as int)[i],
            ) && #[trigger] failures(s, message)[i] == (DeliveryModel::Failure {
                completion: s.pending[waiting(s.pending, 0, s.next as int)[i]],
                message,
            }),
        waiting(s.pending, 0, s.next as int).no_duplicates(),
        forall|k: u64| !state_after_failures(s).pending.contains_key(k),
        state_after_failures(s).wf(),
{
    lemma_waiting(s.pending, 0, s.next as int);
}

/// Below the lowest number that can wait nothing waits: the waiting numbers
/// of a range that starts lower are those of the range that starts there.
proof fn lemma_waiting_from_floor<C>(pending: Map<u64, C>, floor: int, hi: int)
    requires
        0 <= floor <= hi,
        forall|k: u64| pending.contains_key(k) ==> floor <= k,
    ensures
        waiting(pending, 0, hi) == waiting(pending, floor, hi),
    decreases hi,
{
    if floor < hi {
        lemma_waiting_from_floor(pending, floor, hi - 1);
    } else {
        lemma_nothing_waits_below(pending, floor);
    }
}

/// Nothing waits below the lowest number that can wait.
proof fn lemma_nothing_waits_below<C>(pending: Map<u64, C>, hi: int)
    requires
        0 <= hi,
        forall|k: u64| pending.contains_key(k) ==> hi <= k,
    ensures
        waiting(pending, 0, hi) == Seq::<u64>::empty(),
    decreases hi,
{
    if hi > 0 {
        assert(!pending.contains_key((hi - 1) as u64));
        assert forall|k: u64| pending.contains_key(k) implies hi - 1 <= k by {}
        lemma_nothing_waits_below(pending, hi - 1);
    }
}

/// The view of an optional delivery.
pub open spec fn delivery_view<C>(r: Option<Delivery<C>>) -> Option<DeliveryModel<C>> {
    match r {
        Some(d) => Some(d@),
        None => None,
    }
}

/// A second reply for one sequence number is a miss and fires nothing: once
/// an envelope was resolved, an envelope with the same number yields no
/// delivery and leaves the table as it is, whatever ran in between.
pub proof fn lemma_duplicate_reply_is_miss<C>(
    s: CorrelationState<C>,
    first: EnvelopeModel,
    ops: Seq<Op<C>>,
    second: EnvelopeModel,
)
    requires
        s.wf(),
        s.pending.contains_key(first.sequence_number),
        second.sequence_number == first.sequence_number,
    ensures
        resolution(run(s.take(first.sequence_number), ops), second) == ReceivedModel::<C>::Miss(
            second.sequence_number,
        ),
        run(s.take(first.sequence_number), ops).take(second.sequence_number) == run(
            s.take(first.sequence_number),
            ops,
        ),
{
    lemma_stale_reply_dropped(s, first.sequence_number, ops);
}

/// A reply reaches the request it answers: where a completion waits for the
/// sequence number of an envelope, the arrival of the envelope's document
/// takes out that completion and pairs it with the envelope's own arm, the
/// value for a success and the message for a failure.
pub proof fn lemma_reply_reaches_its_request<C>(s: CorrelationState<C>, envelope: EnvelopeModel)
    requires
        s.wf(),
        s.pending.contains_key(envelope.sequence_number),
    ensures
        reception(s, Some(document_of(envelope))) == (match envelope.result {
            Ok(value) => ReceivedModel::Delivered(
                DeliveryModel::Success { completion: s.pending[envelope.sequence_number], value },
            ),
            Err(message) => ReceivedModel::Delivered(
                DeliveryModel::Failure { completion: s.pending[envelope.sequence_number], message },
            ),
        }),
        !state_after_reception(s, Some(document_of(envelope))).pending.contains_key(
            envelope.sequence_number,
        ),
        state_after_reception(s, Some(document_of(envelope))).wf(),
{
    lemma_envelope_round_trip(envelope);
}

impl<C> PendingTable<C> {
    /// Starts a request: registers `completion` under the next sequence
    /// number and returns the envelope of `payload` with that number, ready
    /// for the channel. An exhausted table refuses and gives the completion
    /// back.
    pub fn send_message(&mut self, payload: serde_json::Value, completion: C) -> (r: Result<
        Outbound,
        C,
    >)
        requires
            old(self).wf(),
        ensures
            final(self).wf(),
            final(self)@ == old(self)@.issue(completion),
            match r {
                Ok(out) => !old(self)@.exhausted() && out.sequence_number == old(self)@.next
                    && out.wire@ == json_text(
                    document_of(request_envelope(old(self)@.next, json_of(payload))),
                ),
                Err(c) => old(self)@.exhausted() && c == completion,
            },
    {
        match self.add_callback(completion) {
            Ok(sequence_number) => {
                let envelope = Envelope { sequence_number, result: Ok(payload) };
                Ok(Outbound { sequence_number, wire: encode(&envelope) })
            },
            Err(c) => Err(c),
        }
    }

    /// Starts a passkey registration: a request whose payload is the
    /// document of `request`.
    pub fn prepare_passkey_registration(
        &mut self,
        request: &PasskeyRegistrationRequest,
        completion: C,
    ) -> (r: Result<Outbound, C>)
        requires
            old(self).wf(),
        ensures
            final(self).wf(),
            final(self)@ == old(self)@.issue(completion),
            match r {
                Ok(out) => !old(self)@.exhausted() && out.sequence_number == old(self)@.next
                    && out.wire@ == json_text(
                    document_of(
                        request_envelope(old(self)@.next, registration_request_document(request@)),
                    ),
                ),
                Err(c) => old(self)@.exhausted() && c == completion,
            },
    {
        self.send_message(request.to_value(), completion)
    }

    /// The failure that is owed to the completion of a request which the
    /// table refused: the error arm, with a message that says that no
    /// sequence number is left.
    pub fn refused(completion: C) -> (d: Delivery<C>)
        ensures
            d@ == (DeliveryModel::Failure { completion, message: refusal_message() }),
    {
        Delivery::Failure {
            completion,
            error: BitwardenError::Internal(
                "Error sending message: no sequence number is left".to_owned(),
            ),
        }
    }

    /// Reports that the channel refused the request with `sequence_number`:
    /// its completion is taken out and owed an error that names `cause`.
    /// `None`, and nothing changes, where the completion is gone already: a
    /// reply came first.
    pub fn send_failed(&mut self, sequence_number: u64, cause: &str) -> (r: Option<Delivery<C>>)
        requires
            old(self).wf(),
        ensures
            final(self).wf(),
            final(self)@ == old(self)@.take(sequence_number),
            delivery_view(r) == if old(self)@.pending.contains_key(sequence_number) {
                Some(
                    DeliveryModel::Failure {
                        completion: old(self)@.pending[sequence_number],
                        message: send_failure_message(cause@),
                    },
                )
            } else {
                None
            },
    {
        match self.take(sequence_number) {
            Some(completion) => {
                let mut message: String = "Error sending message: ".to_owned();
                message.append(cause);
                Some(Delivery::Failure { completion, error: BitwardenError::Internal(message) })
            },
            None => None,
        }
    }

    /// Resolves an envelope that arrived: takes the completion for its
    /// sequence number out of the table and pairs it with the envelope's arm.
    /// Where nothing waits for the number the envelope is a miss.
    pub fn resolve(&mut self, envelope: Envelope) -> (r: Received<C>)
        requires
            old(self).wf(),
        ensures
            final(self).wf(),
            final(self)@ == old(self)@.take(envelope.sequence_number),
            r@ == resolution(old(self)@, envelope@),
    {
        let sequence_number: u64 = envelope.sequence_number;
        match self.take(sequence_number) {
            Some(completion) => match envelope.result {
                Ok(value) => Received::Delivered(Delivery::Success { completion, value }),
                Err(error) => Received::Delivered(Delivery::Failure { completion, error }),
            },
            None => Received::Miss(sequence_number),
        }
    }

    /// Handles one inbound payload: decodes it as an envelope and resolves
    /// it. A payload that is no envelope changes nothing.
    pub fn receive(&mut self, body: &str) -> (r: Received<C>)
        requires
            old(self).wf(),
        ensures
            final(self).wf(),
            final(self)@ == state_after_reception(old(self)@, json_parse(body@)),
            r@ == reception(old(self)@, json_parse(body@)),
    {
        match decode(body) {
            Ok(envelope) => self.resolve(envelope),
            Err(e) => Received::Undecodable(e),
        }
    }
}

impl<C> PendingTable<C> {
    /// Gives up every request that waits, as when the connection is lost:
    /// takes all completions out of the table and owes each an error with
    /// `cause` as its message. The failures come in the order of their
    /// sequence numbers. Sequence numbers go on from where they were.
    pub fn fail_all(&mut self, cause: &str) -> (r: Vec<Delivery<C>>)
        requires
            old(self).wf(),
        ensures
            final(self).wf(),
            final(self)@ == state_after_failures(old(self)@),
            deliveries_view(r@) == failures(old(self)@, cause@),
    {
        let mut out: Vec<Delivery<C>> = Vec::new();
        let mut sequence_number: u64 = self.floor;
        let ghost before = self.pending@;
        proof {
            lemma_waiting_from_floor(before, self.floor as int, self.floor as int);
        }
        while sequence_number < self.next
            invariant
                self.next == old(self).next,
                self.floor == old(self).floor,
                before == old(self).pending@,
                self.floor <= sequence_number <= self.next,
                before.dom().finite(),
                forall|k: u64| before.contains_key(k) ==> self.floor <= k < self.next,
                forall|k: u64|
                    #![trigger self.pending@.contains_key(k)]
                    #![trigger before.contains_key(k)]
                    self.pending@.contains_key(k) <==> before.contains_key(k) && sequence_number
                        <= k,
                forall|k: u64|
                    #![trigger self.pending@[k]]
                    self.pending@.contains_key(k) ==> self.pending@[k] == before[k],
                deliveries_view(out@) == waiting(
                    before,
                    self.floor as int,
                    sequence_number as int,
                ).map_values(
                    |k: u64| DeliveryModel::Failure { completion: before[k], message: cause@ },
                ),
            decreases self.next - sequence_number,
        {
            let ghost shorter = waiting(before, self.floor as int, sequence_number as int);
            let ghost held = self.pending@;
            let ghost owed = deliveries_view(out@);
            let taken = self.pending.remove(&sequence_number);
            assert(self.pending@ == held.remove(sequence_number));
            match taken {
                Some(completion) => {
                    assert(before.contains_key(sequence_number) && completion
                        == before[sequence_number]);
                    let failure = Delivery::Failure {
                        completion,
                        error: BitwardenError::Internal(cause.to_owned()),
                    };
                    out.push(failure);
                    assert(deliveries_view(out@) =~= owed.push(failure@));
                },
                None => {
                    assert(!before.contains_key(sequence_number));
                },
            }
            sequence_number = sequence_number + 1;
            assert(waiting(before, self.floor as int, sequence_number as int) == if before.contains_key(
                (sequence_number - 1) as u64,
            ) {
                shorter.push((sequence_number - 1) as u64)
            } else {
                shorter
            });
            assert(deliveries_view(out@) =~= waiting(
                before,
                self.floor as int,
                sequence_number as int,
            ).map_values(
                |k: u64| DeliveryModel::Failure { completion: before[k], message: cause@ },
            ));
        }
        proof {
            lemma_waiting_from_floor(before, self.floor as int, self.next as int);
            assert(self.pending@ =~= Map::<u64, C>::empty());
        }
        self.floor = self.next;
        out
    }
}

} // verus!
