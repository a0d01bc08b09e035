//! Event bus for inter-service communication.
//!
//! The bus is written without I/O: each operation is a decision about what to
//! hand to the broker transport and about what its outcome means. The caller
//! owns the connection, performs the command and reports how it ended.

use crate::errors::VoipError;
use crate::errors::VoipErrorView;
use crate::text::join;
use std::collections::VecDeque;
use vstd::prelude::*;
use vstd::string::StringExecFns;

pub mod subjects;

verus! {

/// A message on the bus: a subject, an opaque payload and, for a request, the
/// address that the reply is to be published to.
#[derive(Debug, Clone, PartialEq, Eq)]
pub struct Envelope {
    pub subject: String,
    pub payload: Vec<u8>,
    pub reply_to: Option<String>,
}

/// How the transport failed to carry out a command.
#[derive(Debug, Clone, PartialEq, Eq)]
pub enum TransportError {
    /// The broker could not be reached, or the connection dropped.
    Unreachable(String),
    /// No acknowledgement or reply came within the bound.
    TimedOut(String),
    /// Nobody listens on the subject of a request, so no reply will come.
    NoResponders(String),
}

impl TransportError {
    /// The transport's own account of the failure.
    pub open spec fn message(self) -> Seq<char> {
        match self {
            TransportError::Unreachable(m) => m@,
            TransportError::TimedOut(m) => m@,
            TransportError::NoResponders(m) => m@,
        }
    }

    /// Whether the failure means that no answer came: the bound passed, or
    /// nobody was there to answer.
    pub open spec fn is_unanswered(self) -> bool {
        self is TimedOut || self is NoResponders
    }
}

impl TransportError {
    /// The transport's own account of the failure.
    pub fn into_message(self) -> (m: String)
        ensures
            m@ == self.message(),
    {
        match self {
            TransportError::Unreachable(m) => m,
            TransportError::TimedOut(m) => m,
            TransportError::NoResponders(m) => m,
        }
    }
}

/// What the bus asks of the transport.
#[derive(Debug, Clone, PartialEq, Eq)]
pub enum BusCommand {
    /// Send `payload` to `subject`; no acknowledgement, no retry.
    Publish { subject: String, payload: Vec<u8> },
    /// Open a stream of the messages on `subject`: every message for a plain
    /// subscription, one member's share for a member of the group `queue`.
    Subscribe { subject: String, queue: Option<String> },
    /// Send `payload` to `subject` with a fresh reply address, and wait for
    /// the one reply.
    Request { subject: String, payload: Vec<u8> },
    /// Force outstanding writes out and wait for the confirmation.
    Flush,
}

/// The mathematical value of a [`BusCommand`].
pub enum BusCommandView {
    Publish { subject: Seq<char>, payload: Seq<u8> },
    Subscribe { subject: Seq<char>, queue: Option<Seq<char>> },
    Request { subject: Seq<char>, payload: Seq<u8> },
    Flush,
}

impl View for BusCommand {
    type V = BusCommandView;

    open spec fn view(&self) -> BusCommandView {
        match self {
            BusCommand::Publish { subject, payload } => BusCommandView::Publish {
                subject: subject@,
                payload: payload@,
            },
            BusCommand::Subscribe { subject, queue } => BusCommandView::Subscribe {
                subject: subject@,
                queue: match queue {
                    Some(q) => Some(q@),
                    None => None,
                },
            },
            BusCommand::Request { subject, payload } => BusCommandView::Request {
                subject: subject@,
                payload: payload@,
            },
            BusCommand::Flush => BusCommandView::Flush,
        }
    }
}

impl BusCommandView {
    /// Whether the command waits for an answer under a deadline.
    pub open spec fn has_deadline(self) -> bool {
        self is Request || self is Flush
    }
}

/// The error that reports a failure of an operation without a deadline: a
/// connection error with the transport's message.
pub open spec fn connection_failure(error: TransportError) -> VoipErrorView {
    VoipErrorView::Nats(error.message())
}

/// The error that reports a failure of an operation that waits under a
/// deadline: a timeout where no answer came, a connection error otherwise.
pub open spec fn deadline_failure(error: TransportError) -> VoipErrorView {
    if error.is_unanswered() {
        VoipErrorView::Timeout(error.message())
    } else {
        VoipErrorView::Nats(error.message())
    }
}

/// The error that a failed command is reported as.
pub open spec fn failure_of(command: BusCommandView, error: TransportError) -> VoipErrorView {
    if command.has_deadline() {
        deadline_failure(error)
    } else {
        connection_failure(error)
    }
}

/// Event bus for inter-service communication
#[derive(Debug, Clone)]
pub struct EventBus {
    service_name: String,
}

impl EventBus {
    /// The label that attributes events to a service.
    pub closed spec fn name(&self) -> Seq<char> {
        self.service_name@
    }

    /// The bus over a connection attempt that ended as `outcome`: a bus with
    /// an empty service name where the broker was reached, a connection
    /// error where it was not.
    pub fn connect(outcome: Result<(), TransportError>) -> (r: Result<EventBus, VoipError>)
        ensures
            outcome is Ok ==> (r matches Ok(bus) && bus.name() == Seq::<char>::empty()),
            outcome matches Err(e) ==> (r matches Err(err) && err@ == connection_failure(e)),
    {
        match outcome {
            Ok(()) => Ok(EventBus { service_name: String::new() }),
            Err(error) => Err(VoipError::Nats(error.into_message())),
        }
    }

    /// Set service name for event attribution
    pub fn with_service_name(self, name: String) -> (bus: EventBus)
        ensures
            bus.name() == name@,
    {
        EventBus { service_name: name }
    }

    /// The service name that events are attributed to.
    pub fn service_name(&self) -> (name: &str)
        ensures
            name@ == self.name(),
    {
        self.service_name.as_str()
    }

    /// Publish an event: `encoded` is the event under the generic codec, or
    /// the codec's message where the event cannot be encoded. Nothing is
    /// handed to the transport in that case.
    pub fn publish(&self, subject: &str, encoded: Result<Vec<u8>, String>) -> (r: Result<
        BusCommand,
        VoipError,
    >)
        ensures
            encoded matches Ok(payload) ==> (r matches Ok(command) && command@
                == BusCommandView::Publish { subject: subject@, payload: payload@ }),
            encoded matches Err(e) ==> (r matches Err(err) && err@ == VoipErrorView::Internal(
                "Failed to serialize event: "@ + e@,
            )),
    {
        match encoded {
            Ok(payload) => Ok(BusCommand::Publish { subject: String::from_str(subject), payload }),
            Err(e) => Err(
                VoipError::Internal(join("Failed to serialize event: ", e.as_str())),
            ),
        }
    }

    /// Publish an event that is already in the schema envelope.
    pub fn publish_proto(&self, subject: &str, encoded: Vec<u8>) -> (command: BusCommand)
        ensures
            command@ == (BusCommandView::Publish { subject: subject@, payload: encoded@ }),
    {
        BusCommand::Publish { subject: String::from_str(subject), payload: encoded }
    }

    /// Subscribe to events: every subscriber receives every message.
    pub fn subscribe(&self, subject: &str) -> (command: BusCommand)
        ensures
            command@ == (BusCommandView::Subscribe { subject: subject@, queue: None }),
    {
        BusCommand::Subscribe { subject: String::from_str(subject), queue: None }
    }

    /// Subscribe to a queue group (load balancing): each message goes to at
    /// most one member of the group.
    pub fn queue_subscribe(&self, subject: &str, queue: &str) -> (command: BusCommand)
        ensures
            command@ == (BusCommandView::Subscribe { subject: subject@, queue: Some(queue@) }),
    {
        BusCommand::Subscribe {
            subject: String::from_str(subject),
            queue: Some(String::from_str(queue)),
        }
    }

    /// Request-reply pattern: `encoded` is the request under the generic
    /// codec, or the codec's message where it cannot be encoded.
    pub fn request(&self, subject: &str, encoded: Result<Vec<u8>, String>) -> (r: Result<
        BusCommand,
        VoipError,
    >)
        ensures
            encoded matches Ok(payload) ==> (r matches Ok(command) && command@
                == BusCommandView::Request { subject: subject@, payload: payload@ }),
            encoded matches Err(e) ==> (r matches Err(err) && err@ == VoipErrorView::Internal(
                "Failed to serialize request: "@ + e@,
            )),
    {
        match encoded {
            Ok(payload) => Ok(BusCommand::Request { subject: String::from_str(subject), payload }),
            Err(e) => Err(
                VoipError::Internal(join("Failed to serialize request: ", e.as_str())),
            ),
        }
    }

    /// Create a responder for request-reply: a plain subscription on the
    /// subject that requests are sent to.
    pub fn responder(&self, subject: &str) -> (command: BusCommand)
        ensures
            command@ == (BusCommandView::Subscribe { subject: subject@, queue: None }),
    {
        self.subscribe(subject)
    }

    /// Health check
    pub fn ping(&self) -> (command: BusCommand)
        ensures
            command@ == BusCommandView::Flush,
    {
        BusCommand::Flush
    }

    /// The error that reports why the transport could not carry out
    /// `command`.
    pub fn failure(&self, command: &BusCommand, error: TransportError) -> (err: VoipError)
        ensures
            err@ == failure_of(command@, error),
    {
        let waits = match command {
            BusCommand::Request { .. } => true,
            BusCommand::Flush => true,
            _ => false,
        };
        let unanswered = match error {
            TransportError::Unreachable(_) => false,
            _ => true,
        };
        if waits && unanswered {
            VoipError::Timeout(error.into_message())
        } else {
            VoipError::Nats(error.into_message())
        }
    }

    /// What the caller of an operation gets once the transport has carried
    /// out `command`, or failed to.
    pub fn complete(&self, command: &BusCommand, outcome: Result<(), TransportError>) -> (r: Result<
        (),
        VoipError,
    >)
        ensures
            outcome is Ok ==> r is Ok,
            outcome matches Err(e) ==> (r matches Err(err) && err@ == failure_of(command@, e)),
    {
        match outcome {
            Ok(()) => Ok(()),
            Err(error) => Err(self.failure(command, error)),
        }
    }

    /// The payload of the reply to a request, or why there is none: a
    /// timeout where no reply came in time or nobody listens, a connection
    /// error otherwise.
    pub fn reply(&self, outcome: Result<Envelope, TransportError>) -> (r: Result<Vec<u8>, VoipError>)
        ensures
            outcome matches Ok(envelope) ==> (r matches Ok(payload) && payload@
                == envelope.payload@),
            outcome matches Err(e) ==> (r matches Err(err) && err@ == deadline_failure(e)),
    {
        match outcome {
            Ok(envelope) => Ok(envelope.payload),
            Err(TransportError::Unreachable(m)) => Err(VoipError::Nats(m)),
            Err(error) => Err(VoipError::Timeout(error.into_message())),
        }
    }

    /// The decoded reply, or the error that reports why the reply could not
    /// be decoded: `decoded` is what the generic codec made of the payload.
    pub fn decode_reply<R>(&self, decoded: Result<R, String>) -> (r: Result<R, VoipError>)
        ensures
            decoded matches Ok(value) ==> r == Ok::<R, VoipError>(value),
            decoded matches Err(e) ==> (r matches Err(err) && err@ == VoipErrorView::Internal(
                "Failed to deserialize response: "@ + e@,
            )),
    {
        match decoded {
            Ok(value) => Ok(value),
            Err(e) => Err(VoipError::Internal(join("Failed to deserialize response: ", e.as_str()))),
        }
    }
}

/// The mathematical state of a [`Subscription`].
pub struct SubscriptionView {
    /// The one subject that the subscription is bound to.
    pub subject: Seq<char>,
    /// The queue group that the subscription is a member of, if any.
    pub queue: Option<Seq<char>>,
    /// The messages that arrived and were not yet taken, oldest first.
    pub pending: Seq<Envelope>,
    /// Whether the stream is live, and how it ended where it is not.
    pub state: StreamStateView,
}

/// Whether a stream is live, and how it ended where it is not. Nothing
/// arrives on a stream that has ended.
#[derive(Debug, Clone, PartialEq, Eq)]
pub enum StreamState {
    /// Messages can arrive.
    Open,
    /// The stream was closed.
    Closed,
    /// The connection failed; the text says how.
    Lost(String),
}

impl StreamState {
    /// How a run over the stream ends once the stream has nothing more: in a
    /// connection error where the connection failed, well otherwise.
    pub fn into_outcome(self) -> (r: Result<(), VoipError>)
        ensures
            !(self is Lost) ==> r is Ok,
            self matches StreamState::Lost(reason) ==> (r matches Err(e) && e@
                == VoipErrorView::Nats(reason@)),
    {
        match self {
            StreamState::Lost(reason) => Err(VoipError::Nats(reason)),
            _ => Ok(()),
        }
    }
}

/// The mathematical value of a [`StreamState`].
pub enum StreamStateView {
    Open,
    Closed,
    Lost(Seq<char>),
}

impl View for StreamState {
    type V = StreamStateView;

    open spec fn view(&self) -> StreamStateView {
        match self {
            StreamState::Open => StreamStateView::Open,
            StreamState::Closed => StreamStateView::Closed,
            StreamState::Lost(reason) => StreamStateView::Lost(reason@),
        }
    }
}

impl SubscriptionView {
    /// Whether the subscription takes a message: it is open and the message
    /// is on its subject.
    pub open spec fn accepts(self, envelope: Envelope) -> bool {
        self.state is Open && envelope.subject@ == self.subject
    }

    /// The state after a message arrived: an accepted message joins the end
    /// of the queue, any other changes nothing.
    pub open spec fn deliver(self, envelope: Envelope) -> SubscriptionView {
        if self.accepts(envelope) {
            SubscriptionView { pending: self.pending.push(envelope), ..self }
        } else {
            self
        }
    }

    /// The state after the messages of `envelopes` arrived in order.
    pub open spec fn deliver_all(self, envelopes: Seq<Envelope>) -> SubscriptionView
        decreases envelopes.len(),
    {
        if envelopes.len() == 0 {
            self
        } else {
            self.deliver_all(envelopes.drop_last()).deliver(envelopes.last())
        }
    }

    /// The message that the consumer takes next, if one is pending.
    pub open spec fn front(self) -> Option<Envelope> {
        if self.pending.len() > 0 {
            Some(self.pending[0])
        } else {
            None
        }
    }

    /// The state after the consumer took the next message.
    pub open spec fn advance(self) -> SubscriptionView {
        if self.pending.len() > 0 {
            SubscriptionView { pending: self.pending.skip(1), ..self }
        } else {
            self
        }
    }

    /// The state after the stream was closed: an open stream is closed, a
    /// stream that has ended stays as it ended.
    pub open spec fn close(self) -> SubscriptionView {
        if self.state is Open {
            SubscriptionView { state: StreamStateView::Closed, ..self }
        } else {
            self
        }
    }

    /// The state after the connection failed: an open stream is lost, a
    /// stream that has ended stays as it ended.
    pub open spec fn fail(self, reason: Seq<char>) -> SubscriptionView {
        if self.state is Open {
            SubscriptionView { state: StreamStateView::Lost(reason), ..self }
        } else {
            self
        }
    }

    /// The first `n` messages that the consumer takes, in the order taken.
    pub open spec fn taken(self, n: nat) -> Seq<Envelope>
        decreases n,
    {
        if n == 0 || self.pending.len() == 0 {
            Seq::empty()
        } else {
            seq![self.pending[0]] + self.advance().taken((n - 1) as nat)
        }
    }
}

/// Messages that arrive on an open subscription, all on its subject, queue
/// up behind what is pending in the order of their arrival.
pub proof fn lemma_delivery_keeps_order(s: SubscriptionView, envelopes: Seq<Envelope>)
    requires
        s.state is Open,
        forall|i: int| 0 <= i < envelopes.len() ==> (#[trigger] envelopes[i]).subject@ == s.subject,
    ensures
        s.deliver_all(envelopes) == (SubscriptionView { pending: s.pending + envelopes, ..s }),
    decreases envelopes.len(),
{
    if envelopes.len() == 0 {
        assert(s.pending + envelopes =~= s.pending);
    } else {
        let head = envelopes.drop_last();
        lemma_delivery_keeps_order(s, head);
        assert(s.pending + envelopes =~= (s.pending + head).push(envelopes.last()));
    }
}

/// The consumer takes the pending messages oldest first.
pub proof fn lemma_taken_is_prefix(s: SubscriptionView, n: nat)
    ensures
        s.taken(n) == s.pending.take(
            if n <= s.pending.len() {
                n as int
            } else {
                s.pending.len() as int
            },
        ),
    decreases n,
{
    if n == 0 || s.pending.len() == 0 {
        assert(s.taken(n) =~= s.pending.take(0));
    } else {
        lemma_taken_is_prefix(s.advance(), (n - 1) as nat);
        let k = if n <= s.pending.len() {
            n as int
        } else {
            s.pending.len() as int
        };
        assert(s.taken(n) =~= s.pending.take(k));
    }
}

/// Single-subscription ordering: what is published, in order, to a subject
/// with one open subscription that holds nothing yet comes out of that
/// subscription complete and in the same order.
pub proof fn lemma_subscription_preserves_order(s: SubscriptionView, envelopes: Seq<Envelope>)
    requires
        s.state is Open,
        s.pending.len() == 0,
        forall|i: int| 0 <= i < envelopes.len() ==> (#[trigger] envelopes[i]).subject@ == s.subject,
    ensures
        s.deliver_all(envelopes).taken(envelopes.len()) == envelopes,
{
    lemma_delivery_keeps_order(s, envelopes);
    let t = s.deliver_all(envelopes);
    assert(t.pending =~= envelopes);
    lemma_taken_is_prefix(t, envelopes.len());
    assert(envelopes.take(envelopes.len() as int) =~= envelopes);
}

/// A stream of the messages on one subject, in the order of their arrival.
///
/// The stream cannot be restarted: a message that was taken is gone, and
/// nothing arrives once the stream has ended.
#[derive(Debug)]
pub struct Subscription {
    subject: String,
    queue: Option<String>,
    pending: VecDeque<Envelope>,
    state: StreamState,
}

impl View for Subscription {
    type V = SubscriptionView;

    closed spec fn view(&self) -> SubscriptionView {
        SubscriptionView {
            subject: self.subject@,
            queue: match self.queue {
                Some(q) => Some(q@),
                None => None,
            },
            pending: self.pending@,
            state: self.state@,
        }
    }
}

impl Subscription {
    /// An open subscription on `subject` that holds no message; a member of
    /// the group `queue` where one is given.
    pub fn new(subject: String, queue: Option<String>) -> (s: Subscription)
        ensures
            s@.subject == subject@,
            s@.queue == match queue {
                Some(q) => Some(q@),
                None => None,
            },
            s@.pending.len() == 0,
            s@.state is Open,
    {
        Subscription { subject, queue, pending: VecDeque::new(), state: StreamState::Open }
    }

    /// The subject that the subscription is bound to.
    pub fn subject(&self) -> (subject: &str)
        ensures
            subject@ == self@.subject,
    {
        self.subject.as_str()
    }

    /// The queue group that the subscription is a member of, if any.
    pub fn queue(&self) -> (queue: &Option<String>)
        ensures
            self@.queue == match queue {
                Some(q) => Some(q@),
                None => None,
            },
    {
        &self.queue
    }

    /// The number of messages that wait to be taken.
    pub fn pending(&self) -> (n: usize)
        ensures
            n == self@.pending.len(),
    {
        self.pending.len()
    }

    /// Whether the stream is live, and how it ended where it is not.
    pub fn state(&self) -> (state: &StreamState)
        ensures
            state@ == self@.state,
    {
        &self.state
    }

    /// Whether the stream has ended.
    pub fn is_closed(&self) -> (closed: bool)
        ensures
            closed == !(self@.state is Open),
    {
        match self.state {
            StreamState::Open => false,
            _ => true,
        }
    }

    /// Hands a message that arrived from the broker to the subscription.
    /// Returns whether the subscription took it.
    pub fn deliver(&mut self, envelope: Envelope) -> (accepted: bool)
        ensures
            accepted == old(self)@.accepts(envelope),
            final(self)@ == old(self)@.deliver(envelope),
    {
        let open = match self.state {
            StreamState::Open => true,
            _ => false,
        };
        if open && envelope.subject == self.subject {
            self.pending.push_back(envelope);
            true
        } else {
            false
        }
    }

    /// Ends the stream, unless it has ended already. What is pending can
    /// still be taken.
    pub fn close(&mut self)
        ensures
            final(self)@ == old(self)@.close(),
    {
        let open = match self.state {
            StreamState::Open => true,
            _ => false,
        };
        if open {
            self.state = StreamState::Closed;
        }
    }

    /// Ends the stream because the connection failed, unless it has ended
    /// already. What is pending can still be taken.
    pub fn fail(&mut self, reason: String)
        ensures
            final(self)@ == old(self)@.fail(reason@),
    {
        let open = match self.state {
            StreamState::Open => true,
            _ => false,
        };
        if open {
            self.state = StreamState::Lost(reason);
        }
    }

    /// Takes the oldest pending message.
    pub fn next(&mut self) -> (envelope: Option<Envelope>)
        ensures
            envelope == old(self)@.front(),
            final(self)@ == old(self)@.advance(),
    {
        let envelope = self.pending.pop_front();
        proof {
            if old(self)@.pending.len() > 0 {
                assert(self.pending@ =~= old(self)@.pending.skip(1));
            } else {
                assert(self.pending@ =~= old(self)@.pending);
            }
        }
        envelope
    }
}

/// Event handler trait
pub trait EventHandler: Send + Sync {
    /// Handle an event
    fn handle(&self, event: &Envelope) -> Result<(), VoipError>;
}

/// What became of one message: the outcome of every handler, in the order
/// of registration.
#[derive(Debug, Clone, PartialEq, Eq)]
pub struct DispatchReport {
    /// The subject of the message, for the log.
    pub subject: String,
    /// What each handler returned.
    pub outcomes: Vec<Result<(), VoipError>>,
}

/// Whether `report` is what dispatching `envelope` to `handlers` gives: every
/// handler was handed the message and its outcome stands at the handler's own
/// place, whatever the other handlers returned.
pub open spec fn dispatched<H: EventHandler>(
    handlers: Seq<H>,
    envelope: Envelope,
    report: DispatchReport,
) -> bool {
    &&& report.subject@ == envelope.subject@
    &&& report.outcomes.len() == handlers.len()
    &&& forall|i: int|
        0 <= i < handlers.len() ==> call_ensures(
            H::handle,
            (&handlers[i], &envelope),
            #[trigger] report.outcomes[i],
        )
}

/// Whether `dispatches` is what processing `envelopes` with `handlers`
/// gives: one report for each message, in the order of arrival.
pub open spec fn processed<H: EventHandler>(
    handlers: Seq<H>,
    envelopes: Seq<Envelope>,
    dispatches: Seq<DispatchReport>,
) -> bool {
    &&& dispatches.len() == envelopes.len()
    &&& forall|j: int|
        0 <= j < envelopes.len() ==> dispatched(handlers, envelopes[j], #[trigger] dispatches[j])
}

/// How often the handler at place `handler` was invoked over a run of
/// dispatches.
pub open spec fn invocations(dispatches: Seq<DispatchReport>, handler: int) -> nat
    decreases dispatches.len(),
{
    if dispatches.len() == 0 {
        0
    } else {
        invocations(dispatches.drop_last(), handler) + if 0 <= handler
            < dispatches.last().outcomes.len() {
            1nat
        } else {
            0nat
        }
    }
}

/// Handler isolation: after processing K messages every handler has been
/// invoked exactly K times, whichever handlers failed on whichever messages.
pub proof fn lemma_handler_isolation<H: EventHandler>(
    handlers: Seq<H>,
    envelopes: Seq<Envelope>,
    dispatches: Seq<DispatchReport>,
    handler: int,
)
    requires
        processed(handlers, envelopes, dispatches),
        0 <= handler < handlers.len(),
    ensures
        invocations(dispatches, handler) == envelopes.len(),
    decreases dispatches.len(),
{
    if dispatches.len() > 0 {
        let k = dispatches.len() - 1;
        assert(dispatched(handlers, envelopes[k], dispatches[k]));
        assert forall|j: int| 0 <= j < k implies dispatched(
            handlers,
            envelopes.drop_last()[j],
            #[trigger] dispatches.drop_last()[j],
        ) by {
            assert(dispatched(handlers, envelopes[j], dispatches[j]));
        }
        lemma_handler_isolation(handlers, envelopes.drop_last(), dispatches.drop_last(), handler);
    }
}

/// What a run of the processor did: a report for each message in the order
/// of arrival, and how the stream ended.
#[derive(Debug)]
pub struct ProcessReport {
    /// One report for each message that was consumed.
    pub dispatches: Vec<DispatchReport>,
    /// `Ok` where the stream was closed or ran dry, the connection error
    /// where the connection failed.
    pub outcome: Result<(), VoipError>,
}

/// Event processor that runs handlers
pub struct EventProcessor<H: EventHandler> {
    handlers: Vec<H>,
}

impl<H: EventHandler> EventProcessor<H> {
    /// The registered handlers, in the order of registration.
    pub closed spec fn handlers(&self) -> Seq<H> {
        self.handlers@
    }

    /// Create new processor
    pub fn new() -> (processor: Self)
        ensures
            processor.handlers().len() == 0,
    {
        EventProcessor { handlers: Vec::new() }
    }

    /// Add an event handler
    pub fn add_handler(&mut self, handler: H) -> (processor: &mut Self)
        ensures
            processor.handlers() == old(self).handlers().push(handler),
            *final(self) == *final(processor),
    {
        self.handlers.push(handler);
        self
    }

    /// The number of registered handlers.
    pub fn handler_count(&self) -> (n: usize)
        ensures
            n == self.handlers().len(),
    {
        self.handlers.len()
    }

    /// Hands one message to every handler, in the order of registration. A
    /// handler's failure is recorded and stops nothing.
    pub fn dispatch(&self, envelope: &Envelope) -> (report: DispatchReport)
        ensures
            dispatched(self.handlers(), *envelope, report),
    {
        let mut outcomes: Vec<Result<(), VoipError>> = Vec::new();
        let mut i: usize = 0;
        while i < self.handlers.len()
            invariant
                i <= self.handlers.len(),
                outcomes.len() == i,
                forall|k: int|
                    0 <= k < i ==> call_ensures(
                        H::handle,
                        (&self.handlers[k], envelope),
                        #[trigger] outcomes[k],
                    ),
            decreases self.handlers.len() - i,
        {
            let outcome = self.handlers[i].handle(envelope);
            outcomes.push(outcome);
            i += 1;
        }
        DispatchReport { subject: envelope.subject.clone(), outcomes }
    }

    /// Process events from a subscriber: consumes the stream until it has
    /// nothing more, dispatching each message in the order of arrival. The
    /// run ends in an error only where the connection failed, never because
    /// a handler did.
    pub fn process(&self, subscription: Subscription) -> (report: ProcessReport)
        ensures
            processed(self.handlers(), subscription@.pending, report.dispatches@),
            !(subscription@.state is Lost) ==> report.outcome is Ok,
            subscription@.state matches StreamStateView::Lost(reason) ==> (report.outcome matches Err(
                e,
            ) && e@ == VoipErrorView::Nats(reason)),
    {
        let mut subscription = subscription;
        let ghost all = subscription@.pending;
        let ghost start = subscription@;
        let mut dispatches: Vec<DispatchReport> = Vec::new();
        loop
            invariant
                dispatches.len() <= all.len(),
                subscription@.pending == all.skip(dispatches.len() as int),
                subscription@.state == start.state,
                processed(self.handlers(), all.take(dispatches.len() as int), dispatches@),
            ensures
                processed(self.handlers(), all, dispatches@),
                subscription@.state == start.state,
            decreases all.len() - dispatches.len(),
        {
            let ghost done = dispatches.len() as int;
            match subscription.next() {
                None => {
                    proof {
                        assert(all.take(done) =~= all);
                    }
                    break ;
                },
                Some(envelope) => {
                    let report = self.dispatch(&envelope);
                    let ghost before = dispatches@;
                    dispatches.push(report);
                    proof {
                        assert(envelope == all[done]);
                        assert(all.skip(done).skip(1) =~= all.skip(done + 1));
                        let handled = all.take(done + 1);
                        assert forall|j: int| 0 <= j < handled.len() implies dispatched(
                            self.handlers(),
                            handled[j],
                            #[trigger] dispatches@[j],
                        ) by {
                            if j < done {
                                assert(dispatched(
                                    self.handlers(),
                                    all.take(done)[j],
                                    before[j],
                                ));
                            }
                        }
                    }
                },
            }
        }
        ProcessReport { dispatches, outcome: subscription.state.into_outcome() }
    }
}

} // verus!
