//! The actor runtime: owns the inbound request channel, the handler
//! registry and the object store, and runs the dispatch state machine
//! `Running -> Draining -> Shutdown`.
//!
//! One [`Actor::poll`] pulls at most one inbound request and hands it to
//! [`Actor::dispatch_envelope`], which decides every envelope it is given:
//! an unregistered name is answered `HandlerNotFound` on the spot, a
//! registered one becomes an [`Invocation`] carrying exactly that request,
//! never silence.  [`Actor::execute`] completes an invocation: it runs
//! the handler against the object store and sends the one answer on the
//! request's single-use channel.  An `Invocation` cannot be copied, so no
//! dispatched request is answered twice, and each envelope that reaches
//! `dispatch_envelope` is answered or dispatched exactly once.

use vstd::prelude::*;
use crate::channel::{
    InboundPoll, ReceiveRequest, bound_of, close_request_channel, poll_next_request, send_response,
};
use crate::dispatch::{apply_handler, handler_response, handler_store_after};
use crate::messages::{DispatchFailure, MsgV, RespV, Response};
use crate::registry::{Handler, HandlerRegistry, HandlerV};
use crate::store::{MutateOp, ObjectStore, StoreError, StoreValue, StoreValueV};

verus! {

/// How many inbound requests the bounded channel holds before the
/// communication layer must stall or reject further ones.
pub const INBOUND_CAPACITY: usize = 512;

/// The dispatch loop's lifecycle.
#[derive(PartialEq, Eq, Structural, Clone, Copy, Debug)]
pub enum Phase {
    /// Accepting and dispatching inbound requests.
    Running,
    /// No longer accepting requests; in-flight invocations may still
    /// complete.
    Draining,
    /// Terminal: nothing is accepted and nothing is in flight.
    Shutdown,
}

/// The phase after the inbound channel is found closed, or is closed by
/// [`Actor::shutdown`]: with nothing in flight the actor shuts down at
/// once, otherwise it drains.
pub open spec fn closed_phase(phase: Phase, pending: u64) -> Phase {
    if phase == Phase::Shutdown || pending == 0 {
        Phase::Shutdown
    } else {
        Phase::Draining
    }
}

/// The phase after one invocation completes with `pending_left` still in
/// flight: completing a draining actor's last invocation, and only that,
/// shuts it down.
pub open spec fn completed_phase(phase: Phase, pending_left: u64) -> Phase {
    if phase == Phase::Draining && pending_left == 0 {
        Phase::Shutdown
    } else {
        phase
    }
}

/// Mathematical model of an [`Invocation`].
pub struct InvV {
    pub handler: HandlerV,
    pub request: MsgV,
    pub peer: Seq<u8>,
}

/// A dispatched request: the matched handler, the request, and the
/// single-use channel for the one answer.
///
/// An invocation cannot be copied and [`Actor::execute`] consumes it, so
/// each dispatched request is completed at most once.
pub struct Invocation {
    handler: Handler,
    request: crate::messages::NamedMessage,
    peer_id: Vec<u8>,
    response_tx: futures::channel::oneshot::Sender<Response>,
}

impl View for Invocation {
    type V = InvV;

    closed spec fn view(&self) -> InvV {
        InvV { handler: self.handler@, request: self.request@, peer: self.peer_id@ }
    }
}

/// What one [`Actor::poll`] did.
pub enum Step {
    /// A request matched a registered handler and became an invocation.
    Invoked(Invocation),
    /// A request named no registered handler; a `HandlerNotFound` answer
    /// was sent at once on its response channel.  `delivered` is false when
    /// the requester was already gone.
    NotFound { name: String, delivered: bool, response: Ghost<RespV> },
    /// Nothing is buffered; the channel is still open.
    Empty,
    /// The inbound channel is closed and drained; the actor drains or shuts
    /// down.
    Closed,
    /// The actor had already stopped accepting requests; nothing was read.
    Stopped,
}

/// Where an invocation's answer went.
pub enum Delivery {
    /// The answer reached the requester's response channel.
    Delivered,
    /// The requester was gone; the undelivered answer is handed back.
    ChannelClosed(Response),
}

/// The result of completing one invocation.
pub struct Completion {
    /// Where the answer went.
    pub delivery: Delivery,
    /// The answer that was computed and sent.
    pub response: Ghost<RespV>,
}

/// The actor: handler registry, object store, the receiving half of the
/// bounded inbound channel, and the dispatch state machine.
pub struct Actor {
    registry: HandlerRegistry,
    store: ObjectStore,
    inbound_rx: futures::channel::mpsc::Receiver<ReceiveRequest>,
    addresses: Vec<String>,
    phase: Phase,
    in_flight: u64,
}

impl Actor {
    /// The registry's model: message name to handler.
    pub closed spec fn handlers(&self) -> Map<Seq<char>, HandlerV> {
        self.registry@
    }

    /// The object store's model: state key to stored value.
    pub closed spec fn objects(&self) -> Map<Seq<char>, StoreValueV> {
        self.store@
    }

    /// The dispatch loop's lifecycle phase.
    pub closed spec fn phase(&self) -> Phase {
        self.phase
    }

    /// How many dispatched invocations have not completed yet.
    pub closed spec fn pending(&self) -> u64 {
        self.in_flight
    }

    /// The configured listen addresses, in insertion order.
    pub closed spec fn listen_addrs(&self) -> Seq<Seq<char>> {
        self.addresses@.map_values(|a: String| a@)
    }

    /// The buffer size of the bounded inbound channel the actor owns.
    pub closed spec fn inbound_bound(&self) -> usize {
        bound_of(self.inbound_rx)
    }

    /// Assembles a freshly built actor: empty registry, empty store,
    /// nothing in flight, accepting requests.
    pub(crate) fn assemble(
        inbound_rx: futures::channel::mpsc::Receiver<ReceiveRequest>,
        addresses: Vec<String>,
    ) -> (a: Actor)
        ensures
            a.handlers() == Map::<Seq<char>, HandlerV>::empty(),
            a.objects() == Map::<Seq<char>, StoreValueV>::empty(),
            a.phase() == Phase::Running,
            a.pending() == 0,
            a.listen_addrs() == addresses@.map_values(|s: String| s@),
            a.inbound_bound() == bound_of(inbound_rx),
    {
        Actor {
            registry: HandlerRegistry::new(),
            store: ObjectStore::new(),
            inbound_rx,
            addresses,
            phase: Phase::Running,
            in_flight: 0,
        }
    }

    /// Registers `handler` for `name`, replacing any previous handler for
    /// that name and touching nothing else — in particular no other name's
    /// entry and no in-flight invocation.
    pub fn register(&mut self, name: String, handler: Handler)
        requires
            name@.len() > 0,
        ensures
            final(self).handlers() == old(self).handlers().insert(name@, handler@),
            final(self).objects() == old(self).objects(),
            final(self).phase() == old(self).phase(),
            final(self).pending() == old(self).pending(),
            final(self).listen_addrs() == old(self).listen_addrs(),
            final(self).inbound_bound() == old(self).inbound_bound(),
    {
        self.registry.register(name, handler);
    }

    /// Looks up the handler currently registered for `name`.
    pub fn lookup<'a>(&'a self, name: &str) -> (r: Option<&'a Handler>)
        ensures
            match r {
                Some(h) => self.handlers().contains_key(name@) && h@ == self.handlers()[name@],
                None => !self.handlers().contains_key(name@),
            },
    {
        self.registry.lookup(name)
    }

    /// Stores `value` under `key` in the object store.
    pub fn store_insert(&mut self, key: String, value: StoreValue)
        ensures
            final(self).objects() == old(self).objects().insert(key@, value@),
            final(self).handlers() == old(self).handlers(),
            final(self).phase() == old(self).phase(),
            final(self).pending() == old(self).pending(),
            final(self).listen_addrs() == old(self).listen_addrs(),
            final(self).inbound_bound() == old(self).inbound_bound(),
    {
        self.store.insert(key, value);
    }

    /// Reads the value stored under `key`.
    pub fn store_get<'a>(&'a self, key: &str) -> (r: Option<&'a StoreValue>)
        ensures
            match r {
                Some(v) => self.objects().contains_key(key@) && v@ == self.objects()[key@],
                None => !self.objects().contains_key(key@),
            },
    {
        self.store.get(key)
    }

    /// Applies a read-modify-write operation to one object-store key, as
    /// [`ObjectStore::mutate`] does.
    pub fn store_mutate(&mut self, key: &String, op: MutateOp) -> (r: Result<StoreValue, StoreError>)
        ensures
            final(self).objects() == crate::store::store_after_mutate(old(self).objects(), key@, op@),
            crate::store::mutate_ok(old(self).objects(), key@, op@) ==> (r matches Ok(v) && v@
                == crate::store::mutate_value(old(self).objects(), key@, op@)),
            !crate::store::mutate_ok(old(self).objects(), key@, op@) ==> r == Err::<
                StoreValue,
                StoreError,
            >(crate::store::mutate_error(old(self).objects(), key@, op@)),
            final(self).handlers() == old(self).handlers(),
            final(self).phase() == old(self).phase(),
            final(self).pending() == old(self).pending(),
            final(self).listen_addrs() == old(self).listen_addrs(),
            final(self).inbound_bound() == old(self).inbound_bound(),
    {
        self.store.mutate(key, op)
    }

    /// The configured listen addresses, in the order they were added.
    pub fn listen_addresses(&self) -> (r: &Vec<String>)
        ensures
            r@.map_values(|a: String| a@) == self.listen_addrs(),
    {
        &self.addresses
    }

    /// The dispatch loop's current phase.
    pub fn current_phase(&self) -> (p: Phase)
        ensures
            p == self.phase(),
    {
        self.phase
    }

    /// How many dispatched invocations have not completed yet.
    pub fn pending_count(&self) -> (n: u64)
        ensures
            n == self.pending(),
    {
        self.in_flight
    }

    /// Decides one inbound envelope.
    ///
    /// The envelope's name is looked up in the registry: a registered name
    /// becomes an invocation of exactly the currently registered handler,
    /// carrying exactly this envelope's request and peer; an unregistered
    /// name is answered `HandlerNotFound` on its response channel at once.
    /// Every envelope is dispatched or answered — never dropped — and
    /// registry, store, phase and addresses are left untouched.
    pub fn dispatch_envelope(&mut self, env: ReceiveRequest) -> (step: Step)
        requires
            old(self).pending() < u64::MAX,
        ensures
            final(self).handlers() == old(self).handlers(),
            final(self).objects() == old(self).objects(),
            final(self).listen_addrs() == old(self).listen_addrs(),
            final(self).phase() == old(self).phase(),
            final(self).inbound_bound() == old(self).inbound_bound(),
            old(self).handlers().contains_key(env.request@.name) ==> (step matches Step::Invoked(inv)
                && inv@.request == env.request@
                && inv@.peer == env.peer_id@
                && inv@.handler == old(self).handlers()[env.request@.name]
                && final(self).pending() == old(self).pending() + 1),
            !old(self).handlers().contains_key(env.request@.name) ==> (step matches Step::NotFound {
                name,
                delivered: _,
                response,
            } && name@ == env.request@.name
                && response@ == RespV::Failure(DispatchFailure::HandlerNotFound)
                && final(self).pending() == old(self).pending()),
    {
        let ReceiveRequest { peer_id, request, response_tx } = env;
        match self.registry.lookup(request.name.as_str()) {
            Some(h) => {
                let handler = h.duplicate();
                self.in_flight = self.in_flight + 1;
                Step::Invoked(Invocation { handler, request, peer_id, response_tx })
            },
            None => {
                let delivered = match send_response(
                    response_tx,
                    Response::Failure(DispatchFailure::HandlerNotFound),
                ) {
                    Ok(_) => true,
                    Err(_) => false,
                };
                Step::NotFound {
                    name: request.name,
                    delivered,
                    response: Ghost(RespV::Failure(DispatchFailure::HandlerNotFound)),
                }
            },
        }
    }

    /// Pulls and decides at most one inbound request.
    ///
    /// While running: an unregistered name is answered `HandlerNotFound` at
    /// once and nothing changes; a registered name becomes an invocation of
    /// exactly the currently registered handler.  Once the actor stopped
    /// accepting — by [`Actor::shutdown`] or a closed channel — nothing is
    /// read and nothing changes.  Polling never runs a handler and never
    /// touches registry or store.
    pub fn poll(&mut self) -> (step: Step)
        requires
            old(self).pending() < u64::MAX,
        ensures
            final(self).handlers() == old(self).handlers(),
            final(self).objects() == old(self).objects(),
            final(self).listen_addrs() == old(self).listen_addrs(),
            final(self).inbound_bound() == old(self).inbound_bound(),
            old(self).phase() != Phase::Running ==> (step is Stopped && final(self).phase() == old(
                self,
            ).phase() && final(self).pending() == old(self).pending()),
            old(self).phase() == Phase::Running ==> match step {
                Step::Invoked(inv) => {
                    &&& old(self).handlers().contains_key(inv@.request.name)
                    &&& inv@.handler == old(self).handlers()[inv@.request.name]
                    &&& final(self).pending() == old(self).pending() + 1
                    &&& final(self).phase() == Phase::Running
                },
                Step::NotFound { name, delivered, response } => {
                    &&& !old(self).handlers().contains_key(name@)
                    &&& response@ == RespV::Failure(DispatchFailure::HandlerNotFound)
                    &&& final(self).pending() == old(self).pending()
                    &&& final(self).phase() == Phase::Running
                },
                Step::Empty => final(self).pending() == old(self).pending() && final(self).phase()
                    == Phase::Running,
                Step::Closed => {
                    &&& final(self).pending() == old(self).pending()
                    &&& final(self).phase() == closed_phase(old(self).phase(), old(self).pending())
                },
                Step::Stopped => false,
            },
    {
        match self.phase {
            Phase::Running => {},
            _ => {
                return Step::Stopped;
            },
        }
        match poll_next_request(&mut self.inbound_rx) {
            InboundPoll::Empty => Step::Empty,
            InboundPoll::Closed => {
                self.phase = if self.in_flight == 0 {
                    Phase::Shutdown
                } else {
                    Phase::Draining
                };
                Step::Closed
            },
            InboundPoll::Request(env) => self.dispatch_envelope(env),
        }
    }

    /// Completes one invocation: runs the handler against the object store
    /// and sends its one answer on the invocation's response channel.
    ///
    /// The answer is exactly [`handler_response`] and the store moves by
    /// exactly [`handler_store_after`] — a failing handler is answered with
    /// `HandlerExecutionFailure`, and a requester that is already gone gets
    /// the answer handed back, never a crash.  Completing the last
    /// in-flight invocation of a draining actor shuts it down.
    pub fn execute(&mut self, inv: Invocation) -> (done: Completion)
        ensures
            final(self).handlers() == old(self).handlers(),
            final(self).listen_addrs() == old(self).listen_addrs(),
            final(self).objects() == handler_store_after(inv@.handler, old(self).objects()),
            final(self).pending() == (if old(self).pending() > 0 {
                (old(self).pending() - 1) as u64
            } else {
                0
            }),
            final(self).phase() == completed_phase(old(self).phase(), final(self).pending()),
            final(self).inbound_bound() == old(self).inbound_bound(),
            done.response@ == handler_response(inv@.handler, inv@.request, old(self).objects()),
            done.delivery matches Delivery::ChannelClosed(r) ==> r@ == done.response@,
    {
        let Invocation { handler, request, peer_id: _, response_tx } = inv;
        let response = apply_handler(&handler, &request, &mut self.store);
        let ghost response_v = response@;
        let delivery = match send_response(response_tx, response) {
            Ok(_) => Delivery::Delivered,
            Err(r) => Delivery::ChannelClosed(r),
        };
        if self.in_flight > 0 {
            self.in_flight = self.in_flight - 1;
        }
        match self.phase {
            Phase::Draining => {
                if self.in_flight == 0 {
                    self.phase = Phase::Shutdown;
                }
            },
            _ => {},
        }
        Completion { delivery, response: Ghost(response_v) }
    }

    /// Stops accepting inbound requests: closes the channel's sending side
    /// and leaves only in-flight invocations to complete.  With nothing in
    /// flight the actor shuts down at once; otherwise it drains.
    pub fn shutdown(&mut self)
        ensures
            final(self).handlers() == old(self).handlers(),
            final(self).objects() == old(self).objects(),
            final(self).listen_addrs() == old(self).listen_addrs(),
            final(self).pending() == old(self).pending(),
            final(self).inbound_bound() == old(self).inbound_bound(),
            final(self).phase() == closed_phase(old(self).phase(), old(self).pending()),
    {
        close_request_channel(&mut self.inbound_rx);
        match self.phase {
            Phase::Shutdown => {},
            _ => {
                self.phase = if self.in_flight == 0 {
                    Phase::Shutdown
                } else {
                    Phase::Draining
                };
            },
        }
    }

    /// Drives the dispatch loop over what is currently buffered: each
    /// pulled request is decided and, when it matched a handler, completed
    /// inline.  At most `limit` requests are answered in one batch, so a
    /// full channel cannot starve the caller's other work.  Returns how
    /// many requests were answered; fewer than `limit` means the channel
    /// ran empty or closed, or the actor no longer accepts requests.
    /// Registry, listen addresses and the in-flight count are left as they
    /// were.
    pub fn process_available(&mut self, limit: usize) -> (n: usize)
        requires
            old(self).pending() < u64::MAX,
        ensures
            final(self).handlers() == old(self).handlers(),
            final(self).listen_addrs() == old(self).listen_addrs(),
            final(self).pending() == old(self).pending(),
            final(self).inbound_bound() == old(self).inbound_bound(),
            n <= limit,
            old(self).phase() != Phase::Running ==> (n == 0 && final(self).objects() == old(
                self,
            ).objects() && final(self).phase() == old(self).phase()),
            final(self).phase() == Phase::Running ==> old(self).phase() == Phase::Running,
    {
        let mut n: usize = 0;
        while n < limit
            invariant
                self.handlers() == old(self).handlers(),
                self.listen_addrs() == old(self).listen_addrs(),
                self.pending() == old(self).pending(),
                self.inbound_bound() == old(self).inbound_bound(),
                old(self).pending() < u64::MAX,
                n <= limit,
                old(self).phase() != Phase::Running ==> (n == 0 && self.objects() == old(
                    self,
                ).objects() && self.phase() == old(self).phase()),
                self.phase() == Phase::Running ==> old(self).phase() == Phase::Running,
            decreases limit - n,
        {
            match self.poll() {
                Step::Invoked(inv) => {
                    self.execute(inv);
                    n = n + 1;
                },
                Step::NotFound { .. } => {
                    n = n + 1;
                },
                Step::Empty => {
                    return n;
                },
                Step::Closed => {
                    return n;
                },
                Step::Stopped => {
                    return n;
                },
            }
        }
        n
    }
}

/// Closing the inbound channel with invocations still in flight, as one
/// story: the actor drains rather than shutting down; a draining actor's
/// poll reads nothing, so no further request is accepted; each in-flight
/// invocation still has its one total answer; and completing the last of
/// them — and only that — moves the actor to `Shutdown`.
pub proof fn lemma_close_waits_for_in_flight(
    pending: u64,
    h: HandlerV,
    req: MsgV,
    store: Map<Seq<char>, StoreValueV>,
)
    requires
        0 < pending,
    ensures
        closed_phase(Phase::Running, pending) == Phase::Draining,
        handler_response(h, req, store) is Success || handler_response(h, req, store) is Failure,
        pending > 1 ==> completed_phase(Phase::Draining, (pending - 1) as u64) == Phase::Draining,
        completed_phase(Phase::Draining, 0) == Phase::Shutdown,
{
}

} // verus!
