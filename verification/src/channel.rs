//! The channel boundary between the actor and the external communication
//! layer.
//!
//! Inbound requests arrive on a bounded multi-producer channel whose sending
//! half belongs to the communication layer; every request carries a
//! single-use response channel on which exactly one answer travels back.
//! Both channels come from the `futures` crate and stand behind trusted
//! wrappers here; the runtime's logic is verified against their contracts
//! for every value the channels can yield.

use vstd::prelude::*;
use crate::messages::{NamedMessage, Response};

verus! {

/// Declares `futures::channel::mpsc::Sender`: the sending half of the
/// bounded inbound channel, held by the communication layer.
#[verifier::external_type_specification]
#[verifier::external_body]
#[verifier::reject_recursive_types(T)]
pub struct ExMpscSender<T>(futures::channel::mpsc::Sender<T>);

/// Declares `futures::channel::mpsc::Receiver`: the receiving half of the
/// bounded inbound channel, owned by the actor.
#[verifier::external_type_specification]
#[verifier::external_body]
#[verifier::reject_recursive_types(T)]
pub struct ExMpscReceiver<T>(futures::channel::mpsc::Receiver<T>);

/// Declares `futures::channel::oneshot::Sender`: the write-once response
/// handle carried by each inbound request.
#[verifier::external_type_specification]
#[verifier::external_body]
#[verifier::reject_recursive_types(T)]
pub struct ExOneshotSender<T>(futures::channel::oneshot::Sender<T>);

/// An inbound envelope: the requesting peer, its request, and the
/// single-use channel its one answer must travel back on.
pub struct ReceiveRequest {
    /// Opaque identity of the requesting peer.
    pub peer_id: Vec<u8>,
    /// The request to dispatch.
    pub request: NamedMessage,
    /// Write-once handle for the answer; consumed by the one send.
    pub response_tx: futures::channel::oneshot::Sender<Response>,
}

/// What one poll of the inbound channel yielded.
pub enum InboundPoll {
    /// A request was fetched.
    Request(ReceiveRequest),
    /// No request is buffered, but the channel is still open.
    Empty,
    /// The channel is closed and fully drained.
    Closed,
}

/// The buffer size the bounded inbound channel was created with: the
/// channel holds about this many queued requests (its exact capacity is
/// this plus the number of live senders) before refusing further sends.
pub uninterp spec fn bound_of(rx: futures::channel::mpsc::Receiver<ReceiveRequest>) -> usize;

/// Relies on `futures::channel::mpsc::channel`: creates a bounded channel
/// of the given buffer size for inbound requests, sending half for the
/// communication layer, receiving half for the actor.  The callee refuses
/// absurd buffer sizes with a panic, hence the bound on `capacity`.
#[verifier::external_body]
pub(crate) fn new_request_channel(capacity: usize) -> (r: (futures::channel::mpsc::Sender<
    ReceiveRequest,
>, futures::channel::mpsc::Receiver<ReceiveRequest>))
    requires
        capacity < usize::MAX / 4,
    ensures
        bound_of(r.1) == capacity,
{
    futures::channel::mpsc::channel(capacity)
}

/// Relies on `futures::channel::mpsc::Receiver::try_recv`: yields a buffered
/// request if one is there, else reports the channel empty or closed.
/// Which of the three comes back depends on what peers have sent, so the
/// runtime is verified against every outcome.  Receiving never changes the
/// buffer size the channel was made with.
#[verifier::external_body]
pub(crate) fn poll_next_request(rx: &mut futures::channel::mpsc::Receiver<ReceiveRequest>) -> (p:
    InboundPoll)
    ensures
        bound_of(*final(rx)) == bound_of(*old(rx)),
{
    match rx.try_recv() {
        Ok(req) => InboundPoll::Request(req),
        Err(e) => if e.is_closed() {
            InboundPoll::Closed
        } else {
            InboundPoll::Empty
        },
    }
}

/// Relies on `futures::channel::mpsc::Receiver::close`: stops the sending
/// half from queueing further requests, while what is already buffered can
/// still be drained.  Closing never changes the buffer size the channel
/// was made with.
#[verifier::external_body]
pub(crate) fn close_request_channel(rx: &mut futures::channel::mpsc::Receiver<ReceiveRequest>)
    ensures
        bound_of(*final(rx)) == bound_of(*old(rx)),
{
    rx.close()
}

/// Relies on `futures::channel::mpsc::Sender::clone`: hands the
/// communication layer another sending half of the inbound channel.
#[verifier::external_body]
pub(crate) fn clone_request_sender(tx: &futures::channel::mpsc::Sender<ReceiveRequest>) -> (futures::channel::mpsc::Sender<
    ReceiveRequest,
>) {
    tx.clone()
}

/// Relies on `futures::channel::oneshot::Sender::send`: consumes the
/// single-use handle and delivers `response` to the requester, or hands the
/// very response back when the requester is already gone.
#[verifier::external_body]
pub(crate) fn send_response(tx: futures::channel::oneshot::Sender<Response>, response: Response) -> (r:
    Result<(), Response>)
    ensures
        r matches Err(v) ==> v@ == response@,
{
    tx.send(response)
}

} // verus!
