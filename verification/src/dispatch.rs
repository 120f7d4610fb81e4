//! Dispatch semantics: how a request is matched to a handler and how the
//! matched handler answers it against the object store.
//!
//! The spec functions here are the single source of truth for what a
//! request's answer is.  [`apply_handler`] is the executable handler
//! execution, proved against them; the lemmas at the bottom state the
//! dispatch laws the runtime's contracts rest on.

use vstd::prelude::*;
use crate::messages::{DispatchFailure, MsgV, NamedMessage, RespV, Response, clone_bytes};
use crate::registry::HandlerV;
use crate::registry::Handler;
use crate::store::{MutateOp, MutateOpV, ObjectStore, StoreValueV, counter_base, mutate_ok, mutate_value, store_after_mutate};

verus! {

/// The eight little-endian bytes of a counter value, as carried in a
/// [`Handler::Count`] response body.
pub open spec fn u64_le_bytes(v: u64) -> Seq<u8> {
    seq![
        (v % 256) as u8,
        ((v / 0x100) % 256) as u8,
        ((v / 0x1_0000) % 256) as u8,
        ((v / 0x100_0000) % 256) as u8,
        ((v / 0x1_0000_0000) % 256) as u8,
        ((v / 0x100_0000_0000) % 256) as u8,
        ((v / 0x1_0000_0000_0000) % 256) as u8,
        ((v / 0x100_0000_0000_0000) % 256) as u8,
    ]
}

/// Encodes a counter value as its eight little-endian bytes.
pub fn encode_u64_le(v: u64) -> (r: Vec<u8>)
    ensures
        r@ == u64_le_bytes(v),
{
    let mut r: Vec<u8> = Vec::new();
    r.push((v % 256) as u8);
    r.push(((v / 0x100) % 256) as u8);
    r.push(((v / 0x1_0000) % 256) as u8);
    r.push(((v / 0x100_0000) % 256) as u8);
    r.push(((v / 0x1_0000_0000) % 256) as u8);
    r.push(((v / 0x100_0000_0000) % 256) as u8);
    r.push(((v / 0x1_0000_0000_0000) % 256) as u8);
    r.push(((v / 0x100_0000_0000_0000) % 256) as u8);
    proof {
        assert(r@ =~= u64_le_bytes(v));
    }
    r
}

/// The store operation a handler performs: [`HandlerV::Count`] increments
/// its key, every other handler leaves the store alone.
pub open spec fn handler_touches(h: HandlerV) -> Option<Seq<char>> {
    match h {
        HandlerV::Count(key) => Some(key),
        _ => None,
    }
}

/// The response `h` gives to `req` when the store model is `store`:
/// exactly one response for every handler, request and store, a failure
/// included, so no request is ever left unanswered.
pub open spec fn handler_response(h: HandlerV, req: MsgV, store: Map<Seq<char>, StoreValueV>) -> RespV {
    match h {
        HandlerV::Echo => RespV::Success(MsgV { name: req.name, data: req.data }),
        HandlerV::Reply(body) => RespV::Success(MsgV { name: req.name, data: body }),
        HandlerV::Count(key) => if mutate_ok(store, key, MutateOpV::Increment) {
            RespV::Success(
                MsgV { name: req.name, data: u64_le_bytes((counter_base(store, key)->Some_0 + 1) as u64) },
            )
        } else {
            RespV::Failure(DispatchFailure::HandlerExecutionFailure)
        },
        HandlerV::Faulty => RespV::Failure(DispatchFailure::HandlerExecutionFailure),
    }
}

/// The store model after `h` has answered `req`: a single-key update for a
/// clean [`HandlerV::Count`], the unchanged model for every other handler
/// and for every failure.
pub open spec fn handler_store_after(h: HandlerV, store: Map<Seq<char>, StoreValueV>) -> Map<Seq<char>, StoreValueV> {
    match h {
        HandlerV::Count(key) => store_after_mutate(store, key, MutateOpV::Increment),
        _ => store,
    }
}

/// Runs `handler` on `request` against `store` and returns its response.
///
/// This is the handler-execution step of the dispatch loop: it answers with
/// exactly [`handler_response`] and changes the store by exactly
/// [`handler_store_after`] — a failing handler answers with a failure and
/// leaves the store untouched, it never goes unanswered.
pub fn apply_handler(handler: &Handler, request: &NamedMessage, store: &mut ObjectStore) -> (r: Response)
    ensures
        r@ == handler_response(handler@, request@, old(store)@),
        final(store)@ == handler_store_after(handler@, old(store)@),
{
    match handler {
        Handler::Echo => Response::Success(request.duplicate()),
        Handler::Reply(body) => Response::Success(
            NamedMessage { name: request.name.clone(), data: clone_bytes(body) },
        ),
        Handler::Count(key) => {
            match store.mutate(key, MutateOp::Increment) {
                Ok(v) => {
                    let count: u64 = match v {
                        crate::store::StoreValue::Counter(c) => c,
                        crate::store::StoreValue::Bytes(_) => {
                            proof {
                                assert(mutate_value(old(store)@, key@, MutateOpV::Increment) is Counter);
                                assert(false);
                            }
                            0
                        },
                    };
                    Response::Success(
                        NamedMessage { name: request.name.clone(), data: encode_u64_le(count) },
                    )
                },
                Err(_) => Response::Failure(DispatchFailure::HandlerExecutionFailure),
            }
        },
        Handler::Faulty => Response::Failure(DispatchFailure::HandlerExecutionFailure),
    }
}

/// The answer a whole dispatch gives `req`: the currently registered
/// handler's response when `req.name` is registered, `HandlerNotFound`
/// otherwise.  Total: every request has exactly one answer.
pub open spec fn request_outcome(
    handlers: Map<Seq<char>, HandlerV>,
    req: MsgV,
    store: Map<Seq<char>, StoreValueV>,
) -> RespV {
    if handlers.contains_key(req.name) {
        handler_response(handlers[req.name], req, store)
    } else {
        RespV::Failure(DispatchFailure::HandlerNotFound)
    }
}

/// The store model after a whole dispatch of `req`.
pub open spec fn store_outcome(
    handlers: Map<Seq<char>, HandlerV>,
    req: MsgV,
    store: Map<Seq<char>, StoreValueV>,
) -> Map<Seq<char>, StoreValueV> {
    if handlers.contains_key(req.name) {
        handler_store_after(handlers[req.name], store)
    } else {
        store
    }
}

/// Dispatch invokes exactly the currently registered handler: once `h` is
/// registered for `name`, a request for `name` is answered by `h` and by no
/// other handler, whatever was registered for `name` before.
pub proof fn lemma_dispatch_uses_registered_handler(
    handlers: Map<Seq<char>, HandlerV>,
    name: Seq<char>,
    h: HandlerV,
    req: MsgV,
    store: Map<Seq<char>, StoreValueV>,
)
    requires
        req.name == name,
    ensures
        request_outcome(handlers.insert(name, h), req, store) == handler_response(h, req, store),
        store_outcome(handlers.insert(name, h), req, store) == handler_store_after(h, store),
{
}

/// Every request is answered exactly once: the dispatch outcome is a single
/// response — a success or a failure — for every registry, request and
/// store, even when the matched handler fails.  In particular a failing
/// handler yields a `HandlerExecutionFailure` answer, never silence.
pub proof fn lemma_every_request_answered(
    handlers: Map<Seq<char>, HandlerV>,
    req: MsgV,
    store: Map<Seq<char>, StoreValueV>,
)
    ensures
        request_outcome(handlers, req, store) is Success || request_outcome(handlers, req, store) is Failure,
        handlers.contains_key(req.name) && handlers[req.name] is Faulty ==> request_outcome(
            handlers,
            req,
            store,
        ) == RespV::Failure(DispatchFailure::HandlerExecutionFailure),
{
}

/// A request for an unregistered name is answered with `HandlerNotFound`
/// and changes nothing: the store is left as it was.
pub proof fn lemma_unregistered_name_not_found(
    handlers: Map<Seq<char>, HandlerV>,
    req: MsgV,
    store: Map<Seq<char>, StoreValueV>,
)
    requires
        !handlers.contains_key(req.name),
    ensures
        request_outcome(handlers, req, store) == RespV::Failure(DispatchFailure::HandlerNotFound),
        store_outcome(handlers, req, store) == store,
{
}

/// Handler executions over distinct store keys are independent: when the
/// two handlers touch different keys (or none), running them in either
/// order leaves the same store, and neither changes what the other
/// answers.  Concurrent invocations of such handlers may therefore be
/// serialized in any order — they never wait on one another's state.
pub proof fn lemma_independent_handlers_commute(
    h1: HandlerV,
    h2: HandlerV,
    req1: MsgV,
    req2: MsgV,
    store: Map<Seq<char>, StoreValueV>,
)
    requires
        handler_touches(h1) is None || handler_touches(h2) is None || handler_touches(h1)
            != handler_touches(h2),
    ensures
        handler_store_after(h2, handler_store_after(h1, store)) == handler_store_after(
            h1,
            handler_store_after(h2, store),
        ),
        handler_response(h2, req2, handler_store_after(h1, store)) == handler_response(
            h2,
            req2,
            store,
        ),
        handler_response(h1, req1, handler_store_after(h2, store)) == handler_response(
            h1,
            req1,
            store,
        ),
{
    match (h1, h2) {
        (HandlerV::Count(k1), HandlerV::Count(k2)) => {
            crate::store::lemma_mutate_independent_keys(
                store,
                k1,
                k2,
                MutateOpV::Increment,
                MutateOpV::Increment,
            );
            assert(counter_base(store_after_mutate(store, k1, MutateOpV::Increment), k2)
                == counter_base(store, k2));
            assert(counter_base(store_after_mutate(store, k2, MutateOpV::Increment), k1)
                == counter_base(store, k1));
        },
        _ => {},
    }
}

/// Dispatch for two different names is independent: registering a handler
/// for one name changes neither the answer nor the store effect of a
/// request for the other, so requests for distinct names never stand in
/// each other's way at the registry.
pub proof fn lemma_distinct_names_independent(
    handlers: Map<Seq<char>, HandlerV>,
    name: Seq<char>,
    h: HandlerV,
    req: MsgV,
    store: Map<Seq<char>, StoreValueV>,
)
    requires
        req.name != name,
    ensures
        request_outcome(handlers.insert(name, h), req, store) == request_outcome(handlers, req, store),
        store_outcome(handlers.insert(name, h), req, store) == store_outcome(handlers, req, store),
{
}

} // verus!
