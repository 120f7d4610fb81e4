//! The unit of request/response payload: a message identified by a logical
//! name plus an opaque body, and the response envelope the runtime answers
//! with.

use vstd::prelude::*;

verus! {

/// Mathematical model of a [`NamedMessage`]: its name as a character
/// sequence and its body as a byte sequence.
pub struct MsgV {
    pub name: Seq<char>,
    pub data: Seq<u8>,
}

/// A message identified by a logical name plus an opaque body.
///
/// The name is used verbatim as the handler-registry lookup key; the body is
/// opaque to the runtime and interpreted only by the matched handler.
pub struct NamedMessage {
    pub name: String,
    pub data: Vec<u8>,
}

impl View for NamedMessage {
    type V = MsgV;

    open spec fn view(&self) -> MsgV {
        MsgV { name: self.name@, data: self.data@ }
    }
}

impl NamedMessage {
    /// A message is valid when its name is non-empty: the empty name can
    /// never match a registered handler.
    pub open spec fn valid(self) -> bool {
        self.name@.len() > 0
    }

    /// Builds a message, rejecting the empty name.
    pub fn new(name: String, data: Vec<u8>) -> (r: Option<NamedMessage>)
        ensures
            r is Some <==> name@.len() > 0,
            r matches Some(m) ==> m@ == (MsgV { name: name@, data: data@ }) && m.valid(),
    {
        if name.as_str().is_empty() {
            None
        } else {
            Some(NamedMessage { name, data })
        }
    }

    /// Deep copy of the message.
    pub fn duplicate(&self) -> (r: NamedMessage)
        ensures
            r@ == self@,
    {
        NamedMessage { name: self.name.clone(), data: clone_bytes(&self.data) }
    }
}

/// Byte-for-byte copy of a buffer.
pub fn clone_bytes(v: &Vec<u8>) -> (r: Vec<u8>)
    ensures
        r@ == v@,
{
    let mut r: Vec<u8> = Vec::new();
    let mut i: usize = 0;
    while i < v.len()
        invariant
            i <= v.len(),
            r@ == v@.take(i as int),
        decreases v.len() - i,
    {
        r.push(v[i]);
        i = i + 1;
        proof {
            assert(r@ =~= v@.take(i as int));
        }
    }
    proof {
        assert(r@ =~= v@);
    }
    r
}

/// The ways a request can fail to produce a success payload.
///
/// Both are recovered locally: they are answered back to the requesting peer
/// as a normal failure response, never by crashing the dispatch loop.
#[derive(PartialEq, Eq, Structural, Clone, Copy, Debug)]
pub enum DispatchFailure {
    /// No handler is registered for the requested message name.
    HandlerNotFound,
    /// The matched handler failed during execution.
    HandlerExecutionFailure,
}

/// Mathematical model of a [`Response`].
pub enum RespV {
    Success(MsgV),
    Failure(DispatchFailure),
}

/// What the runtime sends back on a request's response channel: the matched
/// handler's payload, or a failure indicator.
pub enum Response {
    Success(NamedMessage),
    Failure(DispatchFailure),
}

impl View for Response {
    type V = RespV;

    open spec fn view(&self) -> RespV {
        match self {
            Response::Success(m) => RespV::Success(m@),
            Response::Failure(f) => RespV::Failure(*f),
        }
    }
}

} // verus!
