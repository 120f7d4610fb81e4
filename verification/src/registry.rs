//! The handler registry: a mapping from message name to handler, shared by
//! the dispatch loop and any registration calls made while the actor runs.
//!
//! Handlers form a closed set of capabilities ([`Handler`]) rather than
//! arbitrary function values, so dispatch needs no runtime type inspection:
//! each variant's behaviour against a request and the object store is pinned
//! down in `dispatch`.

use vstd::prelude::*;
use vstd::hash_map::StringHashMap;
use crate::messages::clone_bytes;

verus! {

/// Mathematical model of a [`Handler`].
pub enum HandlerV {
    Echo,
    Reply(Seq<u8>),
    Count(Seq<char>),
    Faulty,
}

/// A message handler: one of a closed set of capabilities, keyed by message
/// name in the registry.
pub enum Handler {
    /// Answers every request with the request's own body.
    Echo,
    /// Answers every request with the given fixed body.
    Reply(Vec<u8>),
    /// Increments the counter stored under the given object-store key and
    /// answers with the new count, little-endian.
    Count(String),
    /// Fails on every request; stands for a handler whose execution raises
    /// an error or panics.
    Faulty,
}

impl View for Handler {
    type V = HandlerV;

    open spec fn view(&self) -> HandlerV {
        match self {
            Handler::Echo => HandlerV::Echo,
            Handler::Reply(b) => HandlerV::Reply(b@),
            Handler::Count(k) => HandlerV::Count(k@),
            Handler::Faulty => HandlerV::Faulty,
        }
    }
}

impl Handler {
    /// Deep copy of the handler.
    pub fn duplicate(&self) -> (r: Handler)
        ensures
            r@ == self@,
    {
        match self {
            Handler::Echo => Handler::Echo,
            Handler::Reply(b) => Handler::Reply(clone_bytes(b)),
            Handler::Count(k) => Handler::Count(k.clone()),
            Handler::Faulty => Handler::Faulty,
        }
    }
}

/// A mapping from message name to handler with constant-time amortized
/// lookup.
///
/// The registry holds at most one handler per name: registration under an
/// already-registered name replaces the previous handler, and a
/// registration for one name never disturbs the entry of any other name.
pub struct HandlerRegistry {
    entries: StringHashMap<Handler>,
}

impl View for HandlerRegistry {
    type V = Map<Seq<char>, HandlerV>;

    closed spec fn view(&self) -> Map<Seq<char>, HandlerV> {
        self.entries@.map_values(|h: Handler| h@)
    }
}

impl HandlerRegistry {
    /// An empty registry.
    pub fn new() -> (r: HandlerRegistry)
        ensures
            r@ == Map::<Seq<char>, HandlerV>::empty(),
    {
        let r = HandlerRegistry { entries: StringHashMap::new() };
        proof {
            assert(r@ =~= Map::<Seq<char>, HandlerV>::empty());
        }
        r
    }

    /// Registers `handler` for `name`, replacing any handler previously
    /// registered under that name and leaving every other name's entry
    /// untouched.
    pub fn register(&mut self, name: String, handler: Handler)
        requires
            name@.len() > 0,
        ensures
            final(self)@ == old(self)@.insert(name@, handler@),
    {
        let ghost before = self@;
        let ghost h_view = handler@;
        self.entries.insert(name, handler);
        proof {
            assert(self@ =~= before.insert(name@, h_view));
        }
    }

    /// Looks up the handler currently registered for `name`; `None` when the
    /// name is unregistered.
    pub fn lookup<'a>(&'a self, name: &str) -> (r: Option<&'a Handler>)
        ensures
            match r {
                Some(h) => self@.contains_key(name@) && h@ == self@[name@],
                None => !self@.contains_key(name@),
            },
    {
        self.entries.get(name)
    }

    /// The number of registered names.
    pub fn len(&self) -> (n: usize)
        ensures
            n == self@.len(),
    {
        proof {
            assert(self@.dom() =~= self.entries@.dom());
        }
        self.entries.len()
    }
}

} // verus!
