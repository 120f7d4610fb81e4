//! The actor builder: accumulates configuration — identity keys, listen
//! addresses, firewall default, transport choice — and produces a running
//! [`Actor`].
//!
//! The peer-to-peer communication layer itself is an external collaborator:
//! it receives the builder's configuration and the sending half of the
//! inbound channel, performs transport construction and address binding,
//! and reports how that went as a [`SetupOutcome`].  `build` turns that
//! report into either a fully constructed actor or a
//! [`CommunicationSetupError`].

use vstd::prelude::*;
use crate::channel::{ReceiveRequest, bound_of, clone_request_sender, new_request_channel};
use crate::runtime::{Actor, INBOUND_CAPACITY};

verus! {

/// An explicit identity keypair for the communication layer, as opaque key
/// material.  Absent one, the layer derives a default identity.
pub struct IdentityKeys {
    pub material: Vec<u8>,
}

/// The admission policy handed to the communication layer.  The builder
/// defaults to allowing all peers — explicit opt-in through the layer's own
/// configuration surface is required to restrict traffic.
#[derive(PartialEq, Eq, Structural, Clone, Copy, Debug)]
pub enum FirewallPolicy {
    AllowAll,
}

/// The capability set a caller-supplied transport must offer: duplex
/// byte-stream output, cloneability, and safe use across concurrent dial
/// and listen operations.
#[derive(PartialEq, Eq, Structural, Clone, Copy, Debug)]
pub struct TransportProfile {
    pub duplex: bool,
    pub cloneable: bool,
    pub concurrent_safe: bool,
}

/// Whether a transport offers every required capability.
pub open spec fn transport_suitable(t: TransportProfile) -> bool {
    t.duplex && t.cloneable && t.concurrent_safe
}

/// The communication layer's report on finalizing the actor's setup.
pub enum SetupOutcome {
    /// Every configured listen address bound and the transport stands.
    Ready,
    /// The named listen address could not be bound.
    BindFailed(String),
    /// Transport construction failed.
    TransportFailed,
}

/// Why `build` or `build_with_transport` failed.  Fatal to building:
/// surfaced to the caller, never retried internally.
#[derive(Debug)]
pub enum CommunicationSetupError {
    /// The communication layer could not bind the named listen address.
    BindFailed(String),
    /// The transport could not be constructed or lacks a required
    /// capability.
    TransportFailed,
}

/// Accumulates configuration and produces a validated, running [`Actor`].
pub struct ActorBuilder {
    inbound_tx: futures::channel::mpsc::Sender<ReceiveRequest>,
    inbound_rx: futures::channel::mpsc::Receiver<ReceiveRequest>,
    keys: Option<IdentityKeys>,
    firewall: FirewallPolicy,
    listening_addresses: Vec<String>,
}

impl ActorBuilder {
    /// The configured identity key material, if any.
    pub closed spec fn keys_cfg(&self) -> Option<Seq<u8>> {
        match self.keys {
            Some(k) => Some(k.material@),
            None => None,
        }
    }

    /// The configured admission policy.
    pub closed spec fn firewall_cfg(&self) -> FirewallPolicy {
        self.firewall
    }

    /// The configured listen addresses, in insertion order.
    pub closed spec fn listen_addrs(&self) -> Seq<Seq<char>> {
        self.listening_addresses@.map_values(|a: String| a@)
    }

    /// The buffer size of the builder's bounded inbound channel.
    pub closed spec fn inbound_bound(&self) -> usize {
        bound_of(self.inbound_rx)
    }

    /// A fresh builder: a bounded inbound channel of [`INBOUND_CAPACITY`]
    /// pending requests, an all-allow firewall default, no explicit
    /// identity, no listen addresses.
    pub fn new() -> (b: ActorBuilder)
        ensures
            b.keys_cfg() is None,
            b.firewall_cfg() == FirewallPolicy::AllowAll,
            b.listen_addrs() == Seq::<Seq<char>>::empty(),
            b.inbound_bound() == INBOUND_CAPACITY,
    {
        let (inbound_tx, inbound_rx) = new_request_channel(INBOUND_CAPACITY);
        let b = ActorBuilder {
            inbound_tx,
            inbound_rx,
            keys: None,
            firewall: FirewallPolicy::AllowAll,
            listening_addresses: Vec::new(),
        };
        proof {
            assert(b.listen_addrs() =~= Seq::<Seq<char>>::empty());
        }
        b
    }

    /// Installs an explicit identity keypair for the communication layer.
    pub fn keys(self, keys: IdentityKeys) -> (b: ActorBuilder)
        ensures
            b.keys_cfg() == Some(keys.material@),
            b.firewall_cfg() == self.firewall_cfg(),
            b.listen_addrs() == self.listen_addrs(),
            b.inbound_bound() == self.inbound_bound(),
    {
        ActorBuilder { keys: Some(keys), ..self }
    }

    /// Appends an address to the listen set; multiple calls accumulate and
    /// insertion order is preserved.
    pub fn listen_on(self, address: String) -> (b: ActorBuilder)
        ensures
            b.listen_addrs() == self.listen_addrs().push(address@),
            b.keys_cfg() == self.keys_cfg(),
            b.firewall_cfg() == self.firewall_cfg(),
            b.inbound_bound() == self.inbound_bound(),
    {
        let ActorBuilder { inbound_tx, inbound_rx, keys, firewall, mut listening_addresses } = self;
        listening_addresses.push(address);
        let b = ActorBuilder { inbound_tx, inbound_rx, keys, firewall, listening_addresses };
        proof {
            assert(b.listen_addrs() =~= self.listen_addrs().push(address@));
        }
        b
    }

    /// The sending half of the inbound channel, for the communication
    /// layer to surface admitted requests on.
    pub fn inbound_sender(&self) -> futures::channel::mpsc::Sender<ReceiveRequest> {
        clone_request_sender(&self.inbound_tx)
    }

    /// The configured identity keypair, for the communication layer.
    pub fn configured_keys(&self) -> (r: &Option<IdentityKeys>)
        ensures
            match r {
                Some(k) => self.keys_cfg() == Some(k.material@),
                None => self.keys_cfg() is None,
            },
    {
        &self.keys
    }

    /// The configured admission policy, for the communication layer.
    pub fn configured_firewall(&self) -> (r: FirewallPolicy)
        ensures
            r == self.firewall_cfg(),
    {
        self.firewall
    }

    /// Consumes the builder and produces a running actor over the
    /// communication layer's default transport.
    ///
    /// `setup` is the layer's report on binding the configured listen
    /// addresses: the build succeeds exactly when every address bound, and
    /// the returned actor starts with an empty handler registry, an empty
    /// object store, nothing in flight, and the configured addresses.
    pub fn build(self, setup: SetupOutcome) -> (r: Result<Actor, CommunicationSetupError>)
        ensures
            r is Ok <==> setup is Ready,
            r matches Ok(a) ==> {
                &&& a.handlers() == Map::<Seq<char>, crate::registry::HandlerV>::empty()
                &&& a.objects() == Map::<Seq<char>, crate::store::StoreValueV>::empty()
                &&& a.phase() == crate::runtime::Phase::Running
                &&& a.pending() == 0
                &&& a.listen_addrs() == self.listen_addrs()
                &&& a.inbound_bound() == self.inbound_bound()
            },
            setup matches SetupOutcome::BindFailed(addr) ==> (r matches Err(e) && e matches CommunicationSetupError::BindFailed(a2) && a2@ == addr@),
            setup is TransportFailed ==> (r matches Err(e) && e is TransportFailed),
    {
        let ActorBuilder { inbound_tx: _, inbound_rx, keys: _, firewall: _, listening_addresses } = self;
        match setup {
            SetupOutcome::Ready => Ok(Actor::assemble(inbound_rx, listening_addresses)),
            SetupOutcome::BindFailed(addr) => Err(CommunicationSetupError::BindFailed(addr)),
            SetupOutcome::TransportFailed => Err(CommunicationSetupError::TransportFailed),
        }
    }

    /// Consumes the builder and produces a running actor over a
    /// caller-supplied transport.
    ///
    /// The transport must offer the full capability set of
    /// [`TransportProfile`]; one that does not is refused before any
    /// binding is attempted.  With a suitable transport the build behaves
    /// as [`ActorBuilder::build`], and the resulting actor is
    /// transport-agnostic.
    pub fn build_with_transport(self, transport: TransportProfile, setup: SetupOutcome) -> (r:
        Result<Actor, CommunicationSetupError>)
        ensures
            r is Ok <==> (transport_suitable(transport) && setup is Ready),
            !transport_suitable(transport) ==> (r matches Err(e) && e is TransportFailed),
            r matches Ok(a) ==> {
                &&& a.handlers() == Map::<Seq<char>, crate::registry::HandlerV>::empty()
                &&& a.objects() == Map::<Seq<char>, crate::store::StoreValueV>::empty()
                &&& a.phase() == crate::runtime::Phase::Running
                &&& a.pending() == 0
                &&& a.listen_addrs() == self.listen_addrs()
                &&& a.inbound_bound() == self.inbound_bound()
            },
            transport_suitable(transport) ==> match setup {
                SetupOutcome::Ready => r is Ok,
                SetupOutcome::BindFailed(addr) => r matches Err(e) && e matches CommunicationSetupError::BindFailed(a2)
                    && a2@ == addr@,
                SetupOutcome::TransportFailed => r matches Err(e) && e is TransportFailed,
            },
    {
        if !(transport.duplex && transport.cloneable && transport.concurrent_safe) {
            return Err(CommunicationSetupError::TransportFailed);
        }
        self.build(setup)
    }
}

} // verus!
