//! An actor runtime for named, typed message handlers.
//!
//! A process assembles an [`Actor`](runtime::Actor) through the
//! [`ActorBuilder`](builder::ActorBuilder), registers handlers under logical
//! message names, and lets an external communication layer feed inbound
//! requests into the actor's bounded channel.  The actor matches each request
//! against its handler registry, runs the matched handler against the shared
//! object store, and answers exactly once on the request's single-use
//! response channel.

pub mod builder;
pub mod channel;
pub mod dispatch;
pub mod messages;
pub mod registry;
pub mod runtime;
pub mod store;

pub use builder::ActorBuilder;
pub use builder::CommunicationSetupError;
pub use builder::FirewallPolicy;
pub use builder::IdentityKeys;
pub use builder::SetupOutcome;
pub use builder::TransportProfile;
pub use channel::ReceiveRequest;
pub use messages::DispatchFailure;
pub use messages::MsgV;
pub use messages::NamedMessage;
pub use messages::RespV;
pub use messages::Response;
pub use registry::Handler;
pub use registry::HandlerRegistry;
pub use runtime::Actor;
pub use runtime::Completion;
pub use runtime::Delivery;
pub use runtime::Invocation;
pub use runtime::Phase;
pub use runtime::Step;
pub use runtime::INBOUND_CAPACITY;
pub use store::MutateOp;
pub use store::ObjectStore;
pub use store::StoreError;
pub use store::StoreValue;
