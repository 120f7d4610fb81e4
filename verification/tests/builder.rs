use identity_actor::{
    ActorBuilder, CommunicationSetupError, FirewallPolicy, Handler, IdentityKeys, NamedMessage,
    SetupOutcome, TransportProfile,
};
use identity_actor::dispatch::encode_u64_le;
use identity_actor::registry::HandlerRegistry;

#[test]
fn builder_defaults_are_permissive_and_empty() {
    let builder = ActorBuilder::new();
    assert_eq!(builder.configured_firewall(), FirewallPolicy::AllowAll);
    assert!(builder.configured_keys().is_none());
    let actor = builder.build(SetupOutcome::Ready).expect("setup ready");
    assert!(actor.listen_addresses().is_empty());
}

#[test]
fn listen_on_accumulates_in_order() {
    let actor = ActorBuilder::new()
        .listen_on("/ip4/127.0.0.1/tcp/7000".to_string())
        .listen_on("/ip4/0.0.0.0/tcp/7001".to_string())
        .build(SetupOutcome::Ready)
        .expect("setup ready");
    assert_eq!(
        actor.listen_addresses().as_slice(),
        ["/ip4/127.0.0.1/tcp/7000".to_string(), "/ip4/0.0.0.0/tcp/7001".to_string()]
    );
}

#[test]
fn keys_installs_identity_material() {
    let builder = ActorBuilder::new().keys(IdentityKeys { material: vec![4, 5, 6] });
    match builder.configured_keys() {
        Some(k) => assert_eq!(k.material, vec![4, 5, 6]),
        None => panic!("the installed keypair must be recorded"),
    }
}

#[test]
fn bind_failure_surfaces_setup_error() {
    let addr = "/ip4/127.0.0.1/tcp/80".to_string();
    match ActorBuilder::new().build(SetupOutcome::BindFailed(addr.clone())) {
        Err(CommunicationSetupError::BindFailed(a)) => assert_eq!(a, addr),
        _ => panic!("a bind failure is fatal to build"),
    }
}

#[test]
fn transport_failure_surfaces_setup_error() {
    match ActorBuilder::new().build(SetupOutcome::TransportFailed) {
        Err(CommunicationSetupError::TransportFailed) => {},
        _ => panic!("a transport failure is fatal to build"),
    }
}

#[test]
fn unsuitable_transport_is_refused_before_binding() {
    let profile = TransportProfile { duplex: true, cloneable: false, concurrent_safe: true };
    match ActorBuilder::new().build_with_transport(profile, SetupOutcome::Ready) {
        Err(CommunicationSetupError::TransportFailed) => {},
        _ => panic!("a transport without the capability set is refused"),
    }
}

#[test]
fn suitable_transport_builds() {
    let profile = TransportProfile { duplex: true, cloneable: true, concurrent_safe: true };
    let actor = ActorBuilder::new()
        .build_with_transport(profile, SetupOutcome::Ready)
        .expect("setup ready with a suitable transport");
    assert!(actor.listen_addresses().is_empty());
}

#[test]
fn message_names_must_be_non_empty() {
    assert!(NamedMessage::new(String::new(), vec![1]).is_none());
    let m = NamedMessage::new("ok".to_string(), vec![1]).expect("non-empty name");
    assert_eq!(m.name, "ok");
    assert_eq!(m.data, vec![1]);
}

#[test]
fn counter_bytes_are_little_endian() {
    assert_eq!(encode_u64_le(1), vec![1, 0, 0, 0, 0, 0, 0, 0]);
    assert_eq!(
        encode_u64_le(0x0102030405060708),
        vec![8, 7, 6, 5, 4, 3, 2, 1]
    );
    assert_eq!(encode_u64_le(u64::MAX), vec![255; 8]);
}

#[test]
fn registry_register_lookup_and_len() {
    let mut reg = HandlerRegistry::new();
    assert_eq!(reg.len(), 0);
    assert!(reg.lookup("echo").is_none());
    reg.register("echo".to_string(), Handler::Echo);
    reg.register("fixed".to_string(), Handler::Reply(vec![1]));
    assert_eq!(reg.len(), 2);
    match reg.lookup("echo") {
        Some(Handler::Echo) => {},
        _ => panic!("the registered handler must be found"),
    }
    reg.register("echo".to_string(), Handler::Faulty);
    assert_eq!(reg.len(), 2);
    match reg.lookup("echo") {
        Some(Handler::Faulty) => {},
        _ => panic!("re-registration replaces the handler"),
    }
}
