use futures::channel::oneshot;
use identity_actor::{
    Actor, ActorBuilder, Delivery, DispatchFailure, Handler, NamedMessage, Phase, ReceiveRequest,
    Response, SetupOutcome, Step, StoreValue,
};

fn make_request(name: &str, data: Vec<u8>) -> (ReceiveRequest, oneshot::Receiver<Response>) {
    let (tx, rx) = oneshot::channel();
    let req = ReceiveRequest {
        peer_id: vec![9],
        request: NamedMessage::new(name.to_string(), data).expect("non-empty name"),
        response_tx: tx,
    };
    (req, rx)
}

fn running_actor() -> Actor {
    ActorBuilder::new().build(SetupOutcome::Ready).expect("setup ready")
}

#[test]
fn unregistered_ping_gets_handler_not_found() {
    let builder = ActorBuilder::new();
    let mut sender = builder.inbound_sender();
    let mut actor = builder.build(SetupOutcome::Ready).expect("setup ready");
    let (req, mut rx) = make_request("ping", vec![]);
    sender.try_send(req).expect("channel has room");
    match actor.poll() {
        Step::NotFound { name, delivered, .. } => {
            assert_eq!(name, "ping");
            assert!(delivered);
        },
        _ => panic!("expected an immediate not-found answer"),
    }
    match rx.try_recv() {
        Ok(Some(Response::Failure(f))) => assert_eq!(f, DispatchFailure::HandlerNotFound),
        _ => panic!("expected a HandlerNotFound response"),
    }
}

#[test]
fn echo_returns_its_input() {
    let builder = ActorBuilder::new();
    let mut sender = builder.inbound_sender();
    let mut actor = builder.build(SetupOutcome::Ready).expect("setup ready");
    actor.register("echo".to_string(), Handler::Echo);
    let (req, mut rx) = make_request("echo", vec![1, 2, 3]);
    sender.try_send(req).expect("channel has room");
    let inv = match actor.poll() {
        Step::Invoked(inv) => inv,
        _ => panic!("expected the echo handler to be invoked"),
    };
    let done = actor.execute(inv);
    assert!(matches!(done.delivery, Delivery::Delivered));
    match rx.try_recv() {
        Ok(Some(Response::Success(m))) => {
            assert_eq!(m.name, "echo");
            assert_eq!(m.data, vec![1, 2, 3]);
        },
        _ => panic!("expected an echoed success response"),
    }
}

#[test]
fn counter_three_requests_distinct_counts() {
    let builder = ActorBuilder::new();
    let mut sender = builder.inbound_sender();
    let mut actor = builder.build(SetupOutcome::Ready).expect("setup ready");
    actor.register("counter".to_string(), Handler::Count("hits".to_string()));

    let mut receivers = Vec::new();
    let mut invocations = Vec::new();
    for _ in 0..3 {
        let (req, rx) = make_request("counter", vec![]);
        sender.try_send(req).expect("channel has room");
        receivers.push(rx);
    }
    // All three are dispatched before any completes, as under concurrent
    // handler execution.
    for _ in 0..3 {
        match actor.poll() {
            Step::Invoked(inv) => invocations.push(inv),
            _ => panic!("expected the counter handler to be invoked"),
        }
    }
    assert_eq!(actor.pending_count(), 3);
    for inv in invocations {
        actor.execute(inv);
    }
    let mut counts = Vec::new();
    for mut rx in receivers {
        match rx.try_recv() {
            Ok(Some(Response::Success(m))) => {
                let bytes: [u8; 8] = m.data.as_slice().try_into().expect("eight bytes");
                counts.push(u64::from_le_bytes(bytes));
            },
            _ => panic!("expected a count response"),
        }
    }
    counts.sort();
    assert_eq!(counts, vec![1, 2, 3]);
    match actor.store_get("hits") {
        Some(StoreValue::Counter(c)) => assert_eq!(*c, 3),
        _ => panic!("expected the final stored count"),
    }
}

#[test]
fn shutdown_still_delivers_in_flight_response() {
    let builder = ActorBuilder::new();
    let mut sender = builder.inbound_sender();
    let mut actor = builder.build(SetupOutcome::Ready).expect("setup ready");
    actor.register("echo".to_string(), Handler::Echo);

    let (req1, mut rx1) = make_request("echo", vec![42]);
    let (req2, _rx2) = make_request("echo", vec![43]);
    sender.try_send(req1).expect("channel has room");
    let inv = match actor.poll() {
        Step::Invoked(inv) => inv,
        _ => panic!("expected an invocation"),
    };

    actor.shutdown();
    assert_eq!(actor.current_phase(), Phase::Draining);
    // The loop no longer accepts new requests ...
    assert!(sender.try_send(req2).is_err());
    assert!(matches!(actor.poll(), Step::Stopped));
    // ... but the in-flight invocation still delivers its response.
    let done = actor.execute(inv);
    assert!(matches!(done.delivery, Delivery::Delivered));
    match rx1.try_recv() {
        Ok(Some(Response::Success(m))) => assert_eq!(m.data, vec![42]),
        _ => panic!("expected the in-flight response"),
    }
    assert_eq!(actor.current_phase(), Phase::Shutdown);
    assert_eq!(actor.pending_count(), 0);
}

#[test]
fn poll_on_empty_open_channel_is_empty() {
    let builder = ActorBuilder::new();
    let _sender = builder.inbound_sender();
    let mut actor = builder.build(SetupOutcome::Ready).expect("setup ready");
    assert!(matches!(actor.poll(), Step::Empty));
}

#[test]
fn dropped_senders_close_and_shut_down() {
    let builder = ActorBuilder::new();
    let mut sender = builder.inbound_sender();
    let mut actor = builder.build(SetupOutcome::Ready).expect("setup ready");
    actor.register("echo".to_string(), Handler::Echo);
    let (req, mut rx) = make_request("echo", vec![7]);
    sender.try_send(req).expect("channel has room");
    drop(sender);
    // The buffered request is still drained ...
    let inv = match actor.poll() {
        Step::Invoked(inv) => inv,
        _ => panic!("expected the buffered request to be drained"),
    };
    actor.execute(inv);
    match rx.try_recv() {
        Ok(Some(Response::Success(m))) => assert_eq!(m.data, vec![7]),
        _ => panic!("expected the drained response"),
    }
    // ... then the closed channel shuts the actor down.
    assert!(matches!(actor.poll(), Step::Closed));
    assert_eq!(actor.current_phase(), Phase::Shutdown);
    assert!(matches!(actor.poll(), Step::Stopped));
}

#[test]
fn register_replaces_previous_handler() {
    let mut actor = running_actor();
    actor.register("greet".to_string(), Handler::Reply(vec![1]));
    actor.register("greet".to_string(), Handler::Reply(vec![2]));
    match actor.lookup("greet") {
        Some(Handler::Reply(b)) => assert_eq!(*b, vec![2]),
        _ => panic!("expected the replacing handler"),
    }
}

#[test]
fn faulty_handler_answers_and_loop_survives() {
    let builder = ActorBuilder::new();
    let mut sender = builder.inbound_sender();
    let mut actor = builder.build(SetupOutcome::Ready).expect("setup ready");
    actor.register("boom".to_string(), Handler::Faulty);
    actor.register("echo".to_string(), Handler::Echo);

    let (req, mut rx) = make_request("boom", vec![]);
    sender.try_send(req).expect("channel has room");
    let inv = match actor.poll() {
        Step::Invoked(inv) => inv,
        _ => panic!("expected the faulty handler to be invoked"),
    };
    let done = actor.execute(inv);
    assert!(matches!(done.delivery, Delivery::Delivered));
    match rx.try_recv() {
        Ok(Some(Response::Failure(f))) => {
            assert_eq!(f, DispatchFailure::HandlerExecutionFailure)
        },
        _ => panic!("expected an execution-failure response"),
    }

    // The loop keeps serving other requests.
    let (req, mut rx) = make_request("echo", vec![5]);
    sender.try_send(req).expect("channel has room");
    let inv = match actor.poll() {
        Step::Invoked(inv) => inv,
        _ => panic!("expected the echo handler to be invoked"),
    };
    actor.execute(inv);
    match rx.try_recv() {
        Ok(Some(Response::Success(m))) => assert_eq!(m.data, vec![5]),
        _ => panic!("expected the echo response"),
    }
}

#[test]
fn gone_requester_gets_answer_handed_back() {
    let builder = ActorBuilder::new();
    let mut sender = builder.inbound_sender();
    let mut actor = builder.build(SetupOutcome::Ready).expect("setup ready");
    actor.register("echo".to_string(), Handler::Echo);
    let (req, rx) = make_request("echo", vec![8, 9]);
    drop(rx);
    sender.try_send(req).expect("channel has room");
    let inv = match actor.poll() {
        Step::Invoked(inv) => inv,
        _ => panic!("expected an invocation"),
    };
    let done = actor.execute(inv);
    match done.delivery {
        Delivery::ChannelClosed(Response::Success(m)) => assert_eq!(m.data, vec![8, 9]),
        _ => panic!("expected the undelivered answer handed back"),
    }
}

#[test]
fn not_found_to_gone_requester_is_undelivered() {
    let builder = ActorBuilder::new();
    let mut sender = builder.inbound_sender();
    let mut actor = builder.build(SetupOutcome::Ready).expect("setup ready");
    let (req, rx) = make_request("nobody", vec![]);
    drop(rx);
    sender.try_send(req).expect("channel has room");
    match actor.poll() {
        Step::NotFound { name, delivered, .. } => {
            assert_eq!(name, "nobody");
            assert!(!delivered);
        },
        _ => panic!("expected a not-found step"),
    }
}

#[test]
fn process_available_answers_batch() {
    let builder = ActorBuilder::new();
    let mut sender = builder.inbound_sender();
    let mut actor = builder.build(SetupOutcome::Ready).expect("setup ready");
    actor.register("echo".to_string(), Handler::Echo);
    let mut receivers = Vec::new();
    for i in 0..3u8 {
        let (req, rx) = make_request("echo", vec![i]);
        sender.try_send(req).expect("channel has room");
        receivers.push(rx);
    }
    let (req, rx) = make_request("missing", vec![]);
    sender.try_send(req).expect("channel has room");
    receivers.push(rx);

    assert_eq!(actor.process_available(16), 4);
    assert_eq!(actor.process_available(16), 0);
    for (i, mut rx) in receivers.into_iter().enumerate() {
        match rx.try_recv() {
            Ok(Some(Response::Success(m))) => assert_eq!(m.data, vec![i as u8]),
            Ok(Some(Response::Failure(f))) => {
                assert_eq!(i, 3);
                assert_eq!(f, DispatchFailure::HandlerNotFound);
            },
            _ => panic!("every request must be answered"),
        }
    }
}

#[test]
fn process_available_respects_limit() {
    let builder = ActorBuilder::new();
    let mut sender = builder.inbound_sender();
    let mut actor = builder.build(SetupOutcome::Ready).expect("setup ready");
    actor.register("echo".to_string(), Handler::Echo);
    let mut receivers = Vec::new();
    for i in 0..3u8 {
        let (req, rx) = make_request("echo", vec![i]);
        sender.try_send(req).expect("channel has room");
        receivers.push(rx);
    }
    assert_eq!(actor.process_available(2), 2);
    assert_eq!(actor.process_available(2), 1);
}

#[test]
fn same_name_requests_dispatched_in_received_order() {
    let builder = ActorBuilder::new();
    let mut sender = builder.inbound_sender();
    let mut actor = builder.build(SetupOutcome::Ready).expect("setup ready");
    actor.register("echo".to_string(), Handler::Echo);
    let mut receivers = Vec::new();
    for i in 0..3u8 {
        let (req, rx) = make_request("echo", vec![i]);
        sender.try_send(req).expect("channel has room");
        receivers.push(rx);
    }
    for i in 0..3u8 {
        let inv = match actor.poll() {
            Step::Invoked(inv) => inv,
            _ => panic!("expected an invocation"),
        };
        actor.execute(inv);
        // Exactly the oldest unanswered request is answered: dispatch for
        // one name follows the order of arrival.
        match receivers[i as usize].try_recv() {
            Ok(Some(Response::Success(m))) => assert_eq!(m.data, vec![i]),
            _ => panic!("the oldest request must be answered"),
        }
        for rx in receivers.iter_mut().skip(i as usize + 1) {
            assert!(matches!(rx.try_recv(), Ok(None)));
        }
    }
}

#[test]
fn inbound_channel_applies_backpressure() {
    let builder = ActorBuilder::new();
    let mut sender = builder.inbound_sender();
    let _actor = builder.build(SetupOutcome::Ready).expect("setup ready");
    let mut accepted: usize = 0;
    let mut receivers = Vec::new();
    for _ in 0..600 {
        let (req, rx) = make_request("ping", vec![]);
        if sender.try_send(req).is_err() {
            break;
        }
        receivers.push(rx);
        accepted += 1;
    }
    // The channel is bounded: it holds at least the configured capacity of
    // pending requests and refuses more soon after.
    assert!(accepted >= 512);
    assert!(accepted < 600);
}

#[test]
fn stopped_actor_processes_nothing() {
    let builder = ActorBuilder::new();
    let _sender = builder.inbound_sender();
    let mut actor = builder.build(SetupOutcome::Ready).expect("setup ready");
    actor.shutdown();
    assert_eq!(actor.current_phase(), Phase::Shutdown);
    assert_eq!(actor.process_available(8), 0);
}

#[test]
fn dispatch_envelope_decides_every_envelope() {
    let mut actor = running_actor();
    actor.register("echo".to_string(), Handler::Echo);

    // A registered name becomes an invocation carrying exactly this request.
    let (env, mut rx) = make_request("echo", vec![6]);
    let inv = match actor.dispatch_envelope(env) {
        Step::Invoked(inv) => inv,
        _ => panic!("a registered name must be invoked"),
    };
    assert_eq!(actor.pending_count(), 1);
    actor.execute(inv);
    match rx.try_recv() {
        Ok(Some(Response::Success(m))) => assert_eq!(m.data, vec![6]),
        _ => panic!("the dispatched envelope must be answered"),
    }

    // An unregistered name is answered on the spot, never dropped.
    let (env, mut rx) = make_request("absent", vec![]);
    match actor.dispatch_envelope(env) {
        Step::NotFound { name, delivered, .. } => {
            assert_eq!(name, "absent");
            assert!(delivered);
        },
        _ => panic!("an unregistered name must be refused at once"),
    }
    match rx.try_recv() {
        Ok(Some(Response::Failure(f))) => assert_eq!(f, DispatchFailure::HandlerNotFound),
        _ => panic!("the refusal must reach the requester"),
    }
    assert_eq!(actor.pending_count(), 0);
}
