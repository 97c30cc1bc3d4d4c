use busconn::{
    AuthResult, Authenticated, ByteOrder, Conn, Error, Message, MessageType, Ready,
    SocketFailure,
};

fn ready(path: &str) -> Ready {
    match Conn::connect_to_bus(path.to_string(), false).authenticated(AuthResult::Accepted) {
        Ok(Authenticated::SendBegin(ready)) => ready,
        other => panic!("expected the begin step, got {:?}", other),
    }
}

fn call(serial: Option<u32>) -> Message {
    Message {
        typ: MessageType::Call,
        serial,
        response_serial: None,
        raw_fds: Vec::new(),
        body: b"Echo".to_vec(),
    }
}

#[test]
fn connect_with_descriptors_goes_through_three_steps() {
    let connecting = Conn::connect_to_bus("/tmp/bus.sock".to_string(), true);
    let negotiating = match connecting.authenticated(AuthResult::Accepted) {
        Ok(Authenticated::NegotiateUnixFds(n)) => n,
        other => panic!("expected the negotiation, got {:?}", other),
    };
    let ready = negotiating.negotiated(AuthResult::Accepted).expect("negotiation accepted");
    let conn = ready.begun();
    assert_eq!(conn.serial_counter(), 1);
    assert_eq!(conn.socket_path(), "/tmp/bus.sock");
    assert_eq!(conn.byteorder(), ByteOrder::LittleEndian);
    assert!(conn.received().is_empty());
    assert!(conn.outgoing().is_empty());
}

#[test]
fn connect_without_descriptors_skips_the_negotiation() {
    let connecting = Conn::connect_to_bus("/tmp/bus.sock".to_string(), false);
    match connecting.authenticated(AuthResult::Accepted) {
        Ok(Authenticated::SendBegin(ready)) => {
            assert_eq!(ready.begun().serial_counter(), 1);
        }
        other => panic!("expected the begin step, got {:?}", other),
    }
}

#[test]
fn rejected_authentication_fails_the_connect() {
    for with_unix_fd in [false, true] {
        let connecting = Conn::connect_to_bus("/tmp/bus.sock".to_string(), with_unix_fd);
        match connecting.authenticated(AuthResult::Rejected) {
            Err(e) => assert_eq!(e, Error::AuthFailed),
            Ok(next) => panic!("a rejected peer must not go on: {:?}", next),
        }
    }
}

#[test]
fn rejected_negotiation_fails_the_connect() {
    let connecting = Conn::connect_to_bus("/tmp/bus.sock".to_string(), true);
    let negotiating = match connecting.authenticated(AuthResult::Accepted) {
        Ok(Authenticated::NegotiateUnixFds(n)) => n,
        other => panic!("expected the negotiation, got {:?}", other),
    };
    match negotiating.negotiated(AuthResult::Rejected) {
        Err(e) => assert_eq!(e, Error::UnixFdNegotiationFailed),
        Ok(next) => panic!("a refused negotiation must not go on: {:?}", next),
    }
}

#[test]
fn connect_keeps_the_chosen_byte_order() {
    let connecting =
        Conn::connect_to_bus_with_byteorder("/run/bus".to_string(), ByteOrder::BigEndian, false);
    match connecting.authenticated(AuthResult::Accepted) {
        Ok(Authenticated::SendBegin(ready)) => {
            let conn = ready.begun();
            assert_eq!(conn.byteorder(), ByteOrder::BigEndian);
            assert_eq!(conn.socket_path(), "/run/bus");
        }
        other => panic!("expected the begin step, got {:?}", other),
    }
}

#[test]
fn first_message_gets_serial_one() {
    let mut conn = ready("/tmp/bus.sock").begun();
    let (sent, order) = conn.send_message(call(None));
    assert_eq!(sent.serial, Some(1));
    assert_eq!(sent, call(Some(1)));
    assert_eq!(order, ByteOrder::LittleEndian);
    assert_eq!(conn.serial_counter(), 2);
}

#[test]
fn serials_count_up_from_one() {
    let mut conn = ready("/tmp/bus.sock").begun();
    for expected in 1u32..=50 {
        let (sent, _) = conn.send_message(call(None));
        assert_eq!(sent.serial, Some(expected));
    }
    assert_eq!(conn.serial_counter(), 51);
}

#[test]
fn a_message_with_a_serial_keeps_it_and_uses_none() {
    let mut conn = ready("/tmp/bus.sock").begun();
    let (first, _) = conn.send_message(call(None));
    let (preset, _) = conn.send_message(call(Some(4711)));
    let (second, _) = conn.send_message(call(None));
    assert_eq!(first.serial, Some(1));
    assert_eq!(preset.serial, Some(4711));
    assert_eq!(second.serial, Some(2));
    assert_eq!(conn.serial_counter(), 3);
}

#[test]
fn messages_are_marshalled_little_endian_on_a_big_endian_connection() {
    let connecting =
        Conn::connect_to_bus_with_byteorder("/run/bus".to_string(), ByteOrder::BigEndian, false);
    let mut conn = match connecting.authenticated(AuthResult::Accepted) {
        Ok(Authenticated::SendBegin(ready)) => ready.begun(),
        other => panic!("expected the begin step, got {:?}", other),
    };
    let (_, order) = conn.send_message(call(None));
    assert_eq!(order, ByteOrder::LittleEndian);
}

#[test]
fn send_keeps_descriptors_and_body() {
    let mut conn = ready("/tmp/bus.sock").begun();
    let msg = Message {
        typ: MessageType::Signal,
        serial: None,
        response_serial: None,
        raw_fds: vec![7, 8],
        body: vec![1, 2, 3],
    };
    let (sent, _) = conn.send_message(msg);
    assert_eq!(sent.typ, MessageType::Signal);
    assert_eq!(sent.raw_fds, vec![7, 8]);
    assert_eq!(sent.body, vec![1, 2, 3]);
    assert_eq!(sent.response_serial, None);
}

#[test]
fn send_buffer_holds_the_marshalled_bytes() {
    let mut conn = ready("/tmp/bus.sock").begun();
    let (sent, _) = conn.send_message(call(None));
    assert!(conn.outgoing().is_empty());
    conn.marshalled(vec![0x6c, 1, 0, 1]);
    assert_eq!(conn.outgoing(), &vec![0x6c, 1, 0, 1]);
    assert_eq!(conn.finish_send(sent, Ok(4)), Ok(call(Some(1))));
}

#[test]
fn each_send_starts_with_an_empty_buffer() {
    let mut conn = ready("/tmp/bus.sock").begun();
    conn.send_message(call(None));
    conn.marshalled(vec![1, 2, 3]);
    conn.send_message(call(None));
    assert!(conn.outgoing().is_empty());
}

#[test]
fn short_write_is_a_framing_error() {
    let mut conn = ready("/tmp/bus.sock").begun();
    let (sent, _) = conn.send_message(call(None));
    conn.marshalled(vec![0; 40]);
    assert_eq!(conn.finish_send(sent.clone(), Ok(39)), Err(Error::FramingError));
    assert_eq!(conn.finish_send(sent.clone(), Ok(0)), Err(Error::FramingError));
    assert_eq!(conn.finish_send(sent.clone(), Ok(41)), Err(Error::FramingError));
    assert_eq!(conn.finish_send(sent.clone(), Ok(40)), Ok(sent));
}

#[test]
fn send_that_runs_out_of_time() {
    let mut conn = ready("/tmp/bus.sock").begun();
    let (sent, _) = conn.send_message(call(None));
    conn.marshalled(vec![0; 8]);
    assert_eq!(conn.finish_send(sent, Err(SocketFailure::TimedOut)), Err(Error::TimedOut));
}

#[test]
fn send_that_fails_otherwise() {
    let mut conn = ready("/tmp/bus.sock").begun();
    let (sent, _) = conn.send_message(call(None));
    conn.marshalled(vec![0; 8]);
    assert_eq!(
        conn.finish_send(sent.clone(), Err(SocketFailure::Other(Some(32)))),
        Err(Error::NixError(Some(32)))
    );
    // A number is a number: 11 and 35 are not read as a timeout.
    assert_eq!(
        conn.finish_send(sent.clone(), Err(SocketFailure::Other(Some(11)))),
        Err(Error::NixError(Some(11)))
    );
    assert_eq!(
        conn.finish_send(sent.clone(), Err(SocketFailure::Other(Some(35)))),
        Err(Error::NixError(Some(35)))
    );
    assert_eq!(
        conn.finish_send(sent, Err(SocketFailure::Other(None))),
        Err(Error::NixError(None))
    );
}

#[test]
fn well_formed_messages() {
    let reply = Message {
        typ: MessageType::Reply,
        serial: Some(2),
        response_serial: Some(1),
        raw_fds: Vec::new(),
        body: Vec::new(),
    };
    assert!(reply.is_well_formed());
    assert!(reply.is_routable());
    let orphan = Message { response_serial: None, ..reply.clone() };
    assert!(!orphan.is_well_formed());
    assert!(!orphan.is_routable());
    let error = Message { typ: MessageType::Error, ..orphan.clone() };
    assert!(!error.is_routable());
    assert!(call(None).is_well_formed());
    let odd_call = Message { response_serial: Some(3), ..call(None) };
    assert!(!odd_call.is_well_formed());
    assert!(odd_call.is_routable());
    let signal = Message { typ: MessageType::Signal, ..odd_call };
    assert!(signal.is_well_formed());
}
