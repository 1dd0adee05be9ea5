use amqprs::connection::{
    expect_response, guard_channel_call, map_allocation, ChannelState, Connection,
};
use amqprs::error::ErrorKind;
use amqprs::frame::{Frame, Payload};
use amqprs::handshake::{
    handshake_step, HandshakeConfig, HandshakeIn, HandshakeState, Mechanism, TuneParams,
};
use amqprs::method;
use amqprs::reader::{Action, Command, CommandReply, ReaderState};
use amqprs::registry::ChannelResource;

// P-law on concrete values: after close() completes, every facade call
// on the connection or its channels is refused as closed.
#[test]
fn closed_connection_refuses_facade_calls() {
    let mut conn = Connection::new(2047);
    assert!(conn.guard_open().is_ok());

    conn.finish_close();
    assert!(!conn.get_open_state());
    match conn.guard_open() {
        Err(ErrorKind::ConnectionClosed { code: 200, .. }) => {}
        r => panic!("expected ConnectionClosed, got {:?}", r),
    }
    // closing again is idempotent
    conn.finish_close();
    assert!(!conn.get_open_state());

    let mut ch = ChannelState::new(1);
    ch.finish_close();
    match ch.guard_open() {
        Err(ErrorKind::ChannelClosed { code: 200, .. }) => {}
        r => panic!("expected ChannelClosed, got {:?}", r),
    }
}

// S6: dropping an open handle decides to close exactly once and never
// again; the close request it schedules is the channel's Close frame.
#[test]
fn drop_schedules_close_once() {
    let mut ch = ChannelState::new(7);
    assert!(ch.on_drop(), "an open handle schedules a close on drop");
    assert!(!ch.on_drop(), "a second drop decision does nothing");

    let frame = ch.close_request();
    match frame {
        Frame::Method { channel, key, payload } => {
            assert_eq!(channel, 7);
            assert_eq!(key, method::channel_close());
            assert!(matches!(payload, Payload::Close { code: 200, .. }));
        }
        _ => panic!("expected a method frame"),
    }

    let mut conn = Connection::new(3);
    assert!(conn.on_drop());
    assert!(!conn.on_drop());
}

#[test]
fn close_request_is_connection_close_on_channel_zero() {
    let conn = Connection::new(3);
    match conn.close_request() {
        Frame::Method { channel, key, payload } => {
            assert_eq!(channel, 0);
            assert_eq!(key, method::connection_close());
            match payload {
                Payload::Close { code, text } => {
                    assert_eq!(code, 200);
                    assert_eq!(text, "");
                }
                _ => panic!("expected close arguments"),
            }
        }
        _ => panic!("expected a method frame"),
    }
}

// P-law on concrete values: open, open a channel, close the channel,
// close the connection; everything winds down cleanly.
#[test]
fn round_trip_terminates_cleanly() {
    // 1. handshake
    let cfg = HandshakeConfig {
        prefs: TuneParams { channel_max: 3, frame_max: 4096, heartbeat: 0 },
        user: b"guest".to_vec(),
        pass: b"guest".to_vec(),
        vhost: "/".to_string(),
    };
    let st = HandshakeState::AwaitStart;
    let (st, _) = handshake_step(st, &cfg, HandshakeIn::Start {
        mechanisms: vec![Mechanism::Plain],
    });
    let tune = TuneParams { channel_max: 3, frame_max: 4096, heartbeat: 0 };
    let (st, _) = handshake_step(st, &cfg, HandshakeIn::Tune { params: tune });
    let (st, _) = handshake_step(st, &cfg, HandshakeIn::OpenOk);
    let tuning = match st {
        HandshakeState::Done { tuning } => tuning,
        _ => panic!("handshake did not complete"),
    };

    // 2. the runtime starts: reader state, channel 0 registered
    let mut conn = Connection::new(tuning.channel_max);
    let mut rd: ReaderState<u64, u64, u8> = ReaderState::new(tuning.channel_max);
    let (reply, _) = rd.handle_command(Command::RegisterChannelResource {
        channel_id: Some(0),
        resource: ChannelResource::new(None),
    });
    assert!(matches!(reply, CommandReply::ChannelRegistered { channel_id: Some(0) }));

    // 3. open_channel: allocate, install the OpenOk waiter, send
    // Channel.Open, receive Channel.OpenOk
    assert!(conn.guard_open().is_ok());
    let (reply, _) = rd.handle_command(Command::RegisterChannelResource {
        channel_id: None,
        resource: ChannelResource::new(Some(40)),
    });
    let id = match reply {
        CommandReply::ChannelRegistered { channel_id: Some(id) } => id,
        _ => panic!("no free channel"),
    };
    assert_eq!(id, 1);
    let (reply, _) = rd.handle_command(Command::RegisterResponder {
        channel_id: id,
        key: method::channel_open_ok(),
        slot: 71,
    });
    assert!(matches!(
        reply,
        CommandReply::ResponderRegistered { result: Ok(()) }
    ));
    // the registry entry exists before Channel.Open is on the wire
    assert!(rd.registry.is_registered(id));
    let open = ChannelState::open_request(id);
    assert!(matches!(open, Frame::Method { channel, .. } if channel == id));
    let acts = rd.handle_frame(Frame::Method {
        channel: id,
        key: method::channel_open_ok(),
        payload: Payload::Opaque(Vec::new()),
    });
    assert!(matches!(acts[..], [Action::Fulfil { slot: 71, .. }]));
    let mut ch = ChannelState::new(id);

    // 4. close the channel: CloseOk waiter, Channel.Close, CloseOk in
    let (reply, _) = rd.handle_command(Command::RegisterResponder {
        channel_id: id,
        key: method::channel_close_ok(),
        slot: 72,
    });
    assert!(matches!(
        reply,
        CommandReply::ResponderRegistered { result: Ok(()) }
    ));
    let _close = ch.close_request();
    let acts = rd.handle_frame(Frame::Method {
        channel: id,
        key: method::channel_close_ok(),
        payload: Payload::Opaque(Vec::new()),
    });
    assert!(matches!(acts[..], [Action::Fulfil { slot: 72, .. }]));
    ch.finish_close();
    let (_, acts) = rd.handle_command(Command::UnregisterChannelResource { channel_id: id });
    // no waiters were pending any more; only the dispatcher shuts down
    assert!(matches!(acts[..], [Action::DispatcherClosed { dispatcher: 40 }]));
    assert!(!rd.registry.is_registered(id));

    // 5. close the connection
    let (reply, _) = rd.handle_command(Command::RegisterResponder {
        channel_id: 0,
        key: method::connection_close_ok(),
        slot: 73,
    });
    assert!(matches!(
        reply,
        CommandReply::ResponderRegistered { result: Ok(()) }
    ));
    let _close = conn.close_request();
    let acts = rd.handle_frame(Frame::Method {
        channel: 0,
        key: method::connection_close_ok(),
        payload: Payload::Opaque(Vec::new()),
    });
    assert!(matches!(acts[..], [Action::Fulfil { slot: 73, .. }]));
    conn.finish_close();
    let acts = rd.drain(&ErrorKind::ConnectionClosed { code: 200, text: String::new() });
    assert!(!rd.running);
    // nothing was pending: no waiter fails during the drain
    assert!(acts.iter().all(|a| !matches!(a, Action::FailWaiter { .. })));
    assert!(!conn.get_open_state());
    assert!(!rd.registry.is_registered(0));
}

#[test]
fn exhausted_allocation_is_no_free_channel() {
    assert_eq!(map_allocation(Some(2)), Ok(2));
    assert_eq!(map_allocation(None), Err(ErrorKind::NoFreeChannel));
}

#[test]
fn mismatched_response_is_unexpected_frame() {
    let ok = Frame::Method {
        channel: 1,
        key: method::channel_open_ok(),
        payload: Payload::Opaque(Vec::new()),
    };
    assert!(expect_response(ok, method::channel_open_ok()).is_ok());
    let wrong = Frame::Method {
        channel: 1,
        key: method::channel_close_ok(),
        payload: Payload::Opaque(Vec::new()),
    };
    assert_eq!(
        expect_response(wrong, method::channel_open_ok()),
        Err(ErrorKind::UnexpectedFrame)
    );
    assert_eq!(
        expect_response(Frame::Heartbeat, method::channel_open_ok()),
        Err(ErrorKind::UnexpectedFrame)
    );
}

#[test]
fn error_kinds_have_readable_tags() {
    assert_eq!(ErrorKind::IoError.tag(), "i/o error");
    assert_eq!(ErrorKind::DecodeError.tag(), "decode error");
    assert_eq!(ErrorKind::QueueFull.tag(), "queue full");
    assert_eq!(ErrorKind::HeartbeatTimeout.tag(), "heartbeat timeout");
}

#[test]
fn open_flag_never_rises_again() {
    let mut conn = Connection::new(3);
    conn.set_open_state(true);
    assert!(conn.get_open_state());
    conn.set_open_state(false);
    assert!(!conn.get_open_state());
    // true-to-false is permanent
    conn.set_open_state(true);
    assert!(!conn.get_open_state());
}

// Invariant: a closed connection closes its channels' facade with it,
// whatever the channel's own flag still says.
#[test]
fn closed_connection_refuses_channel_calls() {
    let mut conn = Connection::new(3);
    let mut ch = ChannelState::new(1);
    assert!(guard_channel_call(&conn, &ch).is_ok());

    conn.finish_close();
    match guard_channel_call(&conn, &ch) {
        Err(ErrorKind::ConnectionClosed { code: 200, .. }) => {}
        r => panic!("expected ConnectionClosed, got {:?}", r),
    }

    let conn2 = Connection::new(3);
    ch.finish_close();
    match guard_channel_call(&conn2, &ch) {
        Err(ErrorKind::ChannelClosed { code: 200, .. }) => {}
        r => panic!("expected ChannelClosed, got {:?}", r),
    }
}
