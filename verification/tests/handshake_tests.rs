use amqprs::error::HandshakeStage;
use amqprs::handshake::{
    effective_channel_max, effective_frame_max,
    handshake_step, negotiate_tune, negotiate_u16, negotiate_u32, pick_mechanism,
    protocol_header, sasl_plain_response, HandshakeConfig, HandshakeIn, HandshakeOut,
    HandshakeState, Mechanism, SaslResponse, TuneParams, DEFAULT_CHANNEL_MAX,
    DEFAULT_FRAME_MAX, DEFAULT_HEARTBEAT,
};

fn test_config() -> HandshakeConfig {
    HandshakeConfig {
        prefs: TuneParams {
            channel_max: DEFAULT_CHANNEL_MAX,
            frame_max: DEFAULT_FRAME_MAX,
            heartbeat: DEFAULT_HEARTBEAT,
        },
        user: b"guest".to_vec(),
        pass: b"guest".to_vec(),
        vhost: "/".to_string(),
    }
}

#[test]
fn protocol_header_is_amqp_0_9_1() {
    assert_eq!(protocol_header(), vec![0x41, 0x4d, 0x51, 0x50, 0, 0, 9, 1]);
    assert_eq!(&protocol_header()[..4], b"AMQP");
}

#[test]
fn sasl_plain_is_nul_user_nul_pass() {
    let r = sasl_plain_response(&b"user".to_vec(), &b"bitnami".to_vec());
    assert_eq!(r, b"\0user\0bitnami".to_vec());
}

#[test]
fn picks_first_supported_mechanism() {
    assert_eq!(
        pick_mechanism(&vec![Mechanism::Other, Mechanism::AmqPlain, Mechanism::Plain]),
        Some(Mechanism::AmqPlain)
    );
    assert_eq!(pick_mechanism(&vec![Mechanism::Plain]), Some(Mechanism::Plain));
    assert_eq!(pick_mechanism(&vec![Mechanism::Other, Mechanism::Other]), None);
    assert_eq!(pick_mechanism(&vec![]), None);
}

#[test]
fn negotiate_zero_means_other_side_wins() {
    assert_eq!(negotiate_u16(0, 2047), 2047);
    assert_eq!(negotiate_u16(100, 0), 100);
    assert_eq!(negotiate_u16(0, 0), 0);
    assert_eq!(negotiate_u16(512, 2047), 512);
    assert_eq!(negotiate_u16(4000, 2047), 2047);
    assert_eq!(negotiate_u32(0, 131072), 131072);
    assert_eq!(negotiate_u32(65536, 131072), 65536);
}

#[test]
fn negotiate_tune_is_fieldwise() {
    let server = TuneParams { channel_max: 0, frame_max: 65536, heartbeat: 120 };
    let client = TuneParams { channel_max: 2047, frame_max: 131072, heartbeat: 60 };
    let n = negotiate_tune(server, client);
    assert_eq!(n, TuneParams { channel_max: 2047, frame_max: 65536, heartbeat: 60 });
}

// S1: the happy handshake.  Feed Start/Tune/OpenOk; expect StartOk with
// mechanism PLAIN, TuneOk echoing the broker's values (all within the
// client's preferences), and Open with vhost "/".
#[test]
fn happy_handshake() {
    let cfg = test_config();
    let broker_tune = TuneParams { channel_max: 3, frame_max: 4096, heartbeat: 1 };

    let (st, out) = handshake_step(
        HandshakeState::AwaitStart,
        &cfg,
        HandshakeIn::Start { mechanisms: vec![Mechanism::Plain, Mechanism::AmqPlain] },
    );
    assert_eq!(st, HandshakeState::AwaitTune { mechanism: Mechanism::Plain });
    assert_eq!(out.len(), 1);
    match &out[0] {
        HandshakeOut::StartOk { mechanism, response } => {
            assert_eq!(*mechanism, Mechanism::Plain);
            match response {
                SaslResponse::Plain { response } => {
                    assert_eq!(response, &b"\0guest\0guest".to_vec())
                }
                _ => panic!("expected a PLAIN response"),
            }
        }
        _ => panic!("expected StartOk"),
    }

    let (st, out) = handshake_step(st, &cfg, HandshakeIn::Tune { params: broker_tune });
    match st {
        HandshakeState::AwaitOpenOk { tuning } => assert_eq!(tuning, broker_tune),
        _ => panic!("expected AwaitOpenOk"),
    }
    assert_eq!(out.len(), 2);
    match &out[0] {
        HandshakeOut::TuneOk { params } => assert_eq!(*params, broker_tune),
        _ => panic!("expected TuneOk"),
    }
    match &out[1] {
        HandshakeOut::Open { vhost } => assert_eq!(vhost, "/"),
        _ => panic!("expected Open"),
    }

    let (st, out) = handshake_step(st, &cfg, HandshakeIn::OpenOk);
    assert_eq!(st, HandshakeState::Done { tuning: broker_tune });
    assert!(out.is_empty());
}

#[test]
fn secure_rounds_are_tolerated() {
    let cfg = test_config();
    let await_tune = HandshakeState::AwaitTune { mechanism: Mechanism::Plain };
    let (st, out) = handshake_step(await_tune, &cfg, HandshakeIn::Secure);
    assert_eq!(st, await_tune);
    assert_eq!(out.len(), 1);
    match &out[0] {
        HandshakeOut::SecureOk { response: SaslResponse::Plain { response } } => {
            assert_eq!(response, &b"\0guest\0guest".to_vec())
        }
        _ => panic!("expected a PLAIN SecureOk"),
    }
    let (st, _) = handshake_step(st, &cfg, HandshakeIn::Secure);
    assert_eq!(st, await_tune);
}

#[test]
fn unexpected_frame_fails_at_its_stage() {
    let cfg = test_config();
    let (st, out) = handshake_step(HandshakeState::AwaitStart, &cfg, HandshakeIn::OpenOk);
    assert_eq!(st, HandshakeState::Failed { stage: HandshakeStage::Start });
    assert!(out.is_empty());

    let (st, _) = handshake_step(
        HandshakeState::AwaitTune { mechanism: Mechanism::Plain },
        &cfg,
        HandshakeIn::Unexpected,
    );
    assert_eq!(st, HandshakeState::Failed { stage: HandshakeStage::Tune });

    let tuning = TuneParams { channel_max: 1, frame_max: 4096, heartbeat: 0 };
    let (st, _) = handshake_step(
        HandshakeState::AwaitOpenOk { tuning },
        &cfg,
        HandshakeIn::Secure,
    );
    assert_eq!(st, HandshakeState::Failed { stage: HandshakeStage::Open });
}

#[test]
fn no_common_mechanism_fails_auth() {
    let cfg = test_config();
    let (st, out) = handshake_step(
        HandshakeState::AwaitStart,
        &cfg,
        HandshakeIn::Start { mechanisms: vec![Mechanism::Other] },
    );
    assert_eq!(st, HandshakeState::Failed { stage: HandshakeStage::Auth });
    assert!(out.is_empty());
}

#[test]
fn zero_negotiation_falls_back_to_defaults() {
    // both sides declined to limit: the defaults apply
    assert_eq!(negotiate_u16(0, 0), 0);
    assert_eq!(effective_channel_max(0), DEFAULT_CHANNEL_MAX);
    assert_eq!(effective_frame_max(0), DEFAULT_FRAME_MAX);
    // a real negotiation result passes through unchanged
    assert_eq!(effective_channel_max(3), 3);
    assert_eq!(effective_frame_max(4096), 4096);
}

#[test]
fn tune_ok_carries_the_negotiated_minimum() {
    // client preferences bind when the broker proposes more
    let cfg = test_config();
    let broker_tune = TuneParams { channel_max: 4000, frame_max: 1 << 20, heartbeat: 120 };
    let (st, out) = handshake_step(
        HandshakeState::AwaitTune { mechanism: Mechanism::Plain },
        &cfg,
        HandshakeIn::Tune { params: broker_tune },
    );
    let expected = TuneParams {
        channel_max: DEFAULT_CHANNEL_MAX,
        frame_max: DEFAULT_FRAME_MAX,
        heartbeat: DEFAULT_HEARTBEAT,
    };
    assert_eq!(st, HandshakeState::AwaitOpenOk { tuning: expected });
    match &out[0] {
        HandshakeOut::TuneOk { params } => assert_eq!(*params, expected),
        _ => panic!("expected TuneOk"),
    }
}
