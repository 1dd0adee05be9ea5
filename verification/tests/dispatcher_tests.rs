use amqprs::dispatcher::{Assembler, DispatchOutcome};
use amqprs::frame::{Frame, Payload};
use amqprs::method;
use amqprs::method::MethodKey;

fn deliver(channel: u16) -> Frame {
    Frame::Method {
        channel,
        key: method::basic_deliver(),
        payload: Payload::Opaque(b"args".to_vec()),
    }
}

#[test]
fn assembles_a_two_part_body() {
    let mut assembler = Assembler::new();
    assert!(matches!(assembler.feed(deliver(1)), DispatchOutcome::Absorbed));
    assert!(matches!(
        assembler.feed(Frame::ContentHeader { channel: 1, body_size: 11 }),
        DispatchOutcome::Absorbed
    ));
    assert!(matches!(
        assembler.feed(Frame::ContentBody { channel: 1, payload: b"hello ".to_vec() }),
        DispatchOutcome::Absorbed
    ));
    match assembler.feed(Frame::ContentBody { channel: 1, payload: b"world".to_vec() }) {
        DispatchOutcome::Complete { msg } => {
            assert_eq!(msg.key, method::basic_deliver());
            assert_eq!(msg.body, b"hello world".to_vec());
            match msg.args {
                Payload::Opaque(b) => assert_eq!(b, b"args".to_vec()),
                _ => panic!("arguments changed shape"),
            }
        }
        _ => panic!("expected the completed message"),
    }
}

#[test]
fn zero_size_body_completes_at_the_header() {
    let mut assembler = Assembler::new();
    assert!(matches!(assembler.feed(deliver(1)), DispatchOutcome::Absorbed));
    match assembler.feed(Frame::ContentHeader { channel: 1, body_size: 0 }) {
        DispatchOutcome::Complete { msg } => assert!(msg.body.is_empty()),
        _ => panic!("expected immediate completion"),
    }
}

#[test]
fn non_content_pushes_pass_through() {
    let mut assembler = Assembler::new();
    let ack = Frame::Method {
        channel: 1,
        key: MethodKey { class_id: 60, method_id: 80 },
        payload: Payload::Opaque(Vec::new()),
    };
    match assembler.feed(ack) {
        DispatchOutcome::PassThrough { frame } => {
            assert!(matches!(frame, Frame::Method { key, .. }
                if key == MethodKey { class_id: 60, method_id: 80 }));
        }
        _ => panic!("expected pass-through"),
    }
}

#[test]
fn body_overflow_is_a_protocol_violation() {
    let mut assembler = Assembler::new();
    assembler.feed(deliver(1));
    assembler.feed(Frame::ContentHeader { channel: 1, body_size: 3 });
    match assembler.feed(Frame::ContentBody { channel: 1, payload: b"toolong".to_vec() }) {
        DispatchOutcome::ProtocolViolation => {}
        _ => panic!("expected a violation"),
    }
    // the partial message was discarded; a fresh delivery works
    assert!(matches!(assembler.feed(deliver(1)), DispatchOutcome::Absorbed));
}

#[test]
fn content_frames_out_of_place_are_violations() {
    let mut assembler = Assembler::new();
    assert!(matches!(
        assembler.feed(Frame::ContentHeader { channel: 1, body_size: 3 }),
        DispatchOutcome::ProtocolViolation
    ));
    assert!(matches!(
        assembler.feed(Frame::ContentBody { channel: 1, payload: b"x".to_vec() }),
        DispatchOutcome::ProtocolViolation
    ));
    // a method interrupting an open flow discards the partial message
    assembler.feed(deliver(1));
    assert!(matches!(assembler.feed(deliver(1)), DispatchOutcome::ProtocolViolation));
}
