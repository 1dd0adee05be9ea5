use amqprs::error::ErrorKind;
use amqprs::method::MethodKey;
use amqprs::registry::{ChannelRegistry, ChannelResource};

type Reg = ChannelRegistry<u64, u64>;

fn resource(dispatcher: Option<u64>) -> ChannelResource<u64, u64> {
    ChannelResource::new(dispatcher)
}

// S2: with channel_max = 3, four allocations yield 1, 2, 3 and then
// exhaustion; freeing id 2 makes the next allocation return 2.
#[test]
fn channel_allocation_scans_and_reuses() {
    let mut reg: Reg = ChannelRegistry::new(3);
    assert_eq!(reg.allocate(resource(Some(11))), Some(1));
    assert_eq!(reg.allocate(resource(Some(12))), Some(2));
    assert_eq!(reg.allocate(resource(Some(13))), Some(3));
    assert_eq!(reg.allocate(resource(Some(14))), None);

    assert!(reg.unregister(2).is_some());
    assert_eq!(reg.allocate(resource(Some(15))), Some(2));
}

#[test]
fn allocation_starts_at_the_hint_and_wraps() {
    let mut reg: Reg = ChannelRegistry::new(3);
    assert_eq!(reg.allocate(resource(None)), Some(1));
    assert_eq!(reg.allocate(resource(None)), Some(2));
    assert!(reg.unregister(1).is_some());
    // next_id is 3: the scan tries 3 first, then wraps to 1.
    assert_eq!(reg.allocate(resource(None)), Some(3));
    assert_eq!(reg.allocate(resource(None)), Some(1));
}

#[test]
fn channel_zero_is_registered_exactly_at_zero() {
    let mut reg: Reg = ChannelRegistry::new(3);
    assert!(reg.register_at(0, resource(None)));
    assert!(reg.is_registered(0));
    // a second registration at the same id fails
    assert!(!reg.register_at(0, resource(None)));
    // out of range fails
    assert!(!reg.register_at(4, resource(None)));
}

#[test]
fn unregister_returns_the_resource() {
    let mut reg: Reg = ChannelRegistry::new(2);
    assert_eq!(reg.allocate(resource(Some(77))), Some(1));
    let res = reg.unregister(1).expect("channel 1 was registered");
    assert_eq!(res.dispatcher, Some(77));
    assert!(reg.unregister(1).is_none());
    assert!(!reg.is_registered(1));
}

#[test]
fn responder_registration_rejects_duplicates() {
    let mut reg: Reg = ChannelRegistry::new(2);
    let key = MethodKey { class_id: 50, method_id: 11 };
    assert_eq!(reg.allocate(resource(None)), Some(1));

    assert!(reg.register_responder(1, key, 100).is_ok());
    assert_eq!(
        reg.register_responder(1, key, 101),
        Err(ErrorKind::DuplicateResponder)
    );
    // a different key on the same channel is fine
    let other = MethodKey { class_id: 40, method_id: 11 };
    assert!(reg.register_responder(1, other, 102).is_ok());
}

#[test]
fn responder_registration_needs_a_channel() {
    let mut reg: Reg = ChannelRegistry::new(2);
    let key = MethodKey { class_id: 50, method_id: 11 };
    match reg.register_responder(1, key, 100) {
        Err(ErrorKind::ChannelClosed { .. }) => {}
        r => panic!("expected ChannelClosed, got {:?}", r),
    }
}

#[test]
fn take_responder_removes_only_its_key() {
    let mut reg: Reg = ChannelRegistry::new(2);
    let k1 = MethodKey { class_id: 50, method_id: 11 };
    let k2 = MethodKey { class_id: 40, method_id: 11 };
    assert_eq!(reg.allocate(resource(None)), Some(1));
    assert!(reg.register_responder(1, k1, 100).is_ok());
    assert!(reg.register_responder(1, k2, 200).is_ok());

    assert_eq!(reg.take_responder(1, k1), Some(100));
    assert_eq!(reg.take_responder(1, k1), None);
    assert_eq!(reg.take_responder(1, k2), Some(200));
}
