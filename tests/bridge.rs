use toio_bridge::command::{
    duration_byte, light_payload, magnitude_byte, motor_payload, translate_command, Arg,
    CommandChannel, CommandMessage, WriteMode, LIGHT_CHARACTERISTIC, MOTOR_CHARACTERISTIC,
};
use toio_bridge::lifecycle::{
    is_cube, step, subscriptions, CharacteristicInfo, LifecycleAction, LifecycleEvent, Phase,
    CUBE_SERVICE,
};
use toio_bridge::notification::{
    decode_notification, read_le16, source_of, NotificationEvent, NotificationSource,
    BUTTON_CHARACTERISTIC, MOTION_CHARACTERISTIC, POSITION_CHARACTERISTIC,
};
use toio_bridge::outbound::{translate_notification, OutboundEnvelope};
use toio_bridge::registry::{DeviceAddress, Registry};
use toio_bridge::router::{route, route_datagram, target_identity};
use toio_bridge::session::Session;

fn addr(v: u64) -> DeviceAddress {
    DeviceAddress { value: v }
}

fn message(pattern: &str, args: &[i32]) -> CommandMessage {
    CommandMessage {
        pattern: pattern.to_string(),
        args: args.iter().map(|&i| Arg::Int(i)).collect(),
    }
}

fn osc_string(s: &str) -> Vec<u8> {
    let mut b = s.as_bytes().to_vec();
    b.push(0);
    while b.len() % 4 != 0 {
        b.push(0);
    }
    b
}

fn osc_ints(addr: &str, args: &[i32]) -> Vec<u8> {
    let mut b = osc_string(addr);
    let mut tags = String::from(",");
    for _ in args {
        tags.push('i');
    }
    b.extend(osc_string(&tags));
    for a in args {
        b.extend_from_slice(&a.to_be_bytes());
    }
    b
}

#[test]
fn identities_follow_discovery_order() {
    let mut reg: Registry<u32> = Registry::new();
    for k in 0..5u64 {
        assert_eq!(reg.resolve_or_assign(addr(100 + k)), k as usize);
    }
    assert_eq!(reg.len(), 5);
    for k in 0..5u64 {
        assert_eq!(reg.resolve_or_assign(addr(100 + k)), k as usize);
    }
    assert_eq!(reg.len(), 5);
    assert_eq!(reg.lookup_by_identity(3), Some(addr(103)));
    assert_eq!(reg.lookup_by_identity(5), None);
}

#[test]
fn distinct_addresses_get_distinct_identities() {
    let mut reg: Registry<u32> = Registry::new();
    let a = reg.resolve_or_assign(addr(0xAABBCCDDEEFF));
    let b = reg.resolve_or_assign(addr(0x112233445566));
    assert_ne!(a, b);
    assert_eq!(reg.resolve_or_assign(addr(0x112233445566)), 1);
    assert_eq!(reg.len(), 2);
}

#[test]
fn find_reports_known_addresses_only() {
    let mut reg: Registry<u32> = Registry::new();
    assert_eq!(reg.find(addr(9)), None);
    reg.resolve_or_assign(addr(9));
    assert_eq!(reg.find(addr(9)), Some(0));
}

#[test]
fn install_queue_needs_a_known_address() {
    let mut reg: Registry<u32> = Registry::new();
    assert!(!reg.install_queue(addr(1), 7));
    assert_eq!(reg.lookup_queue(addr(1)), None);
    reg.resolve_or_assign(addr(1));
    assert_eq!(reg.lookup_queue(addr(1)), None);
    assert!(reg.install_queue(addr(1), 7));
    assert_eq!(reg.lookup_queue(addr(1)), Some(&7));
    assert!(reg.install_queue(addr(1), 8));
    assert_eq!(reg.lookup_queue(addr(1)), Some(&8));
    assert_eq!(reg.queue_of_identity(0), Some(&8));
    assert_eq!(reg.queue_of_identity(1), None);
}

#[test]
fn register_assigns_and_installs() {
    let mut reg: Registry<&str> = Registry::new();
    assert_eq!(reg.register(addr(10), "a"), 0);
    assert_eq!(reg.register(addr(20), "b"), 1);
    assert_eq!(reg.register(addr(10), "c"), 0);
    assert_eq!(reg.lookup_queue(addr(10)), Some(&"c"));
    assert_eq!(reg.lookup_queue(addr(20)), Some(&"b"));
    assert_eq!(reg.len(), 2);
}

#[test]
fn motor_command_payload() {
    let w = translate_command(&message("/motor", &[0, -50, 30, 100])).unwrap();
    assert_eq!(w.payload, vec![0x02, 0x01, 0x02, 50, 0x02, 0x01, 30, 10]);
    assert_eq!(w.channel, CommandChannel::Motor);
    assert_eq!(w.mode, WriteMode::WithoutResponse);
    assert_eq!(motor_payload(-50, 30, 100), vec![0x02, 0x01, 0x02, 50, 0x02, 0x01, 30, 10]);
}

#[test]
fn light_command_payload() {
    let w = translate_command(&message("/led", &[1, 200, -10, 300, 64])).unwrap();
    assert_eq!(w.payload, vec![0x03, 20, 0x01, 0x01, 10, (300 % 256) as u8, 64]);
    assert_eq!(w.payload[5], 44);
    assert_eq!(w.channel, CommandChannel::Light);
    assert_eq!(w.mode, WriteMode::WithResponse);
    assert_eq!(light_payload(200, -10, 300, 64), w.payload);
}

#[test]
fn byte_narrowing_keeps_the_low_byte() {
    assert_eq!(magnitude_byte(300), 44);
    assert_eq!(magnitude_byte(-256), 0);
    assert_eq!(magnitude_byte(i32::MIN), 0);
    assert_eq!(magnitude_byte(-255), 255);
    assert_eq!(duration_byte(2559), 255);
    assert_eq!(duration_byte(2560), 0);
    assert_eq!(duration_byte(-100), 246);
    assert_eq!(duration_byte(-5), 0);
    assert_eq!(duration_byte(-15), 255);
}

#[test]
fn other_commands_are_ignored() {
    assert!(translate_command(&message("/motor", &[0, 1, 2])).is_none());
    assert!(translate_command(&message("/led", &[0, 1, 2, 3])).is_none());
    assert!(translate_command(&message("/other", &[0, 1, 2, 3])).is_none());
    let mixed = CommandMessage {
        pattern: "/motor".to_string(),
        args: vec![Arg::Int(0), Arg::Other, Arg::Int(1), Arg::Int(2)],
    };
    assert!(translate_command(&mixed).is_none());
}

#[test]
fn channel_identifiers() {
    assert_eq!(CommandChannel::Motor.uuid(), MOTOR_CHARACTERISTIC);
    assert_eq!(CommandChannel::Light.uuid(), LIGHT_CHARACTERISTIC);
    assert_eq!(MOTOR_CHARACTERISTIC, 0x10B20102_5B3B_4571_9508_CF3EFCD7BBAE);
}

fn position_payload(first: u8) -> Vec<u8> {
    let mut p = vec![first];
    for v in [300u16, 150, 45, 10, 20] {
        p.extend_from_slice(&v.to_le_bytes());
    }
    p
}

#[test]
fn position_payload_decodes() {
    let ev = decode_notification(NotificationSource::Position, &position_payload(1));
    assert_eq!(
        ev,
        Some(NotificationEvent::Position { x: 300, y: 150, angle: 45, real_x: 10, real_y: 20 })
    );
    assert_eq!(read_le16(&vec![0x2C, 0x01], 0), 300);
}

#[test]
fn position_off_mat_is_dropped() {
    assert_eq!(decode_notification(NotificationSource::Position, &position_payload(3)), None);
    assert_eq!(translate_notification(0, 0, NotificationSource::Position, &position_payload(3)), None);
}

#[test]
fn short_payloads_are_dropped() {
    assert_eq!(decode_notification(NotificationSource::Position, &vec![1, 2, 3]), None);
    assert_eq!(decode_notification(NotificationSource::Button, &vec![1]), None);
    assert_eq!(decode_notification(NotificationSource::Motion, &vec![1, 2, 3, 4, 5]), None);
    assert_eq!(decode_notification(NotificationSource::Other, &vec![1, 2, 3, 4, 5, 6]), None);
}

#[test]
fn button_and_motion_decode() {
    assert_eq!(
        decode_notification(NotificationSource::Button, &vec![1, 0x80]),
        Some(NotificationEvent::Button { pressed: 0x80 })
    );
    assert_eq!(
        decode_notification(NotificationSource::Motion, &vec![1, 1, 0, 1, 5, 3]),
        Some(NotificationEvent::Motion { flatness: 1, hit: 0, double_tap: 1, face_up: 5, shake_level: 3 })
    );
}

#[test]
fn sources_by_identifier() {
    assert_eq!(source_of(POSITION_CHARACTERISTIC), NotificationSource::Position);
    assert_eq!(source_of(BUTTON_CHARACTERISTIC), NotificationSource::Button);
    assert_eq!(source_of(MOTION_CHARACTERISTIC), NotificationSource::Motion);
    assert_eq!(source_of(CUBE_SERVICE), NotificationSource::Other);
}

#[test]
fn position_message_bytes() {
    let bytes = translate_notification(7, 1, NotificationSource::Position, &position_payload(1)).unwrap();
    assert_eq!(bytes, osc_ints("/position", &[7, 1, 300, 150, 45, 10, 20]));
    assert_eq!(bytes.len(), 52);
}

#[test]
fn button_and_motion_message_bytes() {
    let b = OutboundEnvelope { host_id: 2, identity: 3, event: NotificationEvent::Button { pressed: 1 } };
    assert_eq!(b.args(), vec![2, 3, 1]);
    assert_eq!(b.encode(), osc_ints("/button", &[2, 3, 1]));
    let m = OutboundEnvelope {
        host_id: 0,
        identity: 4,
        event: NotificationEvent::Motion { flatness: 1, hit: 2, double_tap: 3, face_up: 4, shake_level: 5 },
    };
    assert_eq!(m.encode(), osc_ints("/motion", &[0, 4, 1, 2, 3, 4, 5]));
}

#[test]
fn session_translates_by_characteristic() {
    let s = Session::new(9, 2).unwrap();
    assert_eq!(s.identity, 2);
    let out = s.notification(BUTTON_CHARACTERISTIC, &vec![1, 0]).unwrap();
    assert_eq!(out, osc_ints("/button", &[9, 2, 0]));
    assert_eq!(s.notification(MOTOR_CHARACTERISTIC, &vec![1, 0]), None);
    assert_eq!(Session::new(0, i32::MAX as usize + 1), None);
}

#[test]
fn out_of_range_identity_is_not_routed() {
    let mut reg: Registry<u32> = Registry::new();
    reg.register(addr(1), 10);
    reg.register(addr(2), 20);
    assert_eq!(route(&reg, &message("/motor", &[5, 1, 1, 1])), None);
    assert_eq!(route(&reg, &message("/motor", &[-1, 1, 1, 1])), None);
    assert_eq!(route(&reg, &message("/motor", &[])), None);
    let other = CommandMessage { pattern: "/motor".to_string(), args: vec![Arg::Other, Arg::Int(1)] };
    assert_eq!(route(&reg, &other), None);
    assert_eq!(target_identity(&other), None);
    assert_eq!(route(&reg, &message("/motor", &[1, 1, 1, 1])), Some(&20));
    assert_eq!(route(&reg, &message("/led", &[0, 1, 1, 1, 1])), Some(&10));
}

#[test]
fn known_device_without_queue_is_not_routed() {
    let mut reg: Registry<u32> = Registry::new();
    reg.resolve_or_assign(addr(1));
    assert_eq!(route(&reg, &message("/motor", &[0, 1, 1, 1])), None);
}

#[test]
fn datagrams_are_decoded_and_routed() {
    let mut reg: Registry<u32> = Registry::new();
    reg.register(addr(1), 10);
    reg.register(addr(2), 20);
    let (q, msg) = route_datagram(&reg, &osc_ints("/motor", &[1, -50, 30, 100])).unwrap();
    assert_eq!(*q, 20);
    assert_eq!(msg.pattern, "/motor");
    assert_eq!(msg.args, vec![Arg::Int(1), Arg::Int(-50), Arg::Int(30), Arg::Int(100)]);
    assert!(route_datagram(&reg, &osc_ints("/motor", &[5, 0, 0, 0])).is_none());
    assert!(route_datagram(&reg, &[1, 2, 3]).is_none());
    assert!(route_datagram(&reg, &[]).is_none());
}

#[test]
fn lifecycle_happy_path() {
    let (p, a) = step(Phase::Discovered, LifecycleEvent::Inspected { has_service: true, connected: false });
    assert_eq!((p, a), (Phase::Connecting, LifecycleAction::Connect));
    let (p, a) = step(p, LifecycleEvent::ConnectDone { ok: true });
    assert_eq!((p, a), (Phase::Connected, LifecycleAction::RegisterAndDiscover));
    let (p, a) = step(p, LifecycleEvent::CharacteristicsDone { ok: true });
    assert_eq!((p, a), (Phase::CharacteristicsDiscovered, LifecycleAction::Subscribe));
    let (p, a) = step(p, LifecycleEvent::SubscribeDone { ok: true });
    assert_eq!((p, a), (Phase::SubscriptionsActive, LifecycleAction::StartNotifications));
    let (p, a) = step(p, LifecycleEvent::NotificationsOpened { ok: true });
    assert_eq!((p, a), (Phase::Running, LifecycleAction::Ignore));
}

#[test]
fn lifecycle_failures_abandon() {
    assert_eq!(
        step(Phase::Discovered, LifecycleEvent::Inspected { has_service: false, connected: true }),
        (Phase::Abandoned, LifecycleAction::Ignore)
    );
    assert_eq!(
        step(Phase::Discovered, LifecycleEvent::Inspected { has_service: true, connected: true }),
        (Phase::Connected, LifecycleAction::RegisterAndDiscover)
    );
    assert_eq!(
        step(Phase::Connecting, LifecycleEvent::ConnectDone { ok: false }),
        (Phase::Abandoned, LifecycleAction::Abandon)
    );
    assert_eq!(
        step(Phase::Connected, LifecycleEvent::CharacteristicsDone { ok: false }),
        (Phase::Abandoned, LifecycleAction::Abandon)
    );
    assert_eq!(
        step(Phase::Running, LifecycleEvent::ConnectDone { ok: true }),
        (Phase::Running, LifecycleAction::Ignore)
    );
}

#[test]
fn cube_service_is_recognised() {
    assert!(is_cube(&vec![1, CUBE_SERVICE]));
    assert!(!is_cube(&vec![1, 2]));
    assert!(!is_cube(&vec![]));
}

#[test]
fn subscriptions_skip_motion_by_default() {
    let chars = vec![
        CharacteristicInfo { uuid: MOTION_CHARACTERISTIC, notify: true },
        CharacteristicInfo { uuid: POSITION_CHARACTERISTIC, notify: true },
        CharacteristicInfo { uuid: MOTOR_CHARACTERISTIC, notify: true },
        CharacteristicInfo { uuid: BUTTON_CHARACTERISTIC, notify: false },
        CharacteristicInfo { uuid: BUTTON_CHARACTERISTIC, notify: true },
    ];
    assert_eq!(
        subscriptions(&chars, false),
        vec![chars[1], chars[4]]
    );
    assert_eq!(
        subscriptions(&chars, true),
        vec![chars[0], chars[1], chars[4]]
    );
}
