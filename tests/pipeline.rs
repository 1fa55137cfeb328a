use glam::{EulerRot, Quat};
use orientation_stream::consumer::rotate_cube;
use orientation_stream::error::PipelineError;
use orientation_stream::host::{Host, RegistrationResult, Role};
use orientation_stream::publisher::{
    next_state, NodeEvent, NodeState, Publisher, PublisherAction, PublisherEvent,
};
use orientation_stream::sample::{Sample, SAMPLE_BYTES};
use orientation_stream::subscriber::{Node, PollStatus};

fn sample_of(q: Quat) -> Sample {
    let [x, y, z, w] = q.to_array();
    Sample { x: x.to_bits(), y: y.to_bits(), z: z.to_bits(), w: w.to_bits() }
}

fn quat_of(s: Sample) -> Quat {
    Quat::from_xyzw(
        f32::from_bits(s.x),
        f32::from_bits(s.y),
        f32::from_bits(s.z),
        f32::from_bits(s.w),
    )
}

fn identity() -> Sample {
    sample_of(Quat::IDENTITY)
}

fn topic() -> String {
    "quaternion".to_string()
}

#[test]
fn encode_is_little_endian_x_first() {
    let s = Sample { x: 0x3f80_0000, y: 0x0102_0304, z: 0, w: 0xffff_ffff };
    let b = s.encode();
    assert_eq!(b.len(), SAMPLE_BYTES);
    assert_eq!(
        b,
        vec![0x00, 0x00, 0x80, 0x3f, 0x04, 0x03, 0x02, 0x01, 0, 0, 0, 0, 0xff, 0xff, 0xff, 0xff]
    );
}

#[test]
fn decode_reads_back_what_encode_wrote() {
    let s = Sample { x: 1, y: 0x8000_0000, z: 0x1234_5678, w: 42 };
    assert_eq!(Sample::decode(&s.encode()), Some(s));
}

#[test]
fn decode_refuses_wrong_lengths() {
    assert_eq!(Sample::decode(&[]), None);
    assert_eq!(Sample::decode(&[0u8; 15]), None);
    assert_eq!(Sample::decode(&[0u8; 17]), None);
    assert_eq!(Sample::decode(&[0u8; 16]), Some(Sample { x: 0, y: 0, z: 0, w: 0 }));
}

#[test]
fn lookup_of_unpublished_topic_is_none() {
    let h = Host::new();
    assert_eq!(h.lookup(&topic()), None);
    assert_eq!(h.topic_count(), 0);
}

#[test]
fn publish_then_lookup_of_transformed_euler_angles() {
    let (a, b, c) = (10.0f32.to_radians(), 20.0f32.to_radians(), 30.0f32.to_radians());
    let q = Quat::from_euler(EulerRot::XYZ, -a, b, c);
    let mut h = Host::new();
    let payload = sample_of(q).encode();
    assert_eq!(h.ingest(&topic(), &payload), Ok(sample_of(q)));
    let got = quat_of(h.lookup(&topic()).unwrap());
    assert!((got.x - q.x).abs() < 1e-6);
    assert!((got.y - q.y).abs() < 1e-6);
    assert!((got.z - q.z).abs() < 1e-6);
    assert!((got.w - q.w).abs() < 1e-6);
    assert!((got.length() - 1.0).abs() < 1e-5);
}

#[test]
fn two_lookups_without_publish_agree() {
    let mut h = Host::new();
    h.publish(&topic(), identity());
    let first = h.lookup(&topic());
    let second = h.lookup(&topic());
    assert_eq!(first, second);
    assert_eq!(first, Some(identity()));
}

#[test]
fn last_write_wins() {
    let a = Sample { x: 1, y: 2, z: 3, w: 4 };
    let b = Sample { x: 5, y: 6, z: 7, w: 8 };
    let mut h = Host::new();
    h.publish(&topic(), a);
    h.publish(&topic(), b);
    assert_eq!(h.lookup(&topic()), Some(b));
    assert_eq!(h.topic_count(), 1);
}

#[test]
fn topics_are_kept_apart() {
    let a = Sample { x: 1, y: 2, z: 3, w: 4 };
    let b = Sample { x: 5, y: 6, z: 7, w: 8 };
    let mut h = Host::new();
    h.publish(&"Quaternion".to_string(), a);
    h.publish(&topic(), b);
    assert_eq!(h.lookup(&"Quaternion".to_string()), Some(a));
    assert_eq!(h.lookup(&topic()), Some(b));
    assert_eq!(h.topic_count(), 2);
}

#[test]
fn malformed_datagram_is_dropped_and_next_one_stored() {
    let mut h = Host::new();
    let old = Sample { x: 9, y: 9, z: 9, w: 9 };
    h.publish(&topic(), old);
    assert_eq!(h.ingest(&topic(), &[1, 2, 3]), Err(PipelineError::Protocol));
    assert_eq!(h.lookup(&topic()), Some(old));
    let good = Sample { x: 1, y: 0, z: 0, w: 0 };
    assert_eq!(h.ingest(&topic(), &good.encode()), Ok(good));
    assert_eq!(h.lookup(&topic()), Some(good));
}

#[test]
fn registration_is_idempotent_and_names_are_unique() {
    let mut h = Host::new();
    let name = "IMU_TX_NODE".to_string();
    assert_eq!(h.register(&name, Role::Publisher), RegistrationResult::Registered);
    assert_eq!(h.register(&name, Role::Publisher), RegistrationResult::AlreadyRegistered);
    assert_eq!(h.register(&name, Role::Subscriber), RegistrationResult::NameTaken);
    assert_eq!(
        h.register(&"IMU_SUBSCRIPTION".to_string(), Role::Subscriber),
        RegistrationResult::Registered
    );
    assert_eq!(h.node_count(), 2);
}

#[test]
fn subscription_without_sample_reports_no_data() {
    let n = Node::new("IMU_SUBSCRIPTION".to_string(), topic(), 10, 100);
    assert_eq!(n.get_subscribed_data(), Err(PipelineError::DataUnavailable));
}

#[test]
fn unreachable_host_gives_unavailable_within_timeout() {
    let mut n = Node::new("sub".to_string(), topic(), 10, 100);
    assert_eq!(n.remaining_wait_ms(0), 100);
    assert_eq!(n.remaining_wait_ms(60), 40);
    assert_eq!(n.remaining_wait_ms(100), 0);
    assert_eq!(n.remaining_wait_ms(250), 0);
    assert_eq!(n.settle_poll(None, 100), PollStatus::Unavailable);
    assert_eq!(n.get_subscribed_data(), Err(PipelineError::DataUnavailable));
}

#[test]
fn late_answer_is_discarded() {
    let mut n = Node::new("sub".to_string(), topic(), 10, 100);
    let a = identity();
    assert_eq!(n.settle_poll(Some(Some(a)), 100), PollStatus::Changed);
    let b = Sample { x: 1, y: 1, z: 1, w: 1 };
    assert_eq!(n.settle_poll(Some(Some(b)), 101), PollStatus::Unavailable);
    assert_eq!(n.get_subscribed_data(), Ok(a));
    assert_eq!(n.settle_poll(Some(None), 5), PollStatus::NoData);
    assert_eq!(n.get_subscribed_data(), Ok(a));
}

#[test]
fn fast_poller_against_slow_publisher() {
    let a = Sample { x: 1, y: 2, z: 3, w: 4 };
    let b = Sample { x: 5, y: 6, z: 7, w: 8 };
    let mut h = Host::new();
    let mut n = Node::new("IMU_SUBSCRIPTION".to_string(), topic(), 10, 50);
    h.publish(&topic(), a);
    assert_eq!(n.poll_host(&h), PollStatus::Changed);
    let mut unchanged = 0;
    let mut changed_at = Vec::new();
    for k in 1..=50u64 {
        let now = k * n.poll_interval_ms;
        if now % 500 == 0 {
            h.publish(&topic(), b);
        }
        match n.poll_host(&h) {
            PollStatus::Unchanged => unchanged += 1,
            PollStatus::Changed => changed_at.push(k),
            other => panic!("unexpected {:?}", other),
        }
    }
    assert_eq!(unchanged, 49);
    assert_eq!(changed_at, vec![50]);
    assert_eq!(n.get_subscribed_data(), Ok(b));
}

#[test]
fn publisher_survives_three_send_failures() {
    let mut p = Publisher::new(topic());
    let s = identity();
    for _ in 0..3 {
        match p.step(PublisherEvent::Reading(Ok(s))) {
            PublisherAction::Transmit(bytes) => assert_eq!(bytes, s.encode()),
            other => panic!("unexpected {:?}", other),
        }
        assert!(matches!(
            p.step(PublisherEvent::Sent(Err(PipelineError::NetworkTransient))),
            PublisherAction::AcquireNext
        ));
    }
    assert_eq!(p.consecutive_failures, 3);
    assert_eq!(p.published, 0);
    assert!(matches!(p.step(PublisherEvent::Reading(Ok(s))), PublisherAction::Transmit(_)));
    assert!(matches!(p.step(PublisherEvent::Sent(Ok(()))), PublisherAction::AcquireNext));
    assert_eq!(p.published, 1);
    assert_eq!(p.consecutive_failures, 0);
    assert_eq!(p.last_error, Some(PipelineError::NetworkTransient));
}

#[test]
fn failed_reading_is_skipped() {
    let mut p = Publisher::new(topic());
    assert!(matches!(
        p.step(PublisherEvent::Reading(Err(PipelineError::Hardware))),
        PublisherAction::AcquireNext
    ));
    assert_eq!(p.last_error, Some(PipelineError::Hardware));
    assert_eq!(p.published, 0);
}

#[test]
fn node_lifecycle() {
    let s = next_state(NodeState::Disconnected, NodeEvent::Connect);
    assert_eq!(s, NodeState::Connecting);
    assert_eq!(next_state(s, NodeEvent::Activate), NodeState::Connecting);
    let s = next_state(s, NodeEvent::Acknowledged);
    assert_eq!(s, NodeState::Registered);
    let s = next_state(s, NodeEvent::Activate);
    assert_eq!(s, NodeState::Active);
    assert_eq!(next_state(s, NodeEvent::NetworkFailure), NodeState::Active);
    assert_eq!(next_state(s, NodeEvent::Connect), NodeState::Active);
}

#[test]
fn consumer_keeps_rotation_without_data() {
    let current = Sample { x: 7, y: 7, z: 7, w: 7 };
    let mut n = Node::new("sub".to_string(), topic(), 10, 100);
    assert_eq!(rotate_cube(current, &n), current);
    let fresh = identity();
    n.settle_poll(Some(Some(fresh)), 0);
    assert_eq!(rotate_cube(current, &n), fresh);
}

#[test]
fn only_startup_failures_are_fatal() {
    assert!(PipelineError::Hardware.is_fatal_at_startup());
    assert!(PipelineError::NetworkBind.is_fatal_at_startup());
    assert!(!PipelineError::NetworkTransient.is_fatal_at_startup());
    assert!(!PipelineError::Protocol.is_fatal_at_startup());
    assert!(!PipelineError::DataUnavailable.is_fatal_at_startup());
}

#[test]
fn any_sixteen_bytes_encode_back_to_themselves() {
    let b: Vec<u8> = (0u8..16).map(|i| i.wrapping_mul(37).wrapping_add(5)).collect();
    let s = Sample::decode(&b).unwrap();
    assert_eq!(s.encode(), b);
}
