use teaching_markers::failure::{Failure, Reach};
use teaching_markers::frame::{Activity, FrameEntry, FrameRegistry};
use teaching_markers::geometry::{
    Pose, Quaternion, Scalar, Stamp, Transform, Vector3, ONE_BITS, SQRT_HALF_BITS, ZERO_BITS,
};
use teaching_markers::marker::{
    create_marker, prepare_control, Axis, EVERY_FEEDBACK, MARKER_SCALE_BITS, MOVE_AXIS, ROTATE_AXIS,
};
use teaching_markers::message::{TransformMessage, TransformRecord};
use teaching_markers::relay::PublishRelay;
use teaching_markers::server::RegistrationStep;
use teaching_markers::session::{process_feedback, FeedbackEvent, MarkerEvent, MarkerState};
use teaching_markers::TeachingMarkerServer;

fn scalar(value: f64) -> Scalar {
    Scalar { bits: value.to_bits() }
}

fn pose(x: f64, y: f64, z: f64, q: (f64, f64, f64, f64)) -> Pose {
    Pose {
        position: Vector3 { x: scalar(x), y: scalar(y), z: scalar(z) },
        orientation: Quaternion { x: scalar(q.0), y: scalar(q.1), z: scalar(q.2), w: scalar(q.3) },
    }
}

fn feedback(name: &str, at: Pose) -> FeedbackEvent {
    FeedbackEvent { marker_name: name.to_string(), pose: at }
}

fn record(parent: &str, child: &str, at: Pose, stamp: Stamp) -> TransformRecord {
    TransformRecord {
        stamp,
        frame_id: parent.to_string(),
        child_frame_id: child.to_string(),
        transform: Transform { translation: at.position, rotation: at.orientation },
    }
}

fn norm(q: &Quaternion) -> f64 {
    let (x, y, z, w) = (
        f64::from_bits(q.x.bits),
        f64::from_bits(q.y.bits),
        f64::from_bits(q.z.bits),
        f64::from_bits(q.w.bits),
    );
    (x * x + y * y + z * z + w * w).sqrt()
}

#[test]
fn encodings_are_those_of_the_numbers() {
    assert_eq!(f64::from_bits(ZERO_BITS), 0.0);
    assert_eq!(f64::from_bits(ONE_BITS), 1.0);
    assert_eq!(f64::from_bits(SQRT_HALF_BITS), std::f64::consts::FRAC_1_SQRT_2);
    assert_eq!(f64::from_bits(MARKER_SCALE_BITS), 0.3);
    assert_eq!(Scalar::zero(), scalar(0.0));
    assert_eq!(Scalar::one(), scalar(1.0));
    assert_eq!(Scalar::sqrt_half(), scalar(0.5f64.sqrt()));
}

#[test]
fn identities() {
    assert_eq!(Pose::identity(), pose(0.0, 0.0, 0.0, (0.0, 0.0, 0.0, 1.0)));
    assert_eq!(Transform::identity(), Pose::identity().to_transform());
    assert_eq!(Vector3::zero(), Pose::identity().position);
    assert_eq!(Stamp::zero(), Stamp { sec: 0, nanosec: 0 });
    let p = pose(1.5, -2.0, 3.25, (0.5, 0.5, 0.5, 0.5));
    assert_eq!(p.to_transform().translation, p.position);
    assert_eq!(p.to_transform().rotation, p.orientation);
}

#[test]
fn control_is_aligned_to_its_axis() {
    let control = prepare_control("rotate_y", ROTATE_AXIS, Axis::Y);
    assert_eq!(control.name, "rotate_y");
    assert_eq!(control.interaction_mode, 5);
    assert!(control.always_visible);
    let h = std::f64::consts::FRAC_1_SQRT_2;
    assert_eq!(
        control.orientation,
        Quaternion { x: scalar(0.0), y: scalar(h), z: scalar(0.0), w: scalar(h) }
    );
    let control = prepare_control("move_z", MOVE_AXIS, Axis::Z);
    assert_eq!(control.interaction_mode, 3);
    assert_eq!(
        control.orientation,
        Quaternion { x: scalar(0.0), y: scalar(0.0), z: scalar(h), w: scalar(h) }
    );
}

#[test]
fn marker_has_six_controls_of_unit_orientation() {
    let marker = create_marker("m1", "base_link", None);
    assert_eq!(marker.name, "m1");
    assert_eq!(marker.description, "m1");
    assert_eq!(marker.frame_id, "base_link");
    assert_eq!(f64::from_bits(marker.scale.bits), 0.3);
    assert_eq!(marker.pose, Pose::identity());
    let listed: Vec<(&str, u8)> = marker
        .controls
        .iter()
        .map(|c| (c.name.as_str(), c.interaction_mode))
        .collect();
    assert_eq!(
        listed,
        vec![
            ("rotate_x", ROTATE_AXIS),
            ("move_x", MOVE_AXIS),
            ("rotate_y", ROTATE_AXIS),
            ("move_y", MOVE_AXIS),
            ("rotate_z", ROTATE_AXIS),
            ("move_z", MOVE_AXIS),
        ]
    );
    for (i, control) in marker.controls.iter().enumerate() {
        assert!((norm(&control.orientation) - 1.0).abs() < 1e-6);
        assert!(control.always_visible);
        let along = prepare_control("", 0, [Axis::X, Axis::Y, Axis::Z][i / 2]).orientation;
        assert_eq!(control.orientation, along);
    }
}

#[test]
fn marker_starts_at_the_pose_given() {
    let start = pose(0.1, 0.2, 0.3, (0.0, 0.0, 1.0, 0.0));
    let marker = create_marker("m2", "world", Some(start));
    assert_eq!(marker.pose, start);
    assert_eq!(marker.controls.len(), 6);
}

#[test]
fn feedback_turns_into_one_record() {
    let at = pose(1.0, 2.0, 3.0, (0.0, 0.0, 0.0, 1.0));
    let stamp = Stamp { sec: 42, nanosec: 7 };
    let msg = process_feedback("m1", "base_link", feedback("m1", at), stamp);
    assert_eq!(msg, TransformMessage::single(record("base_link", "m1", at, stamp)));
    assert_eq!(msg.len(), 1);
}

#[test]
fn feedback_quaternion_is_not_normalised() {
    let at = pose(0.0, 0.0, 0.0, (2.0, 0.0, 0.0, 2.0));
    let msg = process_feedback("m1", "base_link", feedback("m1", at), Stamp::zero());
    assert_eq!(msg.transforms[0].transform.rotation, at.orientation);
    let odd = pose(f64::NAN, -0.0, f64::INFINITY, (0.0, 0.0, 0.0, 0.0));
    let msg = process_feedback("m1", "base_link", feedback("m1", odd), Stamp::zero());
    assert_eq!(msg.transforms[0].transform.translation, odd.position);
    assert_eq!(msg.transforms[0].transform.rotation, odd.orientation);
}

#[test]
fn relay_gives_messages_back_in_arrival_order() {
    let mut relay = PublishRelay::new();
    assert!(relay.dequeue().is_none());
    let at = Pose::identity();
    let first = TransformMessage::single(record("world", "a", at, Stamp { sec: 1, nanosec: 0 }));
    let second = TransformMessage::single(record("world", "a", at, Stamp { sec: 2, nanosec: 0 }));
    let third = TransformMessage::single(record("world", "b", at, Stamp { sec: 3, nanosec: 0 }));
    relay.enqueue(first.clone());
    relay.enqueue(second.clone());
    assert_eq!(relay.dequeue(), Some(first.clone()));
    relay.enqueue(third.clone());
    // The same message twice is two messages.
    relay.enqueue(third.clone());
    assert_eq!(relay.dequeue(), Some(second));
    assert_eq!(relay.drain(), vec![third.clone(), third]);
    assert!(relay.dequeue().is_none());
    assert!(relay.drain().is_empty());
}

#[test]
fn insert_seeds_the_frame_and_the_queue() {
    let server = TeachingMarkerServer::new("teaching_markers");
    assert_eq!(server.namespace(), "teaching_markers");
    let mut frames = FrameRegistry::new();
    let start = pose(0.5, 0.0, 0.25, (0.0, 0.0, 0.0, 1.0));
    let out = server.insert(
        "m1".to_string(),
        "base_link".to_string(),
        Some(start),
        Some("mesh"),
        &mut frames,
    );
    assert_eq!(out.marker, create_marker("m1", "base_link", Some(start)));
    assert_eq!(out.visual, Some("mesh"));
    assert_eq!(
        out.steps,
        vec![
            RegistrationStep::RegisterMarker,
            RegistrationStep::AttachFeedback(EVERY_FEEDBACK),
            RegistrationStep::ApplyChanges,
            RegistrationStep::ShowVisual,
            RegistrationStep::ApplyVisualChanges,
        ]
    );
    assert_eq!(EVERY_FEEDBACK, 255);
    assert_eq!(
        frames.get("m1"),
        Some(&FrameEntry {
            parent_frame_id: "base_link".to_string(),
            child_frame_id: "m1".to_string(),
            transform: start.to_transform(),
            active: Activity::Active,
        })
    );
    let mut session = out.session;
    assert_eq!(session.name, "m1");
    assert_eq!(session.spawn_at, "base_link");
    assert_eq!(session.state, MarkerState::Unregistered);
    assert_eq!(
        session.relay.drain(),
        vec![TransformMessage::single(record("base_link", "m1", start, Stamp::zero()))]
    );
}

#[test]
fn insert_without_pose_or_visual() {
    let server = TeachingMarkerServer::new("teaching_markers");
    let mut frames = FrameRegistry::new();
    let out =
        server.insert::<String>("m1".to_string(), "base_link".to_string(), None, None, &mut frames);
    assert_eq!(out.visual, None);
    assert_eq!(
        out.steps,
        vec![
            RegistrationStep::RegisterMarker,
            RegistrationStep::AttachFeedback(255),
            RegistrationStep::ApplyChanges,
        ]
    );
    assert_eq!(out.marker.pose, Pose::identity());
    assert_eq!(frames.get("m1").map(|f| f.transform), Some(Transform::identity()));
    let mut session = out.session;
    assert_eq!(
        session.next_message(),
        Some(TransformMessage::single(record("base_link", "m1", Pose::identity(), Stamp::zero())))
    );
    assert_eq!(session.next_message(), None);
}

#[test]
fn inserting_a_name_twice_keeps_one_frame() {
    let server = TeachingMarkerServer::new("teaching_markers");
    let mut frames = FrameRegistry::new();
    frames.insert(
        "base_link",
        FrameEntry {
            parent_frame_id: "world".to_string(),
            child_frame_id: "base_link".to_string(),
            transform: Transform::identity(),
            active: Activity::Inactive,
        },
    );
    let first = pose(1.0, 0.0, 0.0, (0.0, 0.0, 0.0, 1.0));
    let second = pose(2.0, 0.0, 0.0, (0.0, 0.0, 0.0, 1.0));
    let a = server.insert::<()>("m1".to_string(), "base_link".to_string(), Some(first), None, &mut frames);
    let b = server.insert::<()>("m1".to_string(), "world".to_string(), Some(second), None, &mut frames);
    assert_eq!(frames.len(), 2);
    let kept = frames.get("m1").unwrap();
    assert_eq!(kept.parent_frame_id, "world");
    assert_eq!(kept.transform, second.to_transform());
    for steps in [&a.steps, &b.steps] {
        let attached = steps
            .iter()
            .filter(|s| matches!(s, RegistrationStep::AttachFeedback(_)))
            .count();
        assert_eq!(attached, 1);
    }
}

#[test]
fn feedback_on_an_inserted_marker_is_published_once() {
    let server = TeachingMarkerServer::new("teaching_markers");
    let mut frames = FrameRegistry::new();
    let out = server.insert::<()>("m1".to_string(), "base_link".to_string(), None, None, &mut frames);
    let mut session = out.session;
    session.registered();
    assert_eq!(session.state, MarkerState::Registered);
    // The message that places the marker leaves first.
    assert_eq!(session.relay.drain().len(), 1);

    let at = pose(1.0, 2.0, 3.0, (0.0, 0.0, 0.0, 1.0));
    let stamp = Stamp { sec: 10, nanosec: 20 };
    assert!(session.on_feedback(feedback("m1", at), stamp));
    assert_eq!(session.state, MarkerState::Live);
    let published = session.relay.drain();
    assert_eq!(published.len(), 1);
    assert_eq!(published[0].len(), 1);
    let got = &published[0].transforms[0];
    assert_eq!(got.child_frame_id, "m1");
    assert_eq!(got.frame_id, "base_link");
    assert_eq!(f64::from_bits(got.transform.translation.x.bits), 1.0);
    assert_eq!(f64::from_bits(got.transform.translation.y.bits), 2.0);
    assert_eq!(f64::from_bits(got.transform.translation.z.bits), 3.0);
    assert_eq!(f64::from_bits(got.transform.rotation.x.bits), 0.0);
    assert_eq!(f64::from_bits(got.transform.rotation.y.bits), 0.0);
    assert_eq!(f64::from_bits(got.transform.rotation.z.bits), 0.0);
    assert_eq!(f64::from_bits(got.transform.rotation.w.bits), 1.0);
    assert_eq!(got.stamp, stamp);
    assert_eq!(session.next_message(), None);
}

#[test]
fn feedback_leaves_in_the_order_in_which_it_came() {
    let server = TeachingMarkerServer::new("teaching_markers");
    let mut frames = FrameRegistry::new();
    let out = server.insert::<()>("m1".to_string(), "base_link".to_string(), None, None, &mut frames);
    let mut session = out.session;
    session.registered();
    session.relay.drain();
    let mut expected = Vec::new();
    for i in 0..50 {
        // Every third edit repeats the pose before it: nothing is merged.
        let x = (i - i % 3) as f64 * 0.125;
        let at = pose(x, -x, 0.5, (0.0, 0.0, 0.0, 1.0));
        let stamp = Stamp { sec: i, nanosec: 0 };
        assert!(session.on_feedback(feedback("m1", at), stamp));
        expected.push(TransformMessage::single(record("base_link", "m1", at, stamp)));
    }
    assert_eq!(session.state, MarkerState::Live);
    let mut published = Vec::new();
    while let Some(msg) = session.next_message() {
        published.push(msg);
    }
    assert_eq!(published.len(), 50);
    assert_eq!(published, expected);
}

#[test]
fn feedback_for_an_unregistered_marker_changes_nothing() {
    let server = TeachingMarkerServer::new("teaching_markers");
    let mut frames = FrameRegistry::new();
    let out = server.insert::<()>("m1".to_string(), "base_link".to_string(), None, None, &mut frames);
    let mut session = out.session;
    assert!(!session.on_feedback(feedback("m1", Pose::identity()), Stamp::zero()));
    assert_eq!(session.state, MarkerState::Unregistered);
    assert_eq!(session.relay.drain().len(), 1);
}

#[test]
fn marker_states_follow_each_other() {
    let registered = MarkerEvent::Registered;
    let feedback = MarkerEvent::Feedback;
    assert_eq!(MarkerState::Unregistered.after(registered), MarkerState::Registered);
    assert_eq!(MarkerState::Unregistered.after(feedback), MarkerState::Unregistered);
    assert_eq!(MarkerState::Registered.after(registered), MarkerState::Registered);
    assert_eq!(MarkerState::Registered.after(feedback), MarkerState::Live);
    assert_eq!(MarkerState::Live.after(feedback), MarkerState::Live);
    assert_eq!(MarkerState::Live.after(registered), MarkerState::Live);
}

#[test]
fn failures_reach_as_far_as_their_kind() {
    assert_eq!(Failure::Publish.reach(), Reach::Absorbed);
    assert_eq!(Failure::Clock.reach(), Reach::Fatal);
    assert_eq!(Failure::LockPoisoning.reach(), Reach::Fatal);
    assert_eq!(Failure::Registration.reach(), Reach::Reported);
}
