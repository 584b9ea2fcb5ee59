//! The marker server: what inserting a marker sets in motion.
//!
//! Inserting a marker builds its handle, makes its frame known, queues the
//! transform that places it, and lays down what the caller is to tell the
//! visualisation client. The telling itself is the caller's.

use crate::frame::{put, Activity, FrameEntry, FrameRegistry, FrameView};
use crate::geometry::{Pose, Stamp};
use crate::marker::{create_marker, initial_pose, marker_view, MarkerHandle, EVERY_FEEDBACK};
use crate::message::{RecordView, TransformMessage, TransformRecord};
use crate::relay::PublishRelay;
use crate::session::{MarkerSession, MarkerState};
use vstd::prelude::*;

verus! {

/// One thing to tell the visualisation client about a marker that was
/// inserted.
#[derive(Clone, Copy, Debug, PartialEq, Eq, Structural)]
pub enum RegistrationStep {
    /// Hand the marker's handle to the interactive-marker server.
    RegisterMarker,
    /// Attach the marker's feedback callback, for the kinds of feedback in
    /// this mask.
    AttachFeedback(u8),
    /// Have the interactive-marker server send out what has changed.
    ApplyChanges,
    /// Hand the marker's visual to the server that shows visuals, under the
    /// marker's name.
    ShowVisual,
    /// Have the server that shows visuals send out what has changed.
    ApplyVisualChanges,
}

/// The steps that register a marker, in the order in which they are taken.
/// A marker with a visual takes two more than one without.
pub open spec fn registration_steps(with_visual: bool) -> Seq<RegistrationStep> {
    if with_visual {
        seq![
            RegistrationStep::RegisterMarker,
            RegistrationStep::AttachFeedback(EVERY_FEEDBACK),
            RegistrationStep::ApplyChanges,
            RegistrationStep::ShowVisual,
            RegistrationStep::ApplyVisualChanges,
        ]
    } else {
        seq![
            RegistrationStep::RegisterMarker,
            RegistrationStep::AttachFeedback(EVERY_FEEDBACK),
            RegistrationStep::ApplyChanges,
        ]
    }
}

/// Every insertion attaches one feedback callback, no more and no fewer:
/// the second of its steps does, and no other.
pub proof fn lemma_one_callback_for_each_insertion(with_visual: bool)
    ensures
        registration_steps(with_visual)[1] == RegistrationStep::AttachFeedback(EVERY_FEEDBACK),
        forall|i: int|
            0 <= i < registration_steps(with_visual).len() && i != 1 ==> !(
            #[trigger] registration_steps(with_visual)[i] is AttachFeedback),
{
}

/// The frame that inserting a marker makes known: the marker's own, in the
/// frame it is placed in, where the marker starts. Feedback moves it, so it
/// is active.
pub open spec fn marker_frame(
    name: Seq<char>,
    spawn_at: Seq<char>,
    spawn_at_pose: Option<Pose>,
) -> FrameView {
    FrameView {
        parent_frame_id: spawn_at,
        child_frame_id: name,
        transform: initial_pose(spawn_at_pose).spec_to_transform(),
        active: Activity::Active,
    }
}

/// The records of the message that places a marker before any feedback has
/// come: one record with the pose at which the marker starts. It carries no
/// time.
pub open spec fn seed_records(
    name: Seq<char>,
    spawn_at: Seq<char>,
    spawn_at_pose: Option<Pose>,
) -> Seq<RecordView> {
    seq![
        RecordView {
            stamp: Stamp::spec_zero(),
            frame_id: spawn_at,
            child_frame_id: name,
            transform: initial_pose(spawn_at_pose).spec_to_transform(),
        },
    ]
}

/// What inserting a marker yields.
pub struct Insertion<V> {
    /// The marker to register with the visualisation client.
    pub marker: MarkerHandle,
    /// The marker's session, not yet registered, with the message that
    /// places the marker waiting in its queue.
    pub session: MarkerSession,
    /// The visual to show with the marker, as it was given.
    pub visual: Option<V>,
    /// What to tell the visualisation client, in this order.
    pub steps: Vec<RegistrationStep>,
}

/// The server of teaching markers.
pub struct TeachingMarkerServer {
    namespace: String,
}

impl TeachingMarkerServer {
    /// The namespace of the topics on which the server's markers are
    /// announced.
    pub closed spec fn namespace_view(&self) -> Seq<char> {
        self.namespace@
    }

    /// A server whose markers are announced under the topic namespace
    /// `name`.
    pub fn new(name: &str) -> (server: TeachingMarkerServer)
        ensures
            server.namespace_view() == name@,
    {
        TeachingMarkerServer { namespace: name.to_owned() }
    }

    /// The namespace of the topics on which the server's markers are
    /// announced.
    pub fn namespace(&self) -> (name: &str)
        ensures
            name@ == self.namespace_view(),
    {
        self.namespace.as_str()
    }

    /// Inserts the marker called `name` into the frame `spawn_at`, at
    /// `spawn_at_pose` or at the frame's origin where no pose is given.
    ///
    /// The marker's frame becomes known to `frames` under the marker's name,
    /// in place of a frame that was known under it. The message that places
    /// the marker waits in the queue of the session that is handed back, so
    /// that the marker is shown where it is before any feedback comes.
    /// `regular_marker`, the visual to show with the marker, is handed back
    /// as it is.
    pub fn insert<V>(
        &self,
        name: String,
        spawn_at: String,
        spawn_at_pose: Option<Pose>,
        regular_marker: Option<V>,
        frames: &mut FrameRegistry,
    ) -> (out: Insertion<V>)
        requires
            old(frames).well_formed(),
        ensures
            final(frames).well_formed(),
            final(frames)@ == put(old(frames)@, marker_frame(name@, spawn_at@, spawn_at_pose)),
            out.marker@ == marker_view(name@, spawn_at@, spawn_at_pose),
            out.session.name@ == name@,
            out.session.spawn_at@ == spawn_at@,
            out.session.state == MarkerState::Unregistered,
            out.session.relay.pending() == seq![seed_records(name@, spawn_at@, spawn_at_pose)],
            out.visual == regular_marker,
            out.steps@ == registration_steps(regular_marker.is_some()),
    {
        let marker = create_marker(name.as_str(), spawn_at.as_str(), spawn_at_pose);
        let start = match spawn_at_pose {
            Some(pose) => pose,
            None => Pose::identity(),
        };

        let seed = TransformMessage::single(
            TransformRecord {
                stamp: Stamp::zero(),
                frame_id: spawn_at.clone(),
                child_frame_id: name.clone(),
                transform: start.to_transform(),
            },
        );
        let mut relay = PublishRelay::new();
        relay.enqueue(seed);
        assert(relay.pending() =~= seq![seed_records(name@, spawn_at@, spawn_at_pose)]);

        let entry = FrameEntry {
            parent_frame_id: spawn_at.clone(),
            child_frame_id: name.clone(),
            transform: start.to_transform(),
            active: Activity::Active,
        };
        let _ = frames.insert(name.as_str(), entry);

        let mut steps: Vec<RegistrationStep> = Vec::new();
        steps.push(RegistrationStep::RegisterMarker);
        steps.push(RegistrationStep::AttachFeedback(EVERY_FEEDBACK));
        steps.push(RegistrationStep::ApplyChanges);
        if regular_marker.is_some() {
            steps.push(RegistrationStep::ShowVisual);
            steps.push(RegistrationStep::ApplyVisualChanges);
        }
        assert(steps@ =~= registration_steps(regular_marker.is_some()));

        Insertion {
            marker,
            session: MarkerSession { name, spawn_at, state: MarkerState::Unregistered, relay },
            visual: regular_marker,
            steps,
        }
    }
}

} // verus!
