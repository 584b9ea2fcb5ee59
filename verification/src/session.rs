//! One marker after it was inserted: the edits a user makes to it come in as
//! feedback, and leave as transform messages in the order in which they came.

use crate::geometry::{Pose, Stamp, Transform};
use crate::message::{RecordView, TransformMessage, TransformRecord};
use crate::relay::PublishRelay;
use vstd::prelude::*;

verus! {

/// A report that a user has moved a marker.
#[derive(Debug, PartialEq, Eq)]
pub struct FeedbackEvent {
    pub marker_name: String,
    /// Where the marker is now.
    pub pose: Pose,
}

/// How far a marker has come.
#[derive(Clone, Copy, Debug, PartialEq, Eq, Structural)]
pub enum MarkerState {
    /// The visualisation client has not been told of the marker.
    Unregistered,
    /// The client knows the marker; no feedback has come yet.
    Registered,
    /// The client knows the marker, and feedback has come.
    Live,
}

/// What can happen to a marker.
#[derive(Clone, Copy, Debug, PartialEq, Eq, Structural)]
pub enum MarkerEvent {
    /// The client accepted the marker.
    Registered,
    /// Feedback for the marker came in.
    Feedback,
}

impl MarkerState {
    pub open spec fn spec_after(self, event: MarkerEvent) -> MarkerState {
        match (self, event) {
            (MarkerState::Unregistered, MarkerEvent::Registered) => MarkerState::Registered,
            (MarkerState::Unregistered, MarkerEvent::Feedback) => MarkerState::Unregistered,
            (MarkerState::Registered, MarkerEvent::Registered) => MarkerState::Registered,
            (MarkerState::Registered, MarkerEvent::Feedback) => MarkerState::Live,
            (MarkerState::Live, _) => MarkerState::Live,
        }
    }

    /// The state that follows this one on `event`. Feedback for a marker that
    /// the client does not know changes nothing.
    #[verifier::when_used_as_spec(spec_after)]
    pub fn after(self, event: MarkerEvent) -> (next: MarkerState)
        ensures
            next == self.spec_after(event),
    {
        match self {
            MarkerState::Unregistered => match event {
                MarkerEvent::Registered => MarkerState::Registered,
                MarkerEvent::Feedback => MarkerState::Unregistered,
            },
            MarkerState::Registered => match event {
                MarkerEvent::Registered => MarkerState::Registered,
                MarkerEvent::Feedback => MarkerState::Live,
            },
            MarkerState::Live => MarkerState::Live,
        }
    }

    /// Whether feedback is taken in this state.
    pub open spec fn takes_feedback(self) -> bool {
        self != MarkerState::Unregistered
    }
}

/// Nothing that happens takes a marker away from the client again, and a
/// marker that is live stays live.
pub proof fn lemma_marker_never_goes_back(state: MarkerState, event: MarkerEvent)
    ensures
        state != MarkerState::Unregistered ==> state.spec_after(event)
            != MarkerState::Unregistered,
        state == MarkerState::Live ==> state.spec_after(event) == MarkerState::Live,
{
}

/// The records of the message that feedback turns into: one record, which
/// places the marker `name` in the frame `spawn_at` at the pose of the
/// feedback, every coordinate as it came, as of `stamp`.
pub open spec fn feedback_records(
    name: Seq<char>,
    spawn_at: Seq<char>,
    pose: Pose,
    stamp: Stamp,
) -> Seq<RecordView> {
    seq![
        RecordView {
            stamp,
            frame_id: spawn_at,
            child_frame_id: name,
            transform: Transform { translation: pose.position, rotation: pose.orientation },
        },
    ]
}

/// Turns feedback for the marker `name`, which is placed in the frame
/// `spawn_at`, into the transform message to publish. `stamp` is the time at
/// which the feedback is turned.
pub fn process_feedback(name: &str, spawn_at: &str, feedback: FeedbackEvent, stamp: Stamp) -> (msg:
    TransformMessage)
    ensures
        msg@ == feedback_records(name@, spawn_at@, feedback.pose, stamp),
{
    TransformMessage::single(
        TransformRecord {
            stamp,
            frame_id: spawn_at.to_owned(),
            child_frame_id: name.to_owned(),
            transform: feedback.pose.to_transform(),
        },
    )
}

/// A marker, the frame it is placed in, and the queue through which its
/// transforms leave.
pub struct MarkerSession {
    pub name: String,
    /// The frame in which the marker is placed.
    pub spawn_at: String,
    pub state: MarkerState,
    pub relay: PublishRelay,
}

impl MarkerSession {
    /// Notes that the visualisation client has accepted the marker.
    pub fn registered(&mut self)
        ensures
            final(self).state == old(self).state.spec_after(MarkerEvent::Registered),
            final(self).name == old(self).name,
            final(self).spawn_at == old(self).spawn_at,
            final(self).relay == old(self).relay,
    {
        self.state = self.state.after(MarkerEvent::Registered);
    }

    /// Takes feedback for the marker: turns it into a transform message and
    /// puts that behind the messages that wait. Says whether it did; it does
    /// not for a marker that the client does not know, and then nothing
    /// changes.
    pub fn on_feedback(&mut self, feedback: FeedbackEvent, stamp: Stamp) -> (taken: bool)
        ensures
            taken == old(self).state.takes_feedback(),
            final(self).state == old(self).state.spec_after(MarkerEvent::Feedback),
            final(self).name == old(self).name,
            final(self).spawn_at == old(self).spawn_at,
            final(self).relay.pending() == if taken {
                old(self).relay.pending().push(
                    feedback_records(old(self).name@, old(self).spawn_at@, feedback.pose, stamp),
                )
            } else {
                old(self).relay.pending()
            },
    {
        match self.state {
            MarkerState::Unregistered => false,
            MarkerState::Registered | MarkerState::Live => {
                let msg = process_feedback(
                    self.name.as_str(),
                    self.spawn_at.as_str(),
                    feedback,
                    stamp,
                );
                self.relay.enqueue(msg);
                self.state = self.state.after(MarkerEvent::Feedback);
                true
            },
        }
    }

    /// Takes out the message that is next to be published, if any waits.
    pub fn next_message(&mut self) -> (msg: Option<TransformMessage>)
        ensures
            final(self).state == old(self).state,
            final(self).name == old(self).name,
            final(self).spawn_at == old(self).spawn_at,
            old(self).relay.pending().len() == 0 ==> msg.is_none() && final(self).relay.pending()
                == old(self).relay.pending(),
            old(self).relay.pending().len() > 0 ==> msg.is_some() && msg.unwrap()@ == old(
                self,
            ).relay.pending().first() && final(self).relay.pending() == old(
                self,
            ).relay.pending().drop_first(),
    {
        self.relay.dequeue()
    }
}

/// What waits in a marker's queue after feedback with the poses and times of
/// `events` was taken, one after the other, when `pending` waited before.
pub open spec fn pending_after(
    pending: Seq<Seq<RecordView>>,
    name: Seq<char>,
    spawn_at: Seq<char>,
    events: Seq<(Pose, Stamp)>,
) -> Seq<Seq<RecordView>>
    decreases events.len(),
{
    if events.len() == 0 {
        pending
    } else {
        pending_after(pending, name, spawn_at, events.drop_last()).push(
            feedback_records(name, spawn_at, events.last().0, events.last().1),
        )
    }
}

/// Feedback leaves in the order in which it came: after any number of
/// feedback events on one marker, behind what waited before there waits one
/// message for each event, in the events' order, and each holds one record
/// with the pose of its event, every coordinate as it came.
pub proof fn lemma_feedback_keeps_its_order(
    pending: Seq<Seq<RecordView>>,
    name: Seq<char>,
    spawn_at: Seq<char>,
    events: Seq<(Pose, Stamp)>,
)
    ensures
        pending_after(pending, name, spawn_at, events).len() == pending.len() + events.len(),
        forall|k: int|
            0 <= k < pending.len() ==> (#[trigger] pending_after(
                pending,
                name,
                spawn_at,
                events,
            )[k]) == pending[k],
        forall|k: int|
            0 <= k < events.len() ==> (#[trigger] pending_after(pending, name, spawn_at, events)[
                pending.len() + k]) == seq![
                RecordView {
                    stamp: events[k].1,
                    frame_id: spawn_at,
                    child_frame_id: name,
                    transform: Transform {
                        translation: events[k].0.position,
                        rotation: events[k].0.orientation,
                    },
                },
            ],
    decreases events.len(),
{
    if events.len() > 0 {
        lemma_feedback_keeps_its_order(pending, name, spawn_at, events.drop_last());
        let before = pending_after(pending, name, spawn_at, events.drop_last());
        let after = pending_after(pending, name, spawn_at, events);
        assert forall|k: int| 0 <= k < events.len() implies (#[trigger] after[pending.len() + k])
            == seq![
            RecordView {
                stamp: events[k].1,
                frame_id: spawn_at,
                child_frame_id: name,
                transform: Transform {
                    translation: events[k].0.position,
                    rotation: events[k].0.orientation,
                },
            },
        ] by {
            if k < events.len() - 1 {
                assert(after[pending.len() + k] == before[pending.len() + k]);
                assert(events.drop_last()[k] == events[k]);
            }
        }
    }
}

} // verus!
