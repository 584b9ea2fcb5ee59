//! The periodic broadcast of the frames that nobody moves.
//!
//! At each tick of a timer the broadcaster is given the time and a snapshot
//! of the registry, and says what to publish. Reading the clock, waiting for
//! the timer and publishing are done by the caller; what follows from how
//! they went is decided here.

use crate::frame::{keys_distinct, Activity, FrameEntry, FrameRegistry, FrameView};
use crate::geometry::Stamp;
use crate::message::{records_view, RecordView, TransformMessage, TransformRecord};
use vstd::prelude::*;

verus! {

/// The time between two ticks, in milliseconds.
pub const TICK_MILLIS: u64 = 100;

/// The frames of `frames` that a static broadcast carries, in their order:
/// those marked inactive.
pub open spec fn static_frames(frames: Seq<FrameView>) -> Seq<FrameView> {
    frames.filter(|f: FrameView| f.active == Activity::Inactive)
}

/// The record that a static broadcast at `stamp` carries for `frame`.
pub open spec fn static_record(frame: FrameView, stamp: Stamp) -> RecordView {
    RecordView {
        stamp,
        frame_id: frame.parent_frame_id,
        child_frame_id: frame.child_frame_id,
        transform: frame.transform,
    }
}

/// The records of the static broadcast of `frames` at `stamp`: one for each
/// inactive frame, in the frames' order.
pub open spec fn static_records(frames: Seq<FrameView>, stamp: Stamp) -> Seq<RecordView> {
    static_frames(frames).map_values(|f: FrameView| static_record(f, stamp))
}

/// One more frame adds its record to a static broadcast if it is inactive,
/// and nothing otherwise.
pub proof fn lemma_static_records_push(frames: Seq<FrameView>, frame: FrameView, stamp: Stamp)
    ensures
        static_records(frames.push(frame), stamp) == if frame.active == Activity::Inactive {
            static_records(frames, stamp).push(static_record(frame, stamp))
        } else {
            static_records(frames, stamp)
        },
{
    reveal(Seq::filter);
    assert(frames.push(frame).drop_last() =~= frames);
    if frame.active == Activity::Inactive {
        assert(static_frames(frames.push(frame)) == static_frames(frames).push(frame));
        assert(static_records(frames.push(frame), stamp) =~= static_records(frames, stamp).push(
            static_record(frame, stamp),
        ));
    } else {
        assert(static_frames(frames.push(frame)) == static_frames(frames));
    }
}

/// The static broadcast of `frames` at `stamp`.
pub fn static_message(frames: &FrameRegistry, stamp: Stamp) -> (msg: TransformMessage)
    ensures
        msg@ == static_records(frames@, stamp),
{
    let entries = frames.entries();
    let mut transforms: Vec<TransformRecord> = Vec::new();
    let mut i: usize = 0;
    proof {
        reveal(Seq::filter);
        assert(frames@.take(0) =~= Seq::<FrameView>::empty());
        assert(records_view(transforms@) =~= static_records(frames@.take(0), stamp));
    }
    while i < entries.len()
        invariant
            i <= entries@.len(),
            entries@.len() == frames@.len(),
            forall|k: int| 0 <= k < entries@.len() ==> (#[trigger] entries@[k])@ == frames@[k],
            records_view(transforms@) == static_records(frames@.take(i as int), stamp),
        decreases entries@.len() - i,
    {
        let entry: &FrameEntry = &entries[i];
        let ghost gathered = records_view(transforms@);
        proof {
            lemma_static_records_push(frames@.take(i as int), frames@[i as int], stamp);
            assert(frames@.take(i as int).push(frames@[i as int]) =~= frames@.take(i + 1));
        }
        match entry.active {
            Activity::Inactive => {
                let record = TransformRecord {
                    stamp,
                    frame_id: entry.parent_frame_id.clone(),
                    child_frame_id: entry.child_frame_id.clone(),
                    transform: entry.transform,
                };
                assert(record@ == static_record(frames@[i as int], stamp));
                transforms.push(record);
                assert(records_view(transforms@) =~= gathered.push(record@));
            },
            Activity::Active | Activity::Unset => {},
        }
        i += 1;
    }
    assert(frames@.take(i as int) =~= frames@);
    TransformMessage { transforms }
}

/// `record` is what a static broadcast at `stamp` carries for some inactive
/// frame of `frames`.
pub open spec fn comes_from_inactive(frames: Seq<FrameView>, stamp: Stamp, record: RecordView) -> bool {
    exists|i: int|
        0 <= i < frames.len() && (#[trigger] frames[i]).active == Activity::Inactive && record
            == static_record(frames[i], stamp)
}

/// A static broadcast holds the inactive frames and nothing else: each of its
/// records is that of an inactive frame, each inactive frame has its record
/// in it, and where every frame has a name of its own, no record bears the
/// name of a frame that is active or unset.
pub proof fn lemma_broadcast_is_the_inactive_frames(frames: Seq<FrameView>, stamp: Stamp)
    ensures
        forall|j: int|
            0 <= j < static_records(frames, stamp).len() ==> comes_from_inactive(
                frames,
                stamp,
                #[trigger] static_records(frames, stamp)[j],
            ),
        forall|i: int|
            0 <= i < frames.len() && (#[trigger] frames[i]).active == Activity::Inactive
                ==> static_records(frames, stamp).contains(static_record(frames[i], stamp)),
        keys_distinct(frames) ==> forall|i: int, j: int|
            0 <= i < frames.len() && (#[trigger] frames[i]).active != Activity::Inactive && 0 <= j
                < static_records(frames, stamp).len() ==> (#[trigger] static_records(
                frames,
                stamp,
            )[j]).child_frame_id != frames[i].child_frame_id,
{
    let kept = static_frames(frames);
    let records = static_records(frames, stamp);
    let inactive = |f: FrameView| f.active == Activity::Inactive;
    assert forall|j: int| 0 <= j < kept.len() implies exists|i: int|
        0 <= i < frames.len() && (#[trigger] frames[i]).active == Activity::Inactive && frames[i]
            == #[trigger] kept[j] by {
        frames.lemma_filter_pred(inactive, j);
        assert(kept.contains(kept[j]));
        frames.lemma_filter_contains_rev(inactive, kept[j]);
        let i = choose|i: int| 0 <= i < frames.len() && frames[i] == kept[j];
        assert(frames[i].active == Activity::Inactive);
    }
    assert forall|j: int| 0 <= j < records.len() implies comes_from_inactive(
        frames,
        stamp,
        #[trigger] records[j],
    ) by {
        let i = choose|i: int|
            0 <= i < frames.len() && (#[trigger] frames[i]).active == Activity::Inactive
                && frames[i] == kept[j];
        assert(records[j] == static_record(frames[i], stamp));
    }
    assert forall|i: int|
        0 <= i < frames.len() && (#[trigger] frames[i]).active
            == Activity::Inactive implies records.contains(static_record(frames[i], stamp)) by {
        frames.lemma_filter_contains(inactive, i);
        let j = choose|j: int| 0 <= j < kept.len() && kept[j] == frames[i];
        assert(records[j] == static_record(frames[i], stamp));
    }
    if keys_distinct(frames) {
        assert forall|i: int, j: int|
            0 <= i < frames.len() && (#[trigger] frames[i]).active != Activity::Inactive && 0 <= j
                < records.len() implies (#[trigger] records[j]).child_frame_id
            != frames[i].child_frame_id by {
            let k = choose|k: int|
                0 <= k < frames.len() && (#[trigger] frames[k]).active == Activity::Inactive
                    && frames[k] == kept[j];
            assert(k != i);
            assert(records[j].child_frame_id == frames[k].child_frame_id);
            if k < i {
                assert(frames[k].child_frame_id != frames[i].child_frame_id);
            } else {
                assert(frames[i].child_frame_id != frames[k].child_frame_id);
            }
        }
    }
}

/// A frame that is unset is left out of a static broadcast just as one that
/// is active: with either mark, the broadcast is what it would be if the
/// frame were not known at all.
pub proof fn lemma_unset_is_left_out_as_active(frames: Seq<FrameView>, i: int, stamp: Stamp)
    requires
        0 <= i < frames.len(),
        frames[i].active == Activity::Unset || frames[i].active == Activity::Active,
    ensures
        static_records(frames, stamp) == static_records(frames.remove(i), stamp),
{
    let inactive = |f: FrameView| f.active == Activity::Inactive;
    let head = frames.take(i);
    let one = seq![frames[i]];
    let rest = frames.skip(i + 1);
    assert(frames =~= (head + one) + rest);
    assert(frames.remove(i) =~= head + rest);
    Seq::filter_distributes_over_add(head + one, rest, inactive);
    Seq::filter_distributes_over_add(head, one, inactive);
    Seq::filter_distributes_over_add(head, rest, inactive);
    assert(one.filter(inactive) =~= Seq::<FrameView>::empty()) by {
        reveal_with_fuel(Seq::filter, 2);
        assert(one.drop_last() =~= Seq::<FrameView>::empty());
    }
    assert(static_frames(frames) =~= static_frames(frames.remove(i)));
}

/// What the caller reports to the broadcaster.
#[derive(Clone, Copy, Debug, PartialEq, Eq, Structural)]
pub enum BroadcastEvent {
    /// The timer ticked. The clock was read and gave this time, or could
    /// not be read.
    Tick(Option<Stamp>),
    /// The last message handed out was published (`true`), or publishing it
    /// failed (`false`).
    Published(bool),
}

/// What the broadcaster asks of the caller.
#[derive(Debug, PartialEq, Eq)]
pub enum BroadcastAction {
    /// Publish this message with durable delivery, then report how it went.
    Publish(TransformMessage),
    /// Wait for the next tick.
    Wait,
    /// Log that a message was lost, then wait for the next tick.
    LogAndWait,
    /// End the loop: the broadcaster has stopped for good.
    Stop,
}

/// The periodic task that republishes the inactive frames.
///
/// It runs until a tick finds the clock unreadable: rather than publish a
/// made-up time it stops, and stays stopped. A message that could not be
/// published is lost, and the next tick goes on as usual.
pub struct StaticFrameBroadcaster {
    stopped: bool,
}

impl StaticFrameBroadcaster {
    /// Whether the broadcaster has stopped for good.
    pub closed spec fn is_stopped(&self) -> bool {
        self.stopped
    }

    /// A broadcaster that runs.
    pub fn new() -> (broadcaster: StaticFrameBroadcaster)
        ensures
            !broadcaster.is_stopped(),
    {
        StaticFrameBroadcaster { stopped: false }
    }

    /// Whether the broadcaster has stopped for good.
    pub fn stopped(&self) -> (stopped: bool)
        ensures
            stopped == self.is_stopped(),
    {
        self.stopped
    }

    /// Takes one event and says what to do next. `frames` is the snapshot of
    /// the registry that was taken for this event.
    pub fn step(&mut self, frames: &FrameRegistry, event: BroadcastEvent) -> (action:
        BroadcastAction)
        ensures
            final(self).is_stopped() == (old(self).is_stopped() || event == BroadcastEvent::Tick(
                None,
            )),
            old(self).is_stopped() ==> action == BroadcastAction::Stop,
            !old(self).is_stopped() ==> match event {
                BroadcastEvent::Tick(Some(stamp)) => action matches BroadcastAction::Publish(msg)
                    && msg@ == static_records(frames@, stamp),
                BroadcastEvent::Tick(None) => action == BroadcastAction::Stop,
                BroadcastEvent::Published(true) => action == BroadcastAction::Wait,
                BroadcastEvent::Published(false) => action == BroadcastAction::LogAndWait,
            },
    {
        if self.stopped {
            return BroadcastAction::Stop;
        }
        match event {
            BroadcastEvent::Tick(Some(stamp)) => BroadcastAction::Publish(
                static_message(frames, stamp),
            ),
            BroadcastEvent::Tick(None) => {
                self.stopped = true;
                BroadcastAction::Stop
            },
            BroadcastEvent::Published(true) => BroadcastAction::Wait,
            BroadcastEvent::Published(false) => BroadcastAction::LogAndWait,
        }
    }
}

} // verus!
