//! The registry of coordinate frames, keyed by child frame name.

use crate::geometry::Transform;
use vstd::prelude::*;

verus! {

/// Who keeps a frame up to date.
#[derive(Clone, Copy, Debug, PartialEq, Eq, Structural)]
pub enum Activity {
    /// Nobody moves the frame: the periodic static broadcast carries it.
    Inactive,
    /// Live feedback moves the frame: the static broadcast leaves it out.
    Active,
    /// Not said. The static broadcast leaves the frame out, as for `Active`.
    Unset,
}

/// One frame: where `child_frame_id` lies in `parent_frame_id`.
#[derive(Debug, PartialEq, Eq)]
pub struct FrameEntry {
    pub parent_frame_id: String,
    /// The frame's own name, and its key in the registry.
    pub child_frame_id: String,
    pub transform: Transform,
    pub active: Activity,
}

/// A [`FrameEntry`] with its names as sequences of characters.
pub ghost struct FrameView {
    pub parent_frame_id: Seq<char>,
    pub child_frame_id: Seq<char>,
    pub transform: Transform,
    pub active: Activity,
}

impl View for FrameEntry {
    type V = FrameView;

    open spec fn view(&self) -> FrameView {
        FrameView {
            parent_frame_id: self.parent_frame_id@,
            child_frame_id: self.child_frame_id@,
            transform: self.transform,
            active: self.active,
        }
    }
}

impl Clone for FrameEntry {
    fn clone(&self) -> (copy: Self)
        ensures
            copy == *self,
    {
        FrameEntry {
            parent_frame_id: self.parent_frame_id.clone(),
            child_frame_id: self.child_frame_id.clone(),
            transform: self.transform,
            active: self.active,
        }
    }
}

/// No two frames of the sequence have the same child frame name.
pub open spec fn keys_distinct(frames: Seq<FrameView>) -> bool {
    forall|i: int, j: int|
        0 <= i < j < frames.len() ==> (#[trigger] frames[i]).child_frame_id != (
        #[trigger] frames[j]).child_frame_id
}

/// Some frame of the sequence has the child frame name `id`.
pub open spec fn has_key(frames: Seq<FrameView>, id: Seq<char>) -> bool {
    exists|i: int| 0 <= i < frames.len() && (#[trigger] frames[i]).child_frame_id == id
}

/// The frames after `entry` was put among them: it stands in the place of the
/// frame that had its child frame name, or at the end where none had.
pub open spec fn put(frames: Seq<FrameView>, entry: FrameView) -> Seq<FrameView> {
    if has_key(frames, entry.child_frame_id) {
        Seq::new(
            frames.len(),
            |i: int|
                if frames[i].child_frame_id == entry.child_frame_id {
                    entry
                } else {
                    frames[i]
                },
        )
    } else {
        frames.push(entry)
    }
}

/// Putting a frame among frames with distinct names leaves the names
/// distinct, and adds a frame only where the name was not known.
pub proof fn lemma_put_keeps_names_distinct(frames: Seq<FrameView>, entry: FrameView)
    requires
        keys_distinct(frames),
    ensures
        keys_distinct(put(frames, entry)),
        has_key(put(frames, entry), entry.child_frame_id),
        put(frames, entry).len() == if has_key(frames, entry.child_frame_id) {
            frames.len()
        } else {
            frames.len() + 1
        },
{
    let after = put(frames, entry);
    if has_key(frames, entry.child_frame_id) {
        let at = choose|i: int|
            0 <= i < frames.len() && (#[trigger] frames[i]).child_frame_id
                == entry.child_frame_id;
        assert(after[at].child_frame_id == entry.child_frame_id);
        assert forall|a: int, b: int| 0 <= a < b < after.len() implies (#[trigger] after[a])
            .child_frame_id != (#[trigger] after[b]).child_frame_id by {
            assert(after[a].child_frame_id == frames[a].child_frame_id);
            assert(after[b].child_frame_id == frames[b].child_frame_id);
        }
    } else {
        assert(after[frames.len() as int].child_frame_id == entry.child_frame_id);
        assert forall|a: int, b: int| 0 <= a < b < after.len() implies (#[trigger] after[a])
            .child_frame_id != (#[trigger] after[b]).child_frame_id by {
            if b == frames.len() {
                assert(frames[a].child_frame_id != entry.child_frame_id);
            } else {
                assert(after[a] == frames[a]);
                assert(after[b] == frames[b]);
            }
        }
    }
}

/// Two frames put under one name leave one frame under that name, the
/// second: the registry is as if the first had never been put.
pub proof fn lemma_same_name_overwrites(frames: Seq<FrameView>, first: FrameView, second: FrameView)
    requires
        keys_distinct(frames),
        first.child_frame_id == second.child_frame_id,
    ensures
        put(put(frames, first), second) == put(frames, second),
        put(put(frames, first), second).len() == put(frames, first).len(),
        forall|i: int|
            0 <= i < put(put(frames, first), second).len() && (#[trigger] put(
                put(frames, first),
                second,
            )[i]).child_frame_id == second.child_frame_id ==> put(put(frames, first), second)[i]
                == second,
{
    let once = put(frames, first);
    let twice = put(once, second);
    lemma_put_keeps_names_distinct(frames, first);
    if has_key(frames, first.child_frame_id) {
        assert(twice =~= put(frames, second));
    } else {
        assert forall|i: int| 0 <= i < frames.len() implies (#[trigger] frames[i]).child_frame_id
            != second.child_frame_id by {}
        assert(twice =~= put(frames, second));
    }
}

/// The frames that are known, each under its child frame name, in the order
/// in which their names first came.
pub struct FrameRegistry {
    entries: Vec<FrameEntry>,
}

impl View for FrameRegistry {
    type V = Seq<FrameView>;

    closed spec fn view(&self) -> Seq<FrameView> {
        Seq::new(self.entries@.len(), |i: int| self.entries@[i]@)
    }
}

impl FrameRegistry {
    /// Every name is the key of one frame only.
    pub open spec fn well_formed(&self) -> bool {
        keys_distinct(self@)
    }

    /// A registry without frames.
    pub fn new() -> (registry: FrameRegistry)
        ensures
            registry.well_formed(),
            registry@ == Seq::<FrameView>::empty(),
    {
        let registry = FrameRegistry { entries: Vec::new() };
        assert(registry@ =~= Seq::<FrameView>::empty());
        registry
    }

    /// How many frames are known.
    pub fn len(&self) -> (n: usize)
        ensures
            n == self@.len(),
    {
        self.entries.len()
    }

    fn find(&self, key: &String) -> (at: Option<usize>)
        ensures
            match at {
                Some(i) => i < self@.len() && self@[i as int].child_frame_id == key@,
                None => !has_key(self@, key@),
            },
    {
        let mut i: usize = 0;
        while i < self.entries.len()
            invariant
                i <= self.entries@.len(),
                self@.len() == self.entries@.len(),
                forall|k: int| 0 <= k < i ==> (#[trigger] self@[k]).child_frame_id != key@,
            decreases self.entries@.len() - i,
        {
            if self.entries[i].child_frame_id.eq(key) {
                return Some(i);
            }
            i += 1;
        }
        None
    }

    /// The frame with the child frame name `id`, if one is known.
    pub fn get(&self, id: &str) -> (found: Option<&FrameEntry>)
        ensures
            found.is_some() == has_key(self@, id@),
            found matches Some(entry) ==> self@.contains(entry@) && entry@.child_frame_id == id@,
    {
        let key = id.to_owned();
        match self.find(&key) {
            Some(i) => {
                assert(self@[i as int] == self.entries@[i as int]@);
                Some(&self.entries[i])
            },
            None => None,
        }
    }

    /// Makes `entry` the frame known under `id`, which is its child frame
    /// name. A frame that was known under that name is replaced and handed
    /// back; the other frames stay as they are, and no name is ever known
    /// twice.
    pub fn insert(&mut self, id: &str, entry: FrameEntry) -> (replaced: Option<FrameEntry>)
        requires
            old(self).well_formed(),
            id@ == entry@.child_frame_id,
        ensures
            final(self).well_formed(),
            final(self)@ == put(old(self)@, entry@),
            replaced.is_some() == has_key(old(self)@, id@),
            replaced matches Some(before) ==> old(self)@.contains(before@)
                && before@.child_frame_id == id@,
    {
        let ghost before = self@;
        let ghost added = entry@;
        match self.find(&entry.child_frame_id) {
            Some(i) => {
                let mut entry = entry;
                assert(before[i as int] == self.entries@[i as int]@);
                core::mem::swap(&mut self.entries[i], &mut entry);
                proof {
                    assert(entry@ == before[i as int]);
                    assert forall|k: int| 0 <= k < before.len() implies #[trigger] self@[k] == put(
                        before,
                        added,
                    )[k] by {
                        if k != i {
                            assert(before[k].child_frame_id != before[i as int].child_frame_id);
                        }
                    }
                    assert(self@ =~= put(before, added));
                    assert forall|a: int, b: int| 0 <= a < b < self@.len() implies (
                    #[trigger] self@[a]).child_frame_id != (#[trigger] self@[b]).child_frame_id by {
                        assert(self@[a].child_frame_id == before[a].child_frame_id);
                        assert(self@[b].child_frame_id == before[b].child_frame_id);
                    }
                }
                Some(entry)
            },
            None => {
                self.entries.push(entry);
                proof {
                    assert(self@ =~= before.push(added));
                    assert forall|a: int, b: int| 0 <= a < b < self@.len() implies (
                    #[trigger] self@[a]).child_frame_id != (#[trigger] self@[b]).child_frame_id by {
                        if b == before.len() {
                            assert(before[a].child_frame_id != added.child_frame_id);
                        } else {
                            assert(self@[a] == before[a]);
                            assert(self@[b] == before[b]);
                        }
                    }
                }
                None
            },
        }
    }

    /// An independent copy of the registry as it is now.
    pub fn snapshot(&self) -> (copy: FrameRegistry)
        ensures
            copy@ == self@,
    {
        let mut entries: Vec<FrameEntry> = Vec::new();
        let mut i: usize = 0;
        while i < self.entries.len()
            invariant
                i <= self.entries@.len(),
                entries@.len() == i,
                forall|k: int| 0 <= k < i ==> entries@[k]@ == self.entries@[k]@,
            decreases self.entries@.len() - i,
        {
            entries.push(self.entries[i].clone());
            i += 1;
        }
        let copy = FrameRegistry { entries };
        assert(copy@ =~= self@);
        copy
    }

    /// The frames in the registry's order.
    pub fn entries(&self) -> (frames: &Vec<FrameEntry>)
        ensures
            frames@.len() == self@.len(),
            forall|i: int| 0 <= i < frames@.len() ==> (#[trigger] frames@[i])@ == self@[i],
    {
        &self.entries
    }
}

} // verus!
