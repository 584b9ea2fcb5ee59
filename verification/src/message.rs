//! What is published: timestamped transforms, gathered into messages.

use crate::geometry::{Stamp, Transform};
use vstd::prelude::*;

verus! {

/// One transform, from `child_frame_id` into `frame_id`, as of `stamp`.
#[derive(Debug, PartialEq, Eq)]
pub struct TransformRecord {
    pub stamp: Stamp,
    /// The parent frame.
    pub frame_id: String,
    pub child_frame_id: String,
    pub transform: Transform,
}

/// A [`TransformRecord`] with its frame names as sequences of characters.
pub ghost struct RecordView {
    pub stamp: Stamp,
    pub frame_id: Seq<char>,
    pub child_frame_id: Seq<char>,
    pub transform: Transform,
}

impl View for TransformRecord {
    type V = RecordView;

    open spec fn view(&self) -> RecordView {
        RecordView {
            stamp: self.stamp,
            frame_id: self.frame_id@,
            child_frame_id: self.child_frame_id@,
            transform: self.transform,
        }
    }
}

impl Clone for TransformRecord {
    fn clone(&self) -> (copy: Self)
        ensures
            copy == *self,
    {
        TransformRecord {
            stamp: self.stamp,
            frame_id: self.frame_id.clone(),
            child_frame_id: self.child_frame_id.clone(),
            transform: self.transform,
        }
    }
}

/// The unit of publication: transform records in the order in which they
/// were gathered.
#[derive(Debug, PartialEq, Eq)]
pub struct TransformMessage {
    pub transforms: Vec<TransformRecord>,
}

/// The views of `records`, in their order.
pub open spec fn records_view(records: Seq<TransformRecord>) -> Seq<RecordView> {
    Seq::new(records.len(), |i: int| records[i]@)
}

impl View for TransformMessage {
    type V = Seq<RecordView>;

    open spec fn view(&self) -> Seq<RecordView> {
        records_view(self.transforms@)
    }
}

impl TransformMessage {
    /// A message of one record.
    pub fn single(record: TransformRecord) -> (msg: TransformMessage)
        ensures
            msg@ == seq![record@],
    {
        let mut transforms: Vec<TransformRecord> = Vec::new();
        transforms.push(record);
        let msg = TransformMessage { transforms };
        assert(msg@ =~= seq![record@]);
        msg
    }

    /// How many records the message carries.
    pub fn len(&self) -> (n: usize)
        ensures
            n == self@.len(),
    {
        self.transforms.len()
    }
}

impl Clone for TransformMessage {
    fn clone(&self) -> (copy: Self)
        ensures
            copy@ == self@,
    {
        let mut transforms: Vec<TransformRecord> = Vec::new();
        let mut i: usize = 0;
        while i < self.transforms.len()
            invariant
                i <= self.transforms@.len(),
                transforms@.len() == i,
                forall|k: int| 0 <= k < i ==> transforms@[k]@ == self.transforms@[k]@,
            decreases self.transforms@.len() - i,
        {
            transforms.push(self.transforms[i].clone());
            i += 1;
        }
        let copy = TransformMessage { transforms };
        assert(copy@ =~= self@);
        copy
    }
}

} // verus!
