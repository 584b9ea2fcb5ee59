//! The hand-off between whoever produces transform messages and whoever
//! publishes them: an unbounded first-in, first-out queue.
//!
//! The queue is a `crossbeam` channel of unbounded capacity. A relay owns both
//! ends of its channel and hands neither out, so what waits in the channel
//! changes only through the relay's own methods.

use crate::message::{RecordView, TransformMessage};
use crossbeam::channel::{Receiver, Sender};
use vstd::prelude::*;

verus! {

/// `crossbeam::channel::Sender`, the sending end of a channel. Nothing is
/// known of what is inside.
#[verifier::external_type_specification]
#[verifier::external_body]
#[verifier::reject_recursive_types(T)]
pub struct ExSender<T>(Sender<T>);

/// `crossbeam::channel::Receiver`, the receiving end of a channel. Nothing
/// is known of what is inside.
#[verifier::external_type_specification]
#[verifier::external_body]
#[verifier::reject_recursive_types(T)]
pub struct ExReceiver<T>(Receiver<T>);

/// The messages that have been sent into the channel and not yet received,
/// oldest first. This is what the channel holds as long as no other handle
/// to it exists, which is so for a pair that came from [`channel_open`] and
/// was never cloned.
pub uninterp spec fn channel_waiting(
    ends: (Sender<TransformMessage>, Receiver<TransformMessage>),
) -> Seq<Seq<RecordView>>;

/// Whether the two ends belong to one channel of unbounded capacity: what the
/// first sends is what the second receives.
pub uninterp spec fn channel_joined(
    ends: (Sender<TransformMessage>, Receiver<TransformMessage>),
) -> bool;

/// `crossbeam::channel::unbounded`: a new channel. Its two ends belong
/// together, and nothing waits in it.
#[verifier::external_body]
fn channel_open() -> (ends: (Sender<TransformMessage>, Receiver<TransformMessage>))
    ensures
        channel_joined(ends),
        channel_waiting(ends) == Seq::<Seq<RecordView>>::empty(),
{
    crossbeam::channel::unbounded()
}

/// `Sender::send` on the sending end. On a channel of unbounded capacity the
/// call does not wait, and it fails only when every receiving end is gone;
/// here one is at hand. The message joins the waiting ones as the newest.
/// The call does not panic.
#[verifier::external_body]
fn channel_send(
    ends: &mut (Sender<TransformMessage>, Receiver<TransformMessage>),
    msg: TransformMessage,
)
    requires
        channel_joined(*old(ends)),
    ensures
        channel_joined(*final(ends)),
        channel_waiting(*final(ends)) == channel_waiting(*old(ends)).push(msg@),
    no_unwind
{
    let _ = ends.0.send(msg);
}

/// `Receiver::try_recv` on the receiving end. The call does not wait: it
/// takes the oldest waiting message out of the channel, or returns nothing
/// when none waits. The call does not panic.
#[verifier::external_body]
fn channel_try_recv(ends: &mut (Sender<TransformMessage>, Receiver<TransformMessage>)) -> (msg:
    Option<TransformMessage>)
    requires
        channel_joined(*old(ends)),
    ensures
        channel_joined(*final(ends)),
        match msg {
            Some(m) => {
                &&& channel_waiting(*old(ends)).len() > 0
                &&& m@ == channel_waiting(*old(ends)).first()
                &&& channel_waiting(*final(ends)) == channel_waiting(*old(ends)).drop_first()
            },
            None => {
                &&& channel_waiting(*old(ends)).len() == 0
                &&& channel_waiting(*final(ends)) == channel_waiting(*old(ends))
            },
        },
    no_unwind
{
    ends.1.try_recv().ok()
}

/// The views of `messages`, in their order.
pub open spec fn messages_view(messages: Seq<TransformMessage>) -> Seq<Seq<RecordView>> {
    Seq::new(messages.len(), |i: int| messages[i]@)
}

/// An unbounded queue of transform messages that gives them back in the
/// order in which they came, one by one, none merged and none dropped.
pub struct PublishRelay {
    ends: (Sender<TransformMessage>, Receiver<TransformMessage>),
}

impl PublishRelay {
    #[verifier::type_invariant]
    spec fn joined(self) -> bool {
        channel_joined(self.ends)
    }

    /// The messages that wait to be published, oldest first.
    pub closed spec fn pending(&self) -> Seq<Seq<RecordView>> {
        channel_waiting(self.ends)
    }

    /// A relay in which nothing waits.
    pub fn new() -> (relay: PublishRelay)
        ensures
            relay.pending() == Seq::<Seq<RecordView>>::empty(),
    {
        PublishRelay { ends: channel_open() }
    }

    /// Puts `msg` behind every message that already waits. Never blocks.
    pub fn enqueue(&mut self, msg: TransformMessage)
        ensures
            final(self).pending() == old(self).pending().push(msg@),
    {
        proof {
            use_type_invariant(&*self);
        }
        channel_send(&mut self.ends, msg);
    }

    /// Takes out the message that has waited longest, if any waits.
    pub fn dequeue(&mut self) -> (msg: Option<TransformMessage>)
        ensures
            old(self).pending().len() == 0 ==> msg.is_none() && final(self).pending() == old(
                self,
            ).pending(),
            old(self).pending().len() > 0 ==> msg.is_some() && msg.unwrap()@ == old(
                self,
            ).pending().first() && final(self).pending() == old(self).pending().drop_first(),
    {
        proof {
            use_type_invariant(&*self);
        }
        channel_try_recv(&mut self.ends)
    }

    /// Takes out every message that waits, oldest first.
    pub fn drain(&mut self) -> (out: Vec<TransformMessage>)
        ensures
            messages_view(out@) == old(self).pending(),
            final(self).pending() == Seq::<Seq<RecordView>>::empty(),
    {
        let mut out: Vec<TransformMessage> = Vec::new();
        assert(messages_view(out@) + self.pending() =~= old(self).pending());
        loop
            invariant
                messages_view(out@) + self.pending() == old(self).pending(),
            ensures
                messages_view(out@) == old(self).pending(),
                self.pending() == Seq::<Seq<RecordView>>::empty(),
            decreases self.pending().len(),
        {
            let ghost taken = messages_view(out@);
            let ghost waiting = self.pending();
            match self.dequeue() {
                Some(msg) => {
                    out.push(msg);
                    assert(messages_view(out@) =~= taken.push(msg@));
                    assert(taken.push(waiting.first()) + waiting.drop_first() =~= taken + waiting);
                },
                None => {
                    assert(taken + waiting =~= taken);
                    assert(waiting =~= Seq::<Seq<RecordView>>::empty());
                    break ;
                },
            }
        }
        out
    }
}

} // verus!
