//! What can go wrong around the library, and how far each failure reaches.

use vstd::prelude::*;

verus! {

/// A failure, by where it arises.
#[derive(Clone, Copy, Debug, PartialEq, Eq, Structural)]
pub enum Failure {
    /// A message could not be published.
    Publish,
    /// The clock could not be read at a broadcast tick.
    Clock,
    /// The lock of the shared registry is poisoned: a thread panicked while
    /// it held the lock.
    LockPoisoning,
    /// The visualisation client refused a marker.
    Registration,
}

/// How far a failure reaches.
#[derive(Clone, Copy, Debug, PartialEq, Eq, Structural)]
pub enum Reach {
    /// Logged where it arose; the message at hand is lost and the work goes
    /// on.
    Absorbed,
    /// Handed to the caller as an error; nothing stops.
    Reported,
    /// Ends the task in which it arose.
    Fatal,
}

impl Failure {
    pub open spec fn spec_reach(self) -> Reach {
        match self {
            Failure::Publish => Reach::Absorbed,
            Failure::Clock => Reach::Fatal,
            Failure::LockPoisoning => Reach::Fatal,
            Failure::Registration => Reach::Reported,
        }
    }

    /// How far this failure reaches. A failure of input or output is dealt
    /// with where it arises; one that leaves the time or the registry in
    /// doubt is not.
    #[verifier::when_used_as_spec(spec_reach)]
    pub fn reach(self) -> (reach: Reach)
        ensures
            reach == self.spec_reach(),
    {
        match self {
            Failure::Publish => Reach::Absorbed,
            Failure::Clock | Failure::LockPoisoning => Reach::Fatal,
            Failure::Registration => Reach::Reported,
        }
    }
}

} // verus!
