use vstd::prelude::*;

use crate::errors::SubscriberError;

verus! {

/// A post-commit observer. After a dispatch commits, the store hands every
/// subscriber the committed state, in registration order. Subscribers are
/// for side effects: a subscriber owns its own state (a log, a sink handle)
/// and may update it on every notification.
///
/// `notified` relates the subscriber's state before a notification to its
/// state afterwards; `notify_result_spec` says whether the subscriber
/// reports an error for a given notification. A subscriber error is isolated:
/// the store records it, and neither the committed state nor the other
/// subscribers are affected.
pub trait Subscriber<S>: Sized {
    /// How one notification with the committed state changes the subscriber.
    spec fn notified(pre: Self, state: S, post: Self) -> bool;

    /// Whether the subscriber reports an error for this notification.
    spec fn notify_result_spec(pre: Self, state: S) -> Result<(), SubscriberError>;

    /// Deliver one committed state to the subscriber.
    fn notify(&mut self, state: &S) -> (r: Result<(), SubscriberError>)
        ensures
            Self::notified(*old(self), *state, *final(self)),
            r == Self::notify_result_spec(*old(self), *state),
    ;
}

} // verus!
