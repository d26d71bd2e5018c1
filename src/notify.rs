//! The producer side of the notification channel, an unbounded ordered
//! multi-producer queue of `crossbeam_channel`, with a log of what this
//! producer handed to it.
use crate::event::{AppEvent, EventView};
use crossbeam_channel::Sender;
use vstd::prelude::*;

verus! {

#[verifier::external_type_specification]
#[verifier::external_body]
#[verifier::reject_recursive_types(T)]
pub struct ExSender<T>(Sender<T>);

/// A producer of the channel: the sender, and the events handed to it
/// through this producer, oldest first.
pub struct Notifier {
    pub sender: Sender<AppEvent>,
    pub sent: Ghost<Seq<EventView>>,
}

impl Notifier {
    /// A producer that has handed nothing over yet.
    pub fn new(sender: Sender<AppEvent>) -> (r: Notifier)
        ensures
            r.sender == sender,
            r.sent@ == Seq::<EventView>::empty(),
    {
        Notifier { sender, sent: Ghost(Seq::empty()) }
    }
}

/// Relies on `crossbeam_channel::Sender::try_send`: it never blocks, and
/// queues the event behind those this sender queued before, or refuses it
/// (a full bounded channel, no receive waiting on a zero-capacity one, or
/// every receiver gone). On an unbounded channel it refuses only when every
/// receiver is gone, which is not known here, so nothing is promised of the
/// outcome. The event is recorded as handed over either way.
#[verifier::external_body]
pub(crate) fn notify(n: &mut Notifier, event: AppEvent) -> (accepted: bool)
    ensures
        final(n).sender == old(n).sender,
        final(n).sent@ == old(n).sent@.push(event@),
{
    n.sender.try_send(event).is_ok()
}

} // verus!
