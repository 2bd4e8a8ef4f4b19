//! The subscriber's side of the broadcast fan-out.
//!
//! The channel itself belongs to the runtime. It keeps a bounded number of
//! envelopes; a subscriber that falls behind is told how many it missed and
//! goes on with the oldest one still kept. What a subscriber does with each
//! thing the channel tells it is decided here.

use crate::event::NetworkEvent;
use vstd::prelude::*;

verus! {

/// Number of envelopes the broadcast channel keeps for slow subscribers.
pub const BROADCAST_CAPACITY: usize = 256;

/// What one receive on the broadcast channel gave.
#[derive(Debug, Clone, PartialEq, Eq)]
pub enum Received {
    Envelope(NetworkEvent),
    /// The subscriber fell behind; this many envelopes were dropped for it.
    Lagged(u64),
    /// The channel is closed and empty.
    Closed,
    /// The process is shutting down.
    Shutdown,
}

/// What the subscriber does next.
#[derive(Debug, Clone, PartialEq, Eq)]
pub enum SubscriberAction {
    /// Send this envelope to the client, then receive again.
    Forward(NetworkEvent),
    /// Receive again.
    Skip,
    /// End the stream.
    Stop,
}

/// The subscriber's policy.
pub open spec fn reaction(received: Received) -> SubscriberAction {
    match received {
        Received::Envelope(envelope) => SubscriberAction::Forward(envelope),
        Received::Lagged(_) => SubscriberAction::Skip,
        Received::Closed => SubscriberAction::Stop,
        Received::Shutdown => SubscriberAction::Stop,
    }
}

/// Decides what a subscriber does with what a receive gave: an envelope is
/// forwarded, a gap is passed over, the end of the channel or of the process
/// ends the stream.
pub fn subscriber_step(received: Received) -> (action: SubscriberAction)
    ensures
        action == reaction(received),
{
    match received {
        Received::Envelope(envelope) => SubscriberAction::Forward(envelope),
        Received::Lagged(_) => SubscriberAction::Skip,
        Received::Closed => SubscriberAction::Stop,
        Received::Shutdown => SubscriberAction::Stop,
    }
}

/// What a client sees of a run of receives: the forwarded envelopes, in
/// order, up to the first receive that ends the stream.
pub open spec fn delivered(receives: Seq<Received>) -> Seq<NetworkEvent>
    decreases receives.len(),
{
    if receives.len() == 0 {
        Seq::empty()
    } else {
        match reaction(receives.first()) {
            SubscriberAction::Forward(envelope) => seq![envelope] + delivered(
                receives.drop_first(),
            ),
            SubscriberAction::Skip => delivered(receives.drop_first()),
            SubscriberAction::Stop => Seq::empty(),
        }
    }
}

/// What a channel that keeps `capacity` envelopes tells a subscriber that
/// did not receive while `sent` went out: the gap first, where there is one,
/// then the envelopes still kept, oldest first.
pub open spec fn backlog(sent: Seq<NetworkEvent>, capacity: nat) -> Seq<Received> {
    let kept = sent.subrange(sent.len() - kept_count(sent, capacity), sent.len() as int);
    let envelopes = kept.map_values(|envelope: NetworkEvent| Received::Envelope(envelope));
    if sent.len() > capacity {
        seq![Received::Lagged((sent.len() - capacity) as u64)] + envelopes
    } else {
        envelopes
    }
}

/// How many of `sent` a channel of `capacity` still keeps.
pub open spec fn kept_count(sent: Seq<NetworkEvent>, capacity: nat) -> int {
    if sent.len() > capacity {
        capacity as int
    } else {
        sent.len() as int
    }
}

/// A run of envelopes is delivered whole and in order.
pub proof fn lemma_envelopes_are_delivered(envelopes: Seq<NetworkEvent>)
    ensures
        delivered(envelopes.map_values(|envelope: NetworkEvent| Received::Envelope(envelope)))
            == envelopes,
    decreases envelopes.len(),
{
    let receives = envelopes.map_values(|envelope: NetworkEvent| Received::Envelope(envelope));
    if envelopes.len() > 0 {
        lemma_envelopes_are_delivered(envelopes.drop_first());
        assert(receives.drop_first() =~= envelopes.drop_first().map_values(
            |envelope: NetworkEvent| Received::Envelope(envelope),
        ));
        assert(seq![envelopes.first()] + envelopes.drop_first() =~= envelopes);
    } else {
        assert(delivered(receives) =~= envelopes);
    }
}

/// A subscriber that fell behind sees a suffix: of `sent` envelopes it is
/// delivered the last `capacity`, in order and without a gap between them,
/// or all of them where the channel kept them all. With room for at least
/// one envelope, the most recent one is among them.
pub proof fn lemma_lagging_subscriber_sees_suffix(sent: Seq<NetworkEvent>, capacity: nat)
    ensures
        delivered(backlog(sent, capacity)) == sent.subrange(
            sent.len() - kept_count(sent, capacity),
            sent.len() as int,
        ),
        capacity > 0 && sent.len() > 0 ==> delivered(backlog(sent, capacity)).len() > 0
            && delivered(backlog(sent, capacity)).last() == sent.last(),
{
    let kept = sent.subrange(sent.len() - kept_count(sent, capacity), sent.len() as int);
    let envelopes = kept.map_values(|envelope: NetworkEvent| Received::Envelope(envelope));
    lemma_envelopes_are_delivered(kept);
    if sent.len() > capacity {
        let receives = backlog(sent, capacity);
        assert(receives.drop_first() =~= envelopes);
    }
}

/// The envelopes among a run of receives, in order.
pub open spec fn envelopes_in(receives: Seq<Received>) -> Seq<NetworkEvent>
    decreases receives.len(),
{
    if receives.len() == 0 {
        Seq::empty()
    } else {
        match receives.first() {
            Received::Envelope(envelope) => seq![envelope] + envelopes_in(receives.drop_first()),
            _ => envelopes_in(receives.drop_first()),
        }
    }
}

/// The subscriber adds nothing, reorders nothing and leaves nothing out on
/// its own: what a client sees is a prefix of the envelopes received, and
/// all of them where the stream did not end.
pub proof fn lemma_delivery_keeps_order(receives: Seq<Received>)
    ensures
        delivered(receives).len() <= envelopes_in(receives).len(),
        delivered(receives) == envelopes_in(receives).take(delivered(receives).len() as int),
        (forall|i: int|
            0 <= i < receives.len() ==> !(#[trigger] receives[i] is Closed) && !(receives[i]
                is Shutdown)) ==> delivered(receives) == envelopes_in(receives),
    decreases receives.len(),
{
    if receives.len() > 0 {
        let rest = receives.drop_first();
        lemma_delivery_keeps_order(rest);
        assert forall|i: int| 0 <= i < rest.len() implies rest[i] == receives[i + 1] by {}
        match receives.first() {
            Received::Envelope(envelope) => {
                assert(delivered(receives) =~= envelopes_in(receives).take(
                    delivered(receives).len() as int,
                ));
            },
            Received::Lagged(_) => {},
            _ => {
                assert(receives[0] is Closed || receives[0] is Shutdown);
                assert(delivered(receives) =~= envelopes_in(receives).take(0));
            },
        }
        if forall|i: int|
            0 <= i < receives.len() ==> !(#[trigger] receives[i] is Closed) && !(receives[i]
                is Shutdown) {
            assert forall|i: int| 0 <= i < rest.len() implies !(#[trigger] rest[i] is Closed) && !(
            rest[i] is Shutdown) by {
                assert(rest[i] == receives[i + 1]);
            }
            assert(!(receives[0] is Closed) && !(receives[0] is Shutdown));
        }
    } else {
        assert(delivered(receives) =~= envelopes_in(receives).take(0));
    }
}

} // verus!
