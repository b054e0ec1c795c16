//! The notification bridge's forwarding rule: which polled protocol frames
//! reach the internal queue, and when the bridge stops.

use vstd::prelude::*;

verus! {

/// A protocol frame as the bridge sees it after one poll of the connection.
#[derive(Clone, Copy, PartialEq, Eq, Structural, Debug)]
pub enum Frame {
    /// A genuine change notification.
    Notification,
    /// Any other frame kind the driver may yield.
    Other,
}

/// A connection-level poll failure. Carries nothing: every poll error is
/// treated alike.
#[derive(Clone, Copy, PartialEq, Eq, Structural, Debug)]
pub struct PollFailure {
}

/// What the bridge does with one poll outcome.
#[derive(Clone, Copy, PartialEq, Eq, Structural, Debug)]
pub enum BridgeDecision {
    /// Put a notification on the internal queue.
    Forward,
    /// Drop the frame silently.
    Drop,
    /// Stop forwarding and signal failure; the session is over and only the
    /// supervisor's rebuild brings a new bridge.
    Stop,
}

/// The bridge's whole rule, per poll: forward exactly the genuine change
/// notifications, drop every other frame, stop on any poll error.
pub fn bridge_decide(polled: Result<Frame, PollFailure>) -> (d: BridgeDecision)
    ensures
        (d == BridgeDecision::Forward) <==> polled == Ok::<Frame, PollFailure>(Frame::Notification),
        (d == BridgeDecision::Drop) <==> polled == Ok::<Frame, PollFailure>(Frame::Other),
        (d == BridgeDecision::Stop) <==> (polled matches Err(_)),
{
    match polled {
        Ok(Frame::Notification) => BridgeDecision::Forward,
        Ok(Frame::Other) => BridgeDecision::Drop,
        Err(_) => BridgeDecision::Stop,
    }
}

/// What the queue receives from a sequence of poll outcomes: the
/// notifications that precede the first poll error, in poll order.
pub open spec fn spec_forwarded(polls: Seq<Result<Frame, PollFailure>>) -> Seq<Frame>
    decreases polls.len(),
{
    if polls.len() == 0 {
        Seq::empty()
    } else {
        match polls[0] {
            Err(_) => Seq::empty(),
            Ok(Frame::Notification) => seq![Frame::Notification] + spec_forwarded(
                polls.drop_first(),
            ),
            Ok(Frame::Other) => spec_forwarded(polls.drop_first()),
        }
    }
}

/// Law: while no poll has failed, the queue's content is exactly the
/// notification frames among the polls, in receipt order — one more
/// successful poll appends its notification (if it is one) and nothing else.
pub proof fn lemma_forwarded_in_order(polls: Seq<Result<Frame, PollFailure>>, f: Frame)
    requires
        forall|i: int| 0 <= i < polls.len() ==> !((#[trigger] polls[i]) matches Err(_)),
    ensures
        spec_forwarded(polls.push(Ok(f))) == if f == Frame::Notification {
            spec_forwarded(polls).push(Frame::Notification)
        } else {
            spec_forwarded(polls)
        },
    decreases polls.len(),
{
    if polls.len() == 0 {
        let pushed = polls.push(Ok::<Frame, PollFailure>(f));
        assert(pushed[0] == Ok::<Frame, PollFailure>(f));
        assert(pushed.drop_first() =~= polls);
        if f == Frame::Notification {
            assert(spec_forwarded(pushed) =~= spec_forwarded(polls).push(Frame::Notification));
        } else {
            assert(spec_forwarded(pushed) =~= spec_forwarded(polls));
        }
    } else {
        assert(polls.push(Ok(f)).drop_first() =~= polls.drop_first().push(Ok(f)));
        assert(forall|i: int|
            0 <= i < polls.drop_first().len() ==> !((#[trigger] polls.drop_first()[i]) matches Err(
            _))) by {
            assert(forall|i: int|
                0 <= i < polls.drop_first().len() ==> polls.drop_first()[i] == polls[i + 1]);
        }
        lemma_forwarded_in_order(polls.drop_first(), f);
        assert(polls.push(Ok(f))[0] == polls[0]);
        if f == Frame::Notification {
            assert(spec_forwarded(polls.push(Ok(f))) =~= spec_forwarded(polls).push(
                Frame::Notification,
            ));
        } else {
            assert(spec_forwarded(polls.push(Ok(f))) =~= spec_forwarded(polls));
        }
    }
}

} // verus!
