use vstd::prelude::*;
use crate::event::Event;
use crate::outcome::{BatchResult, DispatchOutcome, Status};
use crate::registry::{Endpoint, EndpointRegistry};

verus! {

/// What one delivery attempt came back with.
#[derive(Clone, Debug)]
pub enum Delivery {
    /// The destination took the event.
    Delivered,
    /// The attempt failed for a reason other than the deadline (say, an
    /// unreachable destination); the text says why.
    Failed(String),
    /// The attempt observed the deadline and stopped before it finished.
    Cancelled,
}

/// One delivery attempt made through a transport, as the contracts below
/// speak of it.
pub struct Attempt {
    pub event: Event,
    pub src: Endpoint,
    pub dst: Endpoint,
    /// The deadline that the attempt was asked to observe.
    pub deadline: Option<u64>,
    /// What the attempt came back with.
    pub delivery: Delivery,
}

/// Moves events to their destination. The caller picks the implementation: an
/// in-memory double, or a sender over a real network.
pub trait Transport {
    /// The delivery attempts made through this transport, in order.
    spec fn history(&self) -> Seq<Attempt>;

    /// The clock readings taken through this transport, in order.
    spec fn readings(&self) -> Seq<u64>;

    /// Whether a delivery of `event` to `dst` fails (an unreachable destination,
    /// say). Neither reading the clock nor delivering changes it.
    spec fn refuses(&self, event: Event, dst: Endpoint) -> bool;

    /// What the transport keeps true of its own state.
    spec fn inv(&self) -> bool;

    /// The current time, in the ticks that deadlines are given in.
    fn now(&mut self) -> (r: u64)
        requires
            old(self).inv(),
        ensures
            final(self).inv(),
            final(self).history() == old(self).history(),
            final(self).readings() == old(self).readings().push(r),
            forall|e: Event, d: Endpoint| #[trigger]
                final(self).refuses(e, d) == old(self).refuses(e, d),
    ;

    /// Makes one attempt to deliver `event` from `src` to `dst`. It fails exactly
    /// where the transport refuses the event. Where a deadline is given, the
    /// attempt observes it and may come back `Cancelled` rather than run past it;
    /// without a deadline it is never cancelled.
    fn deliver(&mut self, event: &Event, src: &Endpoint, dst: &Endpoint, deadline: Option<u64>) -> (r:
        Delivery)
        requires
            old(self).inv(),
        ensures
            final(self).inv(),
            final(self).history() == old(self).history().push(
                (Attempt { event: *event, src: *src, dst: *dst, deadline, delivery: r }),
            ),
            final(self).readings() == old(self).readings(),
            forall|e: Event, d: Endpoint| #[trigger]
                final(self).refuses(e, d) == old(self).refuses(e, d),
            r is Failed <==> old(self).refuses(*event, *dst),
            deadline is None ==> !(r is Cancelled),
    ;
}

/// Whether the deadline has elapsed at time `now`. No deadline never elapses.
pub open spec fn expired(deadline: Option<u64>, now: u64) -> bool {
    match deadline {
        Some(d) => now >= d,
        None => false,
    }
}

/// The outcome that a delivery attempt of event `event_id` gives.
pub open spec fn settled(event_id: u64, d: Delivery) -> DispatchOutcome {
    match d {
        Delivery::Delivered => DispatchOutcome { status: Status::Success, event_id, detail: None },
        Delivery::Failed(why) => DispatchOutcome {
            status: Status::Failure,
            event_id,
            detail: Some(why),
        },
        Delivery::Cancelled => DispatchOutcome { status: Status::TimedOut, event_id, detail: None },
    }
}

/// The outcome of an event that was not attempted because the deadline had elapsed.
pub open spec fn skipped(event_id: u64) -> DispatchOutcome {
    DispatchOutcome { status: Status::TimedOut, event_id, detail: None }
}

/// Outcome `j` of a batch was settled by attempt `j`, which delivered event `j`
/// from `src` to `dst` under `deadline`.
pub open spec fn settled_by(
    events: Seq<Event>,
    src: Endpoint,
    dst: Endpoint,
    deadline: Option<u64>,
    attempts: Seq<Attempt>,
    outcomes: Seq<DispatchOutcome>,
    j: int,
) -> bool {
    &&& attempts[j].event == events[j]
    &&& attempts[j].src == src
    &&& attempts[j].dst == dst
    &&& attempts[j].deadline == deadline
    &&& outcomes[j] == settled(events[j].id, attempts[j].delivery)
}

/// `outcomes` is what a batch dispatch of `events` from `src` to `dst` under
/// `deadline` gives, where it took the clock readings `readings` and made the
/// attempts `attempts`: before each event it read the clock; while the reading
/// had not reached the deadline it attempted the event, which settled its
/// outcome; from the first reading that reached it on, it read the clock no
/// more, attempted nothing, and the remaining events were skipped.
pub open spec fn batch_consistent(
    events: Seq<Event>,
    src: Endpoint,
    dst: Endpoint,
    deadline: Option<u64>,
    readings: Seq<u64>,
    attempts: Seq<Attempt>,
    outcomes: Seq<DispatchOutcome>,
) -> bool {
    &&& outcomes.len() == events.len()
    &&& attempts.len() <= events.len()
    &&& forall|j: int|
        0 <= j < attempts.len() ==> #[trigger] settled_by(
            events,
            src,
            dst,
            deadline,
            attempts,
            outcomes,
            j,
        )
    &&& forall|j: int|
        attempts.len() <= j < events.len() ==> #[trigger] outcomes[j] == skipped(events[j].id)
    &&& forall|j: int| 0 <= j < attempts.len() ==> !expired(deadline, #[trigger] readings[j])
    &&& attempts.len() == events.len() ==> readings.len() == attempts.len()
    &&& attempts.len() < events.len() ==> readings.len() == attempts.len() + 1 && expired(
        deadline,
        readings[attempts.len() as int],
    )
}

/// What a batch dispatch of `events` from `src` to `dst` under `deadline` owes,
/// with the transport `before` and `after` it: the transport's earlier readings
/// and attempts are kept and the new ones agree with `outcomes` as
/// `batch_consistent` says; an attempt failed exactly where the transport
/// refuses its event; and without a deadline none was cancelled.
pub open spec fn batch_dispatched<T: Transport>(
    before: T,
    after: T,
    events: Seq<Event>,
    src: Endpoint,
    dst: Endpoint,
    deadline: Option<u64>,
    outcomes: Seq<DispatchOutcome>,
) -> bool {
    let attempts = after.history().skip(before.history().len() as int);
    &&& after.inv()
    &&& forall|e: Event, d: Endpoint| #[trigger] after.refuses(e, d) == before.refuses(e, d)
    &&& after.history().len() >= before.history().len()
    &&& after.history().take(before.history().len() as int) == before.history()
    &&& after.readings().len() >= before.readings().len()
    &&& after.readings().take(before.readings().len() as int) == before.readings()
    &&& batch_consistent(
        events,
        src,
        dst,
        deadline,
        after.readings().skip(before.readings().len() as int),
        attempts,
        outcomes,
    )
    &&& forall|j: int|
        0 <= j < attempts.len() ==> (#[trigger] attempts[j].delivery is Failed <==> before.refuses(
            events[j],
            dst,
        ))
    &&& deadline is None ==> forall|j: int|
        0 <= j < attempts.len() ==> !(#[trigger] attempts[j].delivery is Cancelled)
}

pub fn is_expired(deadline: Option<u64>, now: u64) -> (r: bool)
    ensures
        r == expired(deadline, now),
{
    match deadline {
        Some(d) => now >= d,
        None => false,
    }
}

/// Turns what a delivery attempt came back with into the event's outcome.
pub fn settle(event_id: u64, d: Delivery) -> (r: DispatchOutcome)
    ensures
        r == settled(event_id, d),
{
    match d {
        Delivery::Delivered => DispatchOutcome { status: Status::Success, event_id, detail: None },
        Delivery::Failed(why) => DispatchOutcome {
            status: Status::Failure,
            event_id,
            detail: Some(why),
        },
        Delivery::Cancelled => DispatchOutcome::timed_out(event_id),
    }
}

/// A single dispatch of `event` from `src` to `dst` under `deadline`, with the
/// transport `before` and `after` it, made exactly one attempt, which was
/// handed those values and settled `r`.
pub open spec fn attempted_once<T: Transport>(
    before: T,
    after: T,
    event: Event,
    src: Endpoint,
    dst: Endpoint,
    deadline: Option<u64>,
    r: DispatchOutcome,
) -> bool {
    let a = after.history().last();
    &&& after.history().len() == before.history().len() + 1
    &&& after.history().drop_last() == before.history()
    &&& a.event == event
    &&& a.src == src
    &&& a.dst == dst
    &&& a.deadline == deadline
    &&& r == settled(event.id, a.delivery)
    &&& (a.delivery is Failed <==> before.refuses(event, dst))
    &&& (deadline is None ==> !(a.delivery is Cancelled))
}

/// Dispatches one event. It reads the clock once; where the reading has reached
/// the deadline no attempt is made and the outcome is `TimedOut`; otherwise
/// exactly one attempt delivers the event from `src` to `dst` and settles the
/// outcome. Ordinary delivery failure is an outcome, never a fault.
pub fn dispatch_one<T: Transport>(
    t: &mut T,
    event: &Event,
    src: &Endpoint,
    dst: &Endpoint,
    deadline: Option<u64>,
) -> (r: DispatchOutcome)
    requires
        old(t).inv(),
    ensures
        final(t).inv(),
        forall|e: Event, d: Endpoint| #[trigger] final(t).refuses(e, d) == old(t).refuses(e, d),
        final(t).readings().len() == old(t).readings().len() + 1,
        final(t).readings().drop_last() == old(t).readings(),
        expired(deadline, final(t).readings().last()) ==> final(t).history() == old(t).history()
            && r == skipped(event.id),
        !expired(deadline, final(t).readings().last()) ==> attempted_once(
            *old(t),
            *final(t),
            *event,
            *src,
            *dst,
            deadline,
            r,
        ),
        r.event_id == event.id,
        deadline is None ==> r.status == (if old(t).refuses(*event, *dst) {
            Status::Failure
        } else {
            Status::Success
        }),
        deadline == Some(0u64) ==> final(t).history() == old(t).history() && r == skipped(
            event.id,
        ),
{
    let now = t.now();
    if is_expired(deadline, now) {
        return DispatchOutcome::timed_out(event.id);
    }
    let ghost before = t.history();
    let d = t.deliver(event, src, dst, deadline);
    assert(t.history().drop_last() == before);
    settle(event.id, d)
}

/// Dispatches `events` in input order from `src` to `dst` under one deadline
/// shared by the whole batch. Before each event it reads the clock; once a
/// reading has reached the deadline, no further attempt is made and every event
/// not yet attempted is `TimedOut`. A failed event does not stop the ones after
/// it, and nothing is retried. Outcomes align with the input position by
/// position.
pub fn dispatch_many<T: Transport>(
    t: &mut T,
    events: &[Event],
    src: &Endpoint,
    dst: &Endpoint,
    deadline: Option<u64>,
) -> (r: BatchResult)
    requires
        old(t).inv(),
    ensures
        batch_dispatched(*old(t), *final(t), events@, *src, *dst, deadline, r.outcomes@),
        r.outcomes@.len() == events@.len(),
        forall|i: int| 0 <= i < events@.len() ==> #[trigger] r.outcomes@[i].event_id == events@[i].id,
        deadline is None ==> final(t).history().len() == old(t).history().len() + events@.len(),
        deadline is None ==> forall|i: int|
            0 <= i < events@.len() ==> #[trigger] r.outcomes@[i].status == (if old(t).refuses(
                events@[i],
                *dst,
            ) {
                Status::Failure
            } else {
                Status::Success
            }),
        deadline == Some(0u64) ==> final(t).history() == old(t).history(),
        deadline == Some(0u64) ==> forall|i: int|
            0 <= i < events@.len() ==> #[trigger] r.outcomes@[i].status == Status::TimedOut,
{
    let ghost h0 = t.history();
    let ghost r0 = t.readings();
    let ghost mut atts: Seq<Attempt> = Seq::empty();
    let ghost mut rds: Seq<u64> = Seq::empty();
    let mut outcomes: Vec<DispatchOutcome> = Vec::new();
    let mut elapsed = false;
    let mut i: usize = 0;
    while i < events.len()
        invariant
            t.inv(),
            h0 == old(t).history(),
            r0 == old(t).readings(),
            forall|e: Event, d: Endpoint| #[trigger] t.refuses(e, d) == old(t).refuses(e, d),
            t.history() == h0 + atts,
            t.readings() == r0 + rds,
            i <= events@.len(),
            outcomes@.len() == i,
            !elapsed ==> atts.len() == i && rds.len() == i,
            elapsed ==> atts.len() < i && rds.len() == atts.len() + 1 && expired(
                deadline,
                rds[atts.len() as int],
            ),
            deadline is None ==> !elapsed,
            forall|j: int|
                0 <= j < atts.len() ==> #[trigger] settled_by(
                    events@,
                    *src,
                    *dst,
                    deadline,
                    atts,
                    outcomes@,
                    j,
                ),
            forall|j: int| 0 <= j < atts.len() ==> !expired(deadline, #[trigger] rds[j]),
            forall|j: int|
                0 <= j < atts.len() ==> (#[trigger] atts[j].delivery is Failed <==> old(t).refuses(
                    events@[j],
                    *dst,
                )),
            deadline is None ==> forall|j: int|
                0 <= j < atts.len() ==> !(#[trigger] atts[j].delivery is Cancelled),
            forall|j: int| atts.len() <= j < i ==> #[trigger] outcomes@[j] == skipped(events@[j].id),
        decreases events@.len() - i,
    {
        if !elapsed {
            let now = t.now();
            proof {
                rds = rds.push(now);
            }
            elapsed = is_expired(deadline, now);
        }
        let ghost prev = outcomes@;
        if elapsed {
            outcomes.push(DispatchOutcome::timed_out(events[i].id));
            assert forall|j: int| 0 <= j < atts.len() implies #[trigger] settled_by(
                events@,
                *src,
                *dst,
                deadline,
                atts,
                outcomes@,
                j,
            ) by {
                assert(settled_by(events@, *src, *dst, deadline, atts, prev, j));
                assert(outcomes@[j] == prev[j]);
            }
        } else {
            let d = t.deliver(&events[i], src, dst, deadline);
            let ghost a = Attempt { event: events@[i as int], src: *src, dst: *dst, deadline, delivery: d };
            let ghost old_atts = atts;
            proof {
                atts = atts.push(a);
            }
            outcomes.push(settle(events[i].id, d));
            assert forall|j: int| 0 <= j < atts.len() implies #[trigger] settled_by(
                events@,
                *src,
                *dst,
                deadline,
                atts,
                outcomes@,
                j,
            ) by {
                if j < i {
                    assert(settled_by(events@, *src, *dst, deadline, old_atts, prev, j));
                    assert(outcomes@[j] == prev[j]);
                    assert(atts[j] == old_atts[j]);
                }
            }
            assert forall|j: int| 0 <= j < atts.len() implies (#[trigger] atts[j].delivery is Failed
                <==> old(t).refuses(events@[j], *dst)) by {
                if j < i {
                    assert(atts[j] == old_atts[j]);
                }
            }
        }
        i = i + 1;
    }
    proof {
        assert(t.history().skip(h0.len() as int) =~= atts);
        assert(t.readings().skip(r0.len() as int) =~= rds);
        assert(t.history().take(h0.len() as int) =~= h0);
        assert(t.readings().take(r0.len() as int) =~= r0);
        assert forall|j: int| 0 <= j < events@.len() implies #[trigger] outcomes@[j].event_id
            == events@[j].id by {
            if j < atts.len() {
                assert(settled_by(events@, *src, *dst, deadline, atts, outcomes@, j));
            }
        }
        if deadline is None {
            assert forall|j: int| 0 <= j < events@.len() implies #[trigger] outcomes@[j].status == (
            if old(t).refuses(events@[j], *dst) {
                Status::Failure
            } else {
                Status::Success
            }) by {
                assert(settled_by(events@, *src, *dst, deadline, atts, outcomes@, j));
            }
        }
        if deadline == Some(0u64) && events@.len() > 0 {
            if atts.len() > 0 {
                assert(!expired(deadline, rds[0]));
            }
        }
    }
    BatchResult { outcomes }
}

/// Without a deadline, an event of a batch whose delivery the transport does
/// not refuse succeeds, whatever became of the other events of the batch: one
/// failure keeps no later event from succeeding.
pub proof fn lemma_failure_is_isolated<T: Transport>(
    before: T,
    after: T,
    events: Seq<Event>,
    src: Endpoint,
    dst: Endpoint,
    outcomes: Seq<DispatchOutcome>,
    j: int,
)
    requires
        batch_dispatched(before, after, events, src, dst, None, outcomes),
        0 <= j < events.len(),
    ensures
        !before.refuses(events[j], dst) ==> outcomes[j].status == Status::Success,
        before.refuses(events[j], dst) ==> outcomes[j].status == Status::Failure,
{
    let attempts = after.history().skip(before.history().len() as int);
    let readings = after.readings().skip(before.readings().len() as int);
    if attempts.len() < events.len() {
        assert(expired(None, readings[attempts.len() as int]));
    }
    assert(settled_by(events, src, dst, None, attempts, outcomes, j));
    assert(attempts[j].delivery is Failed <==> before.refuses(events[j], dst));
    assert(!(attempts[j].delivery is Cancelled));
}

/// Why a dispatch by endpoint identifiers could not start.
#[derive(PartialEq, Eq, Structural, Clone, Copy, Debug)]
pub enum DispatchError {
    /// The identifier has no registered address.
    UnknownEndpoint(u64),
}

/// Resolves both endpoints in the registry, then dispatches the batch from the
/// source to the destination. An identifier without a registered address ends
/// the call before the clock is read or any attempt made, the source's first.
pub fn dispatch_many_to<T: Transport>(
    t: &mut T,
    registry: &EndpointRegistry,
    events: &[Event],
    src_id: u64,
    dst_id: u64,
    deadline: Option<u64>,
) -> (r: Result<BatchResult, DispatchError>)
    requires
        registry.wf(),
        old(t).inv(),
    ensures
        !registry@.contains_key(src_id) ==> r == Err::<BatchResult, DispatchError>(
            DispatchError::UnknownEndpoint(src_id),
        ) && *final(t) == *old(t),
        registry@.contains_key(src_id) && !registry@.contains_key(dst_id) ==> r == Err::<
            BatchResult,
            DispatchError,
        >(DispatchError::UnknownEndpoint(dst_id)) && *final(t) == *old(t),
        registry@.contains_key(src_id) && registry@.contains_key(dst_id) ==> (r matches Ok(b)
            && batch_dispatched(
            *old(t),
            *final(t),
            events@,
            registry@[src_id],
            registry@[dst_id],
            deadline,
            b.outcomes@,
        )),
{
    let src = match registry.resolve(src_id) {
        Ok(e) => e,
        Err(_) => return Err(DispatchError::UnknownEndpoint(src_id)),
    };
    let dst = match registry.resolve(dst_id) {
        Ok(e) => e,
        Err(_) => return Err(DispatchError::UnknownEndpoint(dst_id)),
    };
    Ok(dispatch_many(t, events, src, dst, deadline))
}

} // verus!
