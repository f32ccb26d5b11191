use vstd::prelude::*;
use crate::engine::{Attempt, Delivery, Transport};
use crate::event::Event;
use crate::registry::Endpoint;

verus! {

/// A transport that delivers in memory, for tests and demonstrations. Its clock
/// starts where it is told and advances by a fixed cost per delivery; the events
/// it is told are unreachable fail.
pub struct MemoryTransport {
    clock: u64,
    cost: u64,
    unreachable: Vec<u64>,
    delivered: Vec<u64>,
    log: Ghost<Seq<Attempt>>,
    clock_log: Ghost<Seq<u64>>,
}

/// The ids of the events that the attempts in `h` delivered, in order.
pub open spec fn delivered_of(h: Seq<Attempt>) -> Seq<u64>
    decreases h.len(),
{
    if h.len() == 0 {
        Seq::empty()
    } else if h.last().delivery is Delivered {
        delivered_of(h.drop_last()).push(h.last().event.id)
    } else {
        delivered_of(h.drop_last())
    }
}

fn holds(ids: &Vec<u64>, id: u64) -> (r: bool)
    ensures
        r == ids@.contains(id),
{
    let mut i: usize = 0;
    while i < ids.len()
        invariant
            i <= ids@.len(),
            forall|j: int| 0 <= j < i ==> ids@[j] != id,
        decreases ids@.len() - i,
    {
        if ids[i] == id {
            return true;
        }
        i = i + 1;
    }
    false
}

impl MemoryTransport {
    /// A transport whose clock reads `start`, whose deliveries take `cost` ticks,
    /// and whose deliveries of the events in `unreachable` fail, as if their
    /// destination could not be reached.
    pub fn new(start: u64, cost: u64, unreachable: Vec<u64>) -> (r: MemoryTransport)
        ensures
            r.inv(),
            r.clock() == start,
            r.cost() == cost,
            r.unreachable() == unreachable@,
            r.delivered() == Seq::<u64>::empty(),
            r.history() == Seq::<Attempt>::empty(),
            r.readings() == Seq::<u64>::empty(),
            forall|e: Event, d: Endpoint| #[trigger] r.refuses(e, d) == unreachable@.contains(e.id),
    {
        MemoryTransport {
            clock: start,
            cost,
            unreachable,
            delivered: Vec::new(),
            log: Ghost(Seq::empty()),
            clock_log: Ghost(Seq::empty()),
        }
    }

    pub closed spec fn clock(&self) -> u64 {
        self.clock
    }

    pub closed spec fn cost(&self) -> u64 {
        self.cost
    }

    /// The ids of the events whose delivery is made to fail.
    pub closed spec fn unreachable(&self) -> Seq<u64> {
        self.unreachable@
    }

    /// The ids of the events delivered so far, in order.
    pub closed spec fn delivered(&self) -> Seq<u64> {
        self.delivered@
    }

    pub fn delivered_ids(&self) -> (r: &Vec<u64>)
        requires
            self.inv(),
        ensures
            r@ == self.delivered(),
            r@ == delivered_of(self.history()),
    {
        &self.delivered
    }

    pub fn current_time(&self) -> (r: u64)
        ensures
            r == self.clock(),
    {
        self.clock
    }
}

impl Transport for MemoryTransport {
    closed spec fn history(&self) -> Seq<Attempt> {
        self.log@
    }

    closed spec fn readings(&self) -> Seq<u64> {
        self.clock_log@
    }

    /// The events marked unreachable, whatever their destination.
    closed spec fn refuses(&self, event: Event, dst: Endpoint) -> bool {
        self.unreachable@.contains(event.id)
    }

    /// The delivered events are those of the attempts that delivered.
    closed spec fn inv(&self) -> bool {
        self.delivered@ == delivered_of(self.log@)
    }

    fn now(&mut self) -> (r: u64) {
        self.clock_log = Ghost(self.clock_log@.push(self.clock));
        self.clock
    }

    /// Fails an unreachable event at once. Otherwise the delivery finishes
    /// `cost` ticks later, unless that is past the deadline: then it is
    /// cancelled and the clock stops at the deadline.
    fn deliver(&mut self, event: &Event, src: &Endpoint, dst: &Endpoint, deadline: Option<u64>) -> (r:
        Delivery) {
        let r = if holds(&self.unreachable, event.id) {
            Delivery::Failed("destination unreachable".to_owned())
        } else {
            let finish = if self.clock <= u64::MAX - self.cost {
                self.clock + self.cost
            } else {
                u64::MAX
            };
            match deadline {
                Some(d) if finish > d => {
                    if d > self.clock {
                        self.clock = d;
                    }
                    Delivery::Cancelled
                },
                _ => {
                    self.clock = finish;
                    self.delivered.push(event.id);
                    Delivery::Delivered
                },
            }
        };
        let ghost before = self.log@;
        self.log = Ghost(
            self.log@.push((Attempt { event: *event, src: *src, dst: *dst, deadline, delivery: r })),
        );
        assert(self.log@.drop_last() == before);
        r
    }
}

} // verus!
