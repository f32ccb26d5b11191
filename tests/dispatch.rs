use event_dispatch::engine::{
    dispatch_many, dispatch_many_to, dispatch_one, is_expired, settle, Delivery, DispatchError,
    Transport,
};
use event_dispatch::event::Event;
use event_dispatch::memory::MemoryTransport;
use event_dispatch::outcome::{BatchResult, DispatchOutcome, Status, Summary};
use event_dispatch::registry::{Endpoint, EndpointRegistry};

fn endpoints() -> (Endpoint, Endpoint) {
    (Endpoint::new("A".to_string(), 1), Endpoint::new("B".to_string(), 2))
}

fn events(ids: &[u64]) -> Vec<Event> {
    ids.iter().map(|&id| Event::new(id)).collect()
}

fn statuses(r: &BatchResult) -> Vec<Status> {
    r.outcomes.iter().map(|o| o.status).collect()
}

fn ids(r: &BatchResult) -> Vec<u64> {
    r.outcomes.iter().map(|o| o.event_id).collect()
}

#[test]
fn three_events_without_deadline_all_succeed() {
    let (src, dst) = endpoints();
    let mut t = MemoryTransport::new(0, 1, Vec::new());
    let r = dispatch_many(&mut t, &events(&[1, 2, 3]), &src, &dst, None);
    assert_eq!(ids(&r), vec![1, 2, 3]);
    assert_eq!(statuses(&r), vec![Status::Success; 3]);
    assert!(r.outcomes.iter().all(|o| o.detail.is_none()));
    assert_eq!(
        r.summarize(),
        Summary { success_count: 3, failure_count: 0, timeout_count: 0 }
    );
    assert_eq!(t.delivered_ids(), &vec![1, 2, 3]);
}

#[test]
fn batch_length_matches_input() {
    let (src, dst) = endpoints();
    for n in 1..8u64 {
        let input: Vec<u64> = (0..n).collect();
        let mut t = MemoryTransport::new(0, 3, vec![2]);
        let r = dispatch_many(&mut t, &events(&input), &src, &dst, Some(9));
        assert_eq!(r.len(), n as usize);
        assert_eq!(r.outcomes.len(), n as usize);
    }
}

#[test]
fn empty_batch_gives_no_outcomes() {
    let (src, dst) = endpoints();
    let mut t = MemoryTransport::new(0, 1, Vec::new());
    let r = dispatch_many(&mut t, &[], &src, &dst, None);
    assert_eq!(r.len(), 0);
    assert_eq!(
        r.summarize(),
        Summary { success_count: 0, failure_count: 0, timeout_count: 0 }
    );
}

#[test]
fn outcomes_follow_input_order() {
    let (src, dst) = endpoints();
    let mut t = MemoryTransport::new(0, 1, vec![7]);
    let r = dispatch_many(&mut t, &events(&[9, 7, 3, 5]), &src, &dst, None);
    assert_eq!(ids(&r), vec![9, 7, 3, 5]);
    assert_eq!(
        statuses(&r),
        vec![Status::Success, Status::Failure, Status::Success, Status::Success]
    );
    assert_eq!(t.delivered_ids(), &vec![9, 3, 5]);
}

#[test]
fn elapsed_deadline_times_out_everything_without_attempts() {
    let (src, dst) = endpoints();
    let mut t = MemoryTransport::new(0, 1, Vec::new());
    let r = dispatch_many(&mut t, &events(&[1, 2, 3]), &src, &dst, Some(0));
    assert_eq!(ids(&r), vec![1, 2, 3]);
    assert_eq!(statuses(&r), vec![Status::TimedOut; 3]);
    assert!(t.delivered_ids().is_empty());
    assert_eq!(t.current_time(), 0);
    assert_eq!(
        r.summarize(),
        Summary { success_count: 0, failure_count: 0, timeout_count: 3 }
    );
}

#[test]
fn deadline_already_behind_the_clock_times_out_everything() {
    let (src, dst) = endpoints();
    let mut t = MemoryTransport::new(50, 1, Vec::new());
    let r = dispatch_many(&mut t, &events(&[4, 5]), &src, &dst, Some(40));
    assert_eq!(statuses(&r), vec![Status::TimedOut; 2]);
    assert!(t.delivered_ids().is_empty());
}

#[test]
fn one_failure_does_not_stop_the_batch() {
    let (src, dst) = endpoints();
    let mut t = MemoryTransport::new(0, 1, vec![1]);
    let r = dispatch_many(&mut t, &events(&[1, 2, 3]), &src, &dst, None);
    assert_eq!(
        statuses(&r),
        vec![Status::Failure, Status::Success, Status::Success]
    );
    assert_eq!(
        r.outcomes[0].detail,
        Some("destination unreachable".to_string())
    );
    assert_eq!(
        r.summarize(),
        Summary { success_count: 2, failure_count: 1, timeout_count: 0 }
    );
}

#[test]
fn deadline_reached_mid_batch() {
    let (src, dst) = endpoints();
    // deliveries take 10 ticks: 1 ends at 10, 2 at 20, 3 would end at 30 > 25
    let mut t = MemoryTransport::new(0, 10, Vec::new());
    let r = dispatch_many(&mut t, &events(&[1, 2, 3, 4]), &src, &dst, Some(25));
    assert_eq!(ids(&r), vec![1, 2, 3, 4]);
    assert_eq!(
        statuses(&r),
        vec![Status::Success, Status::Success, Status::TimedOut, Status::TimedOut]
    );
    assert_eq!(t.delivered_ids(), &vec![1, 2]);
    assert_eq!(t.current_time(), 25);
    assert_eq!(
        r.summarize(),
        Summary { success_count: 2, failure_count: 0, timeout_count: 2 }
    );
}

#[test]
fn delivery_finishing_at_deadline_succeeds() {
    let (src, dst) = endpoints();
    let mut t = MemoryTransport::new(0, 10, Vec::new());
    let r = dispatch_many(&mut t, &events(&[1, 2]), &src, &dst, Some(20));
    assert_eq!(statuses(&r), vec![Status::Success, Status::Success]);
}

#[test]
fn summary_counts_add_up() {
    let (src, dst) = endpoints();
    let mut t = MemoryTransport::new(0, 5, vec![2, 4]);
    let r = dispatch_many(&mut t, &events(&[1, 2, 3, 4, 5, 6, 7]), &src, &dst, Some(12));
    let s = r.summarize();
    assert_eq!(s.success_count + s.failure_count + s.timeout_count, r.len());
    // 1 at 5, 2 fails, 3 at 10, 4 fails, 5 cancelled at 12, 6 and 7 skipped
    assert_eq!(
        s,
        Summary { success_count: 2, failure_count: 2, timeout_count: 3 }
    );
}

#[test]
fn dispatch_one_outcomes() {
    let (src, dst) = endpoints();
    let mut t = MemoryTransport::new(0, 4, vec![8]);
    let ok = dispatch_one(&mut t, &Event::new(7), &src, &dst, None);
    assert_eq!((ok.status, ok.event_id), (Status::Success, 7));
    let failed = dispatch_one(&mut t, &Event::new(8), &src, &dst, None);
    assert_eq!((failed.status, failed.event_id), (Status::Failure, 8));
    assert_eq!(failed.detail, Some("destination unreachable".to_string()));
    let cancelled = dispatch_one(&mut t, &Event::new(9), &src, &dst, Some(6));
    assert_eq!((cancelled.status, cancelled.event_id), (Status::TimedOut, 9));
    assert_eq!(t.current_time(), 6);
    let skipped = dispatch_one(&mut t, &Event::with_payload(10, vec![1, 2]), &src, &dst, Some(0));
    assert_eq!((skipped.status, skipped.event_id), (Status::TimedOut, 10));
    assert_eq!(t.delivered_ids(), &vec![7]);
}

#[test]
fn expiry_rule() {
    assert!(!is_expired(None, u64::MAX));
    assert!(is_expired(Some(0), 0));
    assert!(is_expired(Some(5), 5));
    assert!(is_expired(Some(5), 6));
    assert!(!is_expired(Some(5), 4));
}

#[test]
fn settle_maps_each_delivery() {
    let a = settle(3, Delivery::Delivered);
    assert!(a.is_success());
    assert_eq!((a.status, a.event_id, a.detail), (Status::Success, 3, None));
    let b = settle(4, Delivery::Failed("refused".to_string()));
    assert_eq!(
        (b.status, b.event_id, b.detail),
        (Status::Failure, 4, Some("refused".to_string()))
    );
    let c = settle(5, Delivery::Cancelled);
    assert_eq!((c.status, c.event_id, c.detail), (Status::TimedOut, 5, None));
    let d = DispatchOutcome::timed_out(6);
    assert!(!d.is_success());
}

#[test]
fn memory_transport_clock() {
    let mut t = MemoryTransport::new(u64::MAX - 1, 5, Vec::new());
    assert_eq!(t.now(), u64::MAX - 1);
    let (src, dst) = endpoints();
    let r = t.deliver(&Event::new(1), &src, &dst, None);
    assert!(matches!(r, Delivery::Delivered));
    assert_eq!(t.now(), u64::MAX);
}

#[test]
fn dispatch_by_registered_identifiers() {
    let mut reg = EndpointRegistry::new();
    reg.register(10, Endpoint::new("A".to_string(), 1)).unwrap();
    reg.register(20, Endpoint::new("B".to_string(), 2)).unwrap();
    let mut t = MemoryTransport::new(0, 1, Vec::new());
    let r = dispatch_many_to(&mut t, &reg, &events(&[1, 2, 3]), 10, 20, None).unwrap();
    assert_eq!(statuses(&r), vec![Status::Success; 3]);
    let e = dispatch_many_to(&mut t, &reg, &events(&[4]), 11, 20, None);
    assert_eq!(e.err(), Some(DispatchError::UnknownEndpoint(11)));
    let e = dispatch_many_to(&mut t, &reg, &events(&[4]), 10, 21, None);
    assert_eq!(e.err(), Some(DispatchError::UnknownEndpoint(21)));
    let e = dispatch_many_to(&mut t, &reg, &events(&[4]), 12, 21, None);
    assert_eq!(e.err(), Some(DispatchError::UnknownEndpoint(12)));
    assert_eq!(t.delivered_ids(), &vec![1, 2, 3]);
}

#[test]
fn distant_deadline_matches_no_deadline() {
    let (src, dst) = endpoints();
    let input = events(&[1, 2, 3, 4]);
    let mut a = MemoryTransport::new(0, 2, vec![3]);
    let mut b = MemoryTransport::new(0, 2, vec![3]);
    let without = dispatch_many(&mut a, &input, &src, &dst, None);
    let with = dispatch_many(&mut b, &input, &src, &dst, Some(1000));
    assert_eq!(ids(&without), ids(&with));
    assert_eq!(statuses(&without), statuses(&with));
    assert_eq!(
        statuses(&with),
        vec![Status::Success, Status::Success, Status::Failure, Status::Success]
    );
    let one = dispatch_one(&mut b, &Event::new(5), &src, &dst, Some(1000));
    assert_eq!((one.status, one.event_id), (Status::Success, 5));
}
