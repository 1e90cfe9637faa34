use priority_async_mutex::event_listener::PriorityEventListener;
use priority_async_mutex::waiter::served_before;
use priority_async_mutex::waiter::WaitQueue;
use priority_async_mutex::waiter::Waiter;

fn send(s: oneshot::Sender<()>) -> bool {
    s.send(()).is_ok()
}

fn drain(q: &mut WaitQueue<u32>) -> Vec<(u32, u32)> {
    let mut out = Vec::new();
    while let Some(w) = q.pop() {
        out.push((w.priority, w.signal));
    }
    out
}

#[test]
fn pop_on_empty_queue_is_none() {
    let mut q: WaitQueue<u32> = WaitQueue::new();
    assert!(q.is_empty());
    assert!(q.pop().is_none());
    assert_eq!(q.len(), 0);
}

#[test]
fn pops_lowest_priority_first() {
    let mut q = WaitQueue::new();
    q.push(5, 50);
    q.push(1, 10);
    q.push(3, 30);
    q.push(u32::MAX, 99);
    q.push(0, 0);
    assert_eq!(q.len(), 5);
    let out = drain(&mut q);
    assert_eq!(out, vec![(0, 0), (1, 10), (3, 30), (5, 50), (u32::MAX, 99)]);
    assert!(q.is_empty());
}

#[test]
fn equal_priorities_all_leave_before_higher_ones() {
    let mut q = WaitQueue::new();
    q.push(7, 1);
    q.push(2, 2);
    q.push(7, 3);
    q.push(2, 4);
    let out = drain(&mut q);
    let prios: Vec<u32> = out.iter().map(|p| p.0).collect();
    assert_eq!(prios, vec![2, 2, 7, 7]);
    let mut first_two: Vec<u32> = out[..2].iter().map(|p| p.1).collect();
    first_two.sort();
    assert_eq!(first_two, vec![2, 4]);
}

#[test]
fn arrivals_between_pops_are_ordered_for_the_next_pop() {
    let mut q = WaitQueue::new();
    q.push(10, 0);
    q.push(20, 1);
    assert_eq!(q.pop().map(|w| w.priority), Some(10));
    q.push(15, 2);
    assert_eq!(q.pop().map(|w| w.priority), Some(15));
    assert_eq!(q.pop().map(|w| w.priority), Some(20));
    assert!(q.pop().is_none());
}

#[test]
fn served_before_compares_priorities() {
    let a = Waiter { priority: 1, signal: () };
    let b = Waiter { priority: 2, signal: () };
    let c = Waiter { priority: 2, signal: () };
    assert!(served_before(&a, &b));
    assert!(!served_before(&b, &a));
    assert!(!served_before(&b, &c));
}

#[test]
fn release_one_wakes_lowest_live_waiter() {
    let mut q = WaitQueue::new();
    let (s1, r1) = oneshot::channel::<()>();
    let (s2, r2) = oneshot::channel::<()>();
    let (s3, r3) = oneshot::channel::<()>();
    q.push(30, s3);
    q.push(10, s1);
    q.push(20, s2);
    assert_eq!(q.release_one(send), Some(10));
    assert!(r1.try_recv().is_ok());
    assert!(r2.try_recv().is_err());
    assert!(r3.try_recv().is_err());
    assert_eq!(q.len(), 2);
    assert_eq!(q.release_one(send), Some(20));
    assert!(r2.try_recv().is_ok());
    assert_eq!(q.len(), 1);
}

#[test]
fn release_one_skips_abandoned_waiters() {
    let mut q = WaitQueue::new();
    let (s1, r1) = oneshot::channel::<()>();
    let (s2, r2) = oneshot::channel::<()>();
    let (s3, r3) = oneshot::channel::<()>();
    q.push(1, s1);
    q.push(2, s2);
    q.push(3, s3);
    drop(r1);
    drop(r2);
    assert_eq!(q.release_one(send), Some(3));
    assert!(r3.try_recv().is_ok());
    assert_eq!(q.len(), 0);
}

#[test]
fn release_one_with_only_abandoned_waiters_is_a_no_op() {
    let mut q = WaitQueue::new();
    let (s1, r1) = oneshot::channel::<()>();
    let (s2, r2) = oneshot::channel::<()>();
    q.push(4, s1);
    q.push(4, s2);
    drop(r1);
    drop(r2);
    assert_eq!(q.release_one(send), None);
    assert_eq!(q.len(), 0);
    assert_eq!(q.release_one(send), None);
}

#[test]
fn release_one_on_empty_queue_is_a_no_op() {
    let mut q: WaitQueue<oneshot::Sender<()>> = WaitQueue::new();
    assert_eq!(q.release_one(send), None);
    assert!(q.is_empty());
}

#[test]
fn successive_releases_wake_in_priority_order() {
    let mut q = WaitQueue::new();
    let mut live = Vec::new();
    for (i, p) in [40u32, 10, 30, 10, 20, 50].iter().enumerate() {
        let (s, r) = oneshot::channel::<()>();
        q.push(*p, s);
        if i % 3 == 1 {
            drop(r);
        } else {
            live.push(r);
        }
    }
    let mut woken = Vec::new();
    while let Some(p) = q.release_one(send) {
        woken.push(p);
    }
    assert_eq!(woken, vec![10, 30, 40, 50]);
    assert!(q.is_empty());
    for r in live {
        assert!(r.try_recv().is_ok());
    }
}

#[test]
fn listener_notifies_in_priority_order() {
    let l = PriorityEventListener::new();
    let high = l.listen(9).into_receiver();
    let low = l.listen(3).into_receiver();
    let mid = l.listen(5).into_receiver();
    assert_eq!(l.pending(), 3);
    l.notify_one();
    assert!(low.try_recv().is_ok());
    assert!(mid.try_recv().is_err());
    l.notify_one();
    assert!(mid.try_recv().is_ok());
    assert!(high.try_recv().is_err());
    assert_eq!(l.pending(), 1);
    l.notify_one();
    assert!(high.try_recv().is_ok());
    assert_eq!(l.pending(), 0);
    l.notify_one();
    assert_eq!(l.pending(), 0);
}

#[test]
fn listener_skips_abandoned_events() {
    let l = PriorityEventListener::new();
    let gone = l.listen(0);
    let live = l.listen(8).into_receiver();
    drop(gone);
    l.notify_one();
    assert!(live.try_recv().is_ok());
    assert_eq!(l.pending(), 0);
}

#[test]
fn release_one_passes_over_undelivered_signals_only() {
    let mut q = WaitQueue::new();
    q.push(4, 104u32);
    q.push(1, 101);
    q.push(3, 103);
    q.push(2, 102);
    let tried = std::cell::RefCell::new(Vec::new());
    let woken = q.release_one(|s: u32| {
        tried.borrow_mut().push(s);
        s == 103 || s == 104
    });
    assert_eq!(woken, Some(3));
    assert_eq!(*tried.borrow(), vec![101, 102, 103]);
    assert_eq!(q.len(), 1);
    assert_eq!(q.pop().map(|w| w.signal), Some(104));
}

#[test]
fn release_one_with_no_delivery_empties_the_queue() {
    let mut q = WaitQueue::new();
    q.push(2, 0u8);
    q.push(1, 0u8);
    let calls = std::cell::Cell::new(0u32);
    let woken = q.release_one(|_s: u8| {
        calls.set(calls.get() + 1);
        false
    });
    assert_eq!(woken, None);
    assert_eq!(calls.get(), 2);
    assert!(q.is_empty());
}

#[test]
fn listener_wakes_three_waiters_in_priority_order() {
    let l = PriorityEventListener::new();
    let e5 = l.listen(5);
    let e3 = l.listen(3);
    let e9 = l.listen(9);
    assert_eq!((e5.priority(), e3.priority(), e9.priority()), (5, 3, 9));
    let (r5, r3, r9) = (e5.into_receiver(), e3.into_receiver(), e9.into_receiver());
    l.notify_one();
    assert!(r3.try_recv().is_ok());
    assert!(r5.try_recv().is_err() && r9.try_recv().is_err());
    l.notify_one();
    assert!(r5.try_recv().is_ok());
    assert!(r9.try_recv().is_err());
    l.notify_one();
    assert!(r9.try_recv().is_ok());
    assert_eq!(l.pending(), 0);
    l.notify_one();
    assert_eq!(l.pending(), 0);
}

#[test]
fn listener_skips_a_dropped_lower_waiter() {
    let l = PriorityEventListener::new();
    let e1 = l.listen(1);
    drop(e1);
    let e7 = l.listen(7).into_receiver();
    l.notify_one();
    assert!(e7.try_recv().is_ok());
    assert_eq!(l.pending(), 0);
}

#[test]
fn equal_priorities_wake_exactly_one_per_release() {
    let l = PriorityEventListener::new();
    let a = l.listen(6).into_receiver();
    let b = l.listen(6).into_receiver();
    l.notify_one();
    let woken = [a.try_recv().is_ok(), b.try_recv().is_ok()];
    assert_eq!(woken.iter().filter(|x| **x).count(), 1);
    assert_eq!(l.pending(), 1);
}
