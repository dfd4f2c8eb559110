use ruspiro_lock::async_locks::AsyncSemaphore;
use std::sync::atomic::AtomicUsize;
use std::sync::atomic::Ordering;
use std::sync::Arc;
use std::task::Wake;
use std::task::Waker;

struct Bell {
    rung: AtomicUsize,
}

impl Wake for Bell {
    fn wake(self: Arc<Self>) {
        self.rung.fetch_add(1, Ordering::SeqCst);
    }
}

fn bell() -> (Arc<Bell>, Waker) {
    let bell = Arc::new(Bell { rung: AtomicUsize::new(0) });
    (bell.clone(), Waker::from(bell))
}

fn rung(bell: &Arc<Bell>) -> usize {
    bell.rung.load(Ordering::SeqCst)
}

#[test]
fn async_semaphore_second_task_waits_for_the_permit() {
    let mut sema = AsyncSemaphore::new(1);

    // task A gets the permit at once
    assert!(sema.down().is_ready());
    assert_eq!(sema.available(), 0);

    // task B has to wait
    let request = sema.down().pending().unwrap();
    let (task_b, handle) = bell();
    let request = sema.poll(request, handle).pending().unwrap();
    assert!(sema.is_waiting(request.id()));

    // task A gives the permit back, which wakes task B
    assert_eq!(sema.up(), Some(request.id()));
    assert_eq!(rung(&task_b), 1);
    assert_eq!(sema.available(), 1);

    // task B gets it with its next poll
    let (_, handle) = bell();
    assert!(sema.poll(request, handle).is_ready());
    assert_eq!(sema.available(), 0);
    assert_eq!(sema.waiting(), 0);
}

#[test]
fn async_semaphore_round_trip_restores_the_count() {
    let mut sema = AsyncSemaphore::new(5);
    for left in [4u32, 3, 2] {
        assert!(sema.down().is_ready());
        assert_eq!(sema.available(), left);
    }
    for there in [3u32, 4, 5] {
        assert_eq!(sema.up(), None);
        assert_eq!(sema.available(), there);
    }
    assert_eq!(sema.next_id(), 0);
}

#[test]
fn async_semaphore_round_trip_down_to_zero() {
    let mut sema = AsyncSemaphore::new(3);
    for _ in 0..3 {
        assert!(sema.down().is_ready());
    }
    assert_eq!(sema.available(), 0);
    assert!(sema.down().is_pending());
    for _ in 0..3 {
        sema.up();
    }
    assert_eq!(sema.available(), 3);
}

#[test]
fn async_semaphore_without_permits_makes_everybody_wait() {
    let mut sema = AsyncSemaphore::new(0);
    let first = sema.down().pending().unwrap();
    let second = sema.down().pending().unwrap();
    assert_eq!(first.id(), 0);
    assert_eq!(second.id(), 1);
    assert_eq!(sema.available(), 0);
    // nobody has polled yet, so nobody is registered
    assert_eq!(sema.waiting(), 0);
    assert_eq!(sema.up(), None);
    let (_, handle) = bell();
    assert!(sema.poll(second, handle).is_ready());
    let (_, handle) = bell();
    assert!(sema.poll(first, handle).is_pending());
}

#[test]
fn async_semaphore_unmatched_ups_add_permits() {
    let mut sema = AsyncSemaphore::new(1);
    sema.up();
    sema.up();
    assert_eq!(sema.available(), 3);
    for _ in 0..3 {
        assert!(sema.down().is_ready());
    }
    assert!(sema.down().is_pending());
}

#[test]
fn async_semaphore_each_up_wakes_one_waiter_in_id_order() {
    let mut sema = AsyncSemaphore::new(0);
    let r1 = sema.down().pending().unwrap();
    let r2 = sema.down().pending().unwrap();
    let r3 = sema.down().pending().unwrap();
    let (b1, h1) = bell();
    let (b2, h2) = bell();
    let (b3, h3) = bell();
    let r2 = sema.poll(r2, h2).pending().unwrap();
    let r3 = sema.poll(r3, h3).pending().unwrap();
    let r1 = sema.poll(r1, h1).pending().unwrap();

    assert_eq!(sema.up(), Some(r1.id()));
    assert_eq!((rung(&b1), rung(&b2), rung(&b3)), (1, 0, 0));
    assert_eq!(sema.up(), Some(r2.id()));
    assert_eq!((rung(&b1), rung(&b2), rung(&b3)), (1, 1, 0));
    assert_eq!(sema.up(), Some(r3.id()));
    assert_eq!((rung(&b1), rung(&b2), rung(&b3)), (1, 1, 1));
    assert_eq!(sema.up(), None);
    assert_eq!(sema.available(), 4);
}

#[test]
fn async_semaphore_cancelled_request_swallows_no_wake() {
    let mut sema = AsyncSemaphore::new(0);
    let gone = sema.down().pending().unwrap();
    let stays = sema.down().pending().unwrap();
    let (gone_bell, handle) = bell();
    let gone = sema.poll(gone, handle).pending().unwrap();
    let (stays_bell, handle) = bell();
    let stays = sema.poll(stays, handle).pending().unwrap();
    sema.cancel(gone);
    assert_eq!(sema.waiting(), 1);
    assert_eq!(sema.up(), Some(stays.id()));
    assert_eq!(rung(&gone_bell), 0);
    assert_eq!(rung(&stays_bell), 1);
    assert_eq!(sema.available(), 1);
}

#[test]
fn async_semaphore_up_reaches_the_largest_count() {
    let mut sema = AsyncSemaphore::new(u32::MAX - 1);
    assert_eq!(sema.up(), None);
    assert_eq!(sema.available(), u32::MAX);
}
