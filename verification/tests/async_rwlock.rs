use ruspiro_lock::async_locks::Acquire;
use ruspiro_lock::async_locks::AsyncRWLock;
use std::sync::atomic::AtomicUsize;
use std::sync::atomic::Ordering;
use std::sync::Arc;
use std::task::Wake;
use std::task::Waker;

struct Bell {
    rung: AtomicUsize,
}

impl Wake for Bell {
    fn wake(self: Arc<Self>) {
        self.rung.fetch_add(1, Ordering::SeqCst);
    }
}

fn bell() -> (Arc<Bell>, Waker) {
    let bell = Arc::new(Bell { rung: AtomicUsize::new(0) });
    (bell.clone(), Waker::from(bell))
}

fn rung(bell: &Arc<Bell>) -> usize {
    bell.rung.load(Ordering::SeqCst)
}

#[test]
fn wait_on_rwlock_write() {
    let mut rwlock = AsyncRWLock::new(10_u32);

    // the first task gets write access at once and changes the value
    let guard = rwlock.lock().ready().unwrap();
    *rwlock.get_mut(&guard) = 20;

    // the second task has to wait while the first one keeps the guard
    let request = rwlock.lock().pending().unwrap();
    let (task2, handle) = bell();
    let request = rwlock.poll_write(request, handle).pending().unwrap();

    rwlock.release_write(guard);
    assert_eq!(rung(&task2), 1);
    let (_, handle) = bell();
    let guard = rwlock.poll_write(request, handle).ready().unwrap();
    let value = *rwlock.get(&guard);
    assert_eq!(20, value);
}

#[test]
fn wait_on_rwlock_read() {
    let mut rwlock = AsyncRWLock::new(10_u32);

    let guard = rwlock.lock().ready().unwrap();
    *rwlock.get_mut(&guard) = 20;

    // a reader stays pending until the write guard goes
    let request = rwlock.read().pending().unwrap();
    let (task2, handle) = bell();
    let request = rwlock.poll_read(request, handle).pending().unwrap();
    let (task2_again, handle) = bell();
    let request = rwlock.poll_read(request, handle).pending().unwrap();
    assert_eq!(rwlock.waiting(), 1);

    rwlock.release_write(guard);
    assert_eq!(rung(&task2), 0);
    assert_eq!(rung(&task2_again), 1);
    let (_, handle) = bell();
    let guard = rwlock.poll_read(request, handle).ready().unwrap();
    let value = *rwlock.get_shared(&guard);
    assert_eq!(20, value);
}

#[test]
fn wait_on_rwlock_write_after_read() {
    let mut rwlock = AsyncRWLock::new(10_u32);

    // the first task reads and keeps its guard for a while
    let reader = rwlock.read().ready().unwrap();

    // the second task wants to write and has to wait for the reader
    let request = rwlock.lock().pending().unwrap();
    let (task2, handle) = bell();
    let request = rwlock.poll_write(request, handle).pending().unwrap();

    println!("{}", *rwlock.get_shared(&reader));
    assert_eq!(*rwlock.get_shared(&reader), 10);
    rwlock.release_read(reader);
    assert_eq!(rung(&task2), 1);

    let (_, handle) = bell();
    let writer = rwlock.poll_write(request, handle).ready().unwrap();
    *rwlock.get_mut(&writer) = 20;
    rwlock.release_write(writer);

    let guard = rwlock.read().ready().unwrap();
    assert_eq!(20, *rwlock.get_shared(&guard));
}

#[test]
fn async_rwlock_readers_share() {
    let mut rwlock = AsyncRWLock::new(1u8);
    let mut readers = Vec::new();
    for _ in 0..4 {
        readers.push(rwlock.read().ready().unwrap());
    }
    assert_eq!(rwlock.reader_count(), 4);
    assert!(!rwlock.is_write_locked());
    assert_eq!(rwlock.next_id(), 0);
    for reader in readers.iter() {
        assert_eq!(*rwlock.get_shared(reader), 1);
    }
}

#[test]
fn async_rwlock_write_fast_path_fails_beside_a_reader() {
    let mut rwlock = AsyncRWLock::new(1u8);
    let reader = rwlock.read().ready().unwrap();
    let first = rwlock.lock();
    assert!(first.is_pending());
    let second = rwlock.lock();
    assert!(second.is_pending());
    assert_eq!(first.pending().unwrap().id(), 0);
    assert_eq!(second.pending().unwrap().id(), 1);
    assert!(!rwlock.is_write_locked());
    // readers still get in
    assert!(rwlock.read().is_ready());
    assert_eq!(rwlock.reader_count(), 2);
    assert_eq!(rwlock.release_read(reader), None);
}

#[test]
fn async_rwlock_writer_excludes_readers_and_writers() {
    let mut rwlock = AsyncRWLock::new(1u8);
    let writer = rwlock.lock().ready().unwrap();
    assert!(rwlock.is_write_locked());
    let write_request = rwlock.lock().pending().unwrap();
    let read_request = rwlock.read().pending().unwrap();
    // write and read requests draw their ids from one sequence
    assert_eq!(write_request.id(), 0);
    assert_eq!(read_request.id(), 1);
    let (_, handle) = bell();
    let write_request = rwlock.poll_write(write_request, handle).pending().unwrap();
    let (_, handle) = bell();
    let read_request = rwlock.poll_read(read_request, handle).pending().unwrap();
    assert_eq!(rwlock.reader_count(), 0);
    assert_eq!(rwlock.waiting(), 2);

    // the release wakes the smaller id, whatever it waits for
    assert_eq!(rwlock.release_write(writer), Some(write_request.id()));
    assert!(rwlock.is_waiting(read_request.id()));
}

#[test]
fn async_rwlock_woken_reader_loses_against_a_writer_and_waits_again() {
    let mut rwlock = AsyncRWLock::new(1u8);
    let writer = rwlock.lock().ready().unwrap();
    let request = rwlock.read().pending().unwrap();
    let (first_bell, handle) = bell();
    let request = rwlock.poll_read(request, handle).pending().unwrap();
    assert_eq!(rwlock.release_write(writer), Some(request.id()));

    let other_writer = rwlock.lock().ready().unwrap();
    let (second_bell, handle) = bell();
    let request = rwlock.poll_read(request, handle).pending().unwrap();
    assert_eq!(rwlock.release_write(other_writer), Some(request.id()));
    assert_eq!(rung(&first_bell), 1);
    assert_eq!(rung(&second_bell), 1);
    let (_, handle) = bell();
    assert!(rwlock.poll_read(request, handle).is_ready());
    assert_eq!(rwlock.reader_count(), 1);
}

#[test]
fn async_rwlock_cancelled_requests_swallow_no_wake() {
    let mut rwlock = AsyncRWLock::new(1u8);
    let writer = rwlock.lock().ready().unwrap();
    let gone_write = rwlock.lock().pending().unwrap();
    let gone_read = rwlock.read().pending().unwrap();
    let stays = rwlock.read().pending().unwrap();
    let (bell_w, handle) = bell();
    let gone_write = rwlock.poll_write(gone_write, handle).pending().unwrap();
    let (bell_r, handle) = bell();
    let gone_read = rwlock.poll_read(gone_read, handle).pending().unwrap();
    let (bell_s, handle) = bell();
    let stays = rwlock.poll_read(stays, handle).pending().unwrap();

    rwlock.cancel_write(gone_write);
    rwlock.cancel_read(gone_read);
    assert_eq!(rwlock.waiting(), 1);
    assert_eq!(rwlock.release_write(writer), Some(stays.id()));
    assert_eq!((rung(&bell_w), rung(&bell_r), rung(&bell_s)), (0, 0, 1));
}

#[test]
fn async_rwlock_last_reader_out_lets_the_writer_in() {
    let mut rwlock = AsyncRWLock::new(5u32);
    let one = rwlock.read().ready().unwrap();
    let two = rwlock.read().ready().unwrap();
    let request = rwlock.lock().pending().unwrap();
    let (task, handle) = bell();
    let request = rwlock.poll_write(request, handle).pending().unwrap();

    // the first reader out wakes the writer, who still finds a reader
    assert_eq!(rwlock.release_read(one), Some(request.id()));
    assert_eq!(rung(&task), 1);
    let (task_again, handle) = bell();
    let request = match rwlock.poll_write(request, handle) {
        Acquire::Ready(_) => panic!("write access beside a reader"),
        Acquire::Pending(request) => request,
    };
    assert_eq!(rwlock.release_read(two), Some(request.id()));
    assert_eq!(rung(&task_again), 1);
    let (_, handle) = bell();
    let writer = rwlock.poll_write(request, handle).ready().unwrap();
    assert_eq!(rwlock.reader_count(), 0);
    assert!(rwlock.is_write_locked());
    *rwlock.get_mut(&writer) += 1;
    assert_eq!(*rwlock.get(&writer), 6);
}
