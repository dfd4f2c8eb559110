use ruspiro_lock::sync::Mutex;
use ruspiro_lock::sync::Semaphore;
use ruspiro_lock::sync::Spinlock;

#[test]
fn mutex_second_lock_fails_while_guard_is_out() {
    let mut mutex = Mutex::new(0u32);
    let data = mutex.try_lock().unwrap();
    *mutex.get_mut(&data) = 20;
    assert!(mutex.is_locked());
    assert!(mutex.try_lock().is_none());
    assert!(mutex.is_locked());
    mutex.unlock(data);
    assert!(!mutex.is_locked());
    let data = mutex.try_lock().unwrap();
    assert_eq!(*mutex.get(&data), 20);
}

#[test]
fn mutex_blocking_lock_takes_a_free_lock() {
    let mut mutex = Mutex::new(10u32);
    assert!(!mutex.is_locked());
    let data = mutex.lock();
    assert!(mutex.is_locked());
    *mutex.get_mut(&data) = 12;
    mutex.unlock(data);
    assert_eq!(mutex.into_inner(), 12);
}

#[test]
fn mutex_into_inner_returns_the_value() {
    let mutex = Mutex::new(vec![1u8, 2, 3]);
    assert_eq!(mutex.into_inner(), vec![1u8, 2, 3]);
}

#[test]
fn mutex_unlock_of_a_free_lock_leaves_it_free() {
    let mut first = Mutex::new(1u8);
    let mut second = Mutex::new(2u8);
    let guard = first.lock();
    second.unlock(guard);
    assert!(!second.is_locked());
    assert!(first.is_locked());
    assert_eq!(second.into_inner(), 2);
}

#[test]
fn semaphore_counts_down_to_zero_and_no_further() {
    let mut sema = Semaphore::new(2);
    assert_eq!(sema.available(), 2);
    assert!(sema.try_down().is_ok());
    assert!(sema.try_down().is_ok());
    assert_eq!(sema.available(), 0);
    assert!(sema.try_down().is_err());
    assert_eq!(sema.available(), 0);
    sema.up();
    assert_eq!(sema.available(), 1);
    sema.down();
    assert_eq!(sema.available(), 0);
}

#[test]
fn semaphore_default_has_no_permit() {
    let mut sema = Semaphore::default();
    assert_eq!(sema.available(), 0);
    assert!(sema.try_down().is_err());
}

#[test]
fn semaphore_up_reaches_the_largest_count() {
    let mut sema = Semaphore::new(u32::MAX - 1);
    sema.up();
    assert_eq!(sema.available(), u32::MAX);
}

#[test]
fn spinlock_is_taken_and_released() {
    let mut spin = Spinlock::new();
    assert!(!spin.is_held());
    spin.aquire();
    assert!(spin.is_held());
    spin.release();
    assert!(!spin.is_held());
    spin.release();
    assert!(!spin.is_held());
}

#[test]
fn root_reexports_name_the_sync_types() {
    let mut mutex = ruspiro_lock::Mutex::new(1u8);
    let guard: ruspiro_lock::MutexGuard = mutex.lock();
    mutex.unlock(guard);
    let mut rwlock = ruspiro_lock::RWLock::new(1u8);
    let reader: ruspiro_lock::ReadLockGuard = rwlock.read();
    rwlock.release_read(reader);
    let writer: ruspiro_lock::WriteLockGuard = rwlock.write();
    rwlock.release_write(writer);
    let spin = ruspiro_lock::Spinlock::new();
    assert!(!spin.is_held());
}
