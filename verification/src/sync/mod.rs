//! Blocking primitives: locks that own their value, with token guards.

pub mod mutex;
pub mod rwlock;
pub mod semaphore;
pub mod spinlock;

pub use mutex::Mutex;
pub use mutex::MutexGuard;
pub use rwlock::RWLock;
pub use rwlock::ReadLockGuard;
pub use rwlock::WriteLockGuard;
pub use semaphore::Semaphore;
pub use spinlock::Spinlock;
