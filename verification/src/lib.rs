//! Lock protocols for bare-metal, multi-core targets, written as verified state machines.
//!
//! Every primitive is a plain value whose methods are the transitions of the lock it stands
//! for, and every transition carries a contract over the primitive's state. A guard is a
//! token: it borrows nothing, so a lock can still be asked for its state while a guard is
//! out. The surrounding program serialises access to a primitive, hands guards back to it
//! when their holders are done, and invokes the polls that the wake handles ask for.
//!
//! [`sync`] holds the blocking primitives, [`async_locks`] the adapters that turn a failed
//! attempt into a request to poll, with the registry of waiters that they share.
//! [`datalock`], [`datarwlock`] and [`semaphore`] hold three plainer primitives: a lock
//! whose value can be read past it, a lock that counts its readers without ever holding
//! them up, and a semaphore of 16 bits.

pub mod async_locks;
pub mod datalock;
pub mod datarwlock;
pub mod semaphore;
pub mod sync;

pub use sync::Mutex;
pub use sync::MutexGuard;
pub use sync::RWLock;
pub use sync::ReadLockGuard;
pub use sync::Spinlock;
pub use sync::WriteLockGuard;
