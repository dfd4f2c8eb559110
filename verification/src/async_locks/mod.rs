//! Non-blocking adapters over the blocking primitives, for cooperative, poll-driven tasks.

pub mod acquire;
pub mod asyncmutex;
pub mod asyncrwlock;
pub mod asyncsemaphore;
pub mod registry;

pub use acquire::Acquire;
pub use asyncmutex::AsyncMutex;
pub use asyncmutex::AsyncMutexFuture;
pub use asyncmutex::AsyncMutexGuard;
pub use asyncmutex::AsyncMutexModel;
pub use asyncmutex::MutexEvent;
pub use asyncrwlock::AsyncRWLock;
pub use asyncrwlock::AsyncRWLockModel;
pub use asyncrwlock::AsyncReadLockFuture;
pub use asyncrwlock::AsyncReadLockGuard;
pub use asyncrwlock::AsyncWriteLockFuture;
pub use asyncrwlock::AsyncWriteLockGuard;
pub use asyncrwlock::RWLockEvent;
pub use asyncsemaphore::AsyncSemaphore;
pub use asyncsemaphore::AsyncSemaphoreFuture;
pub use asyncsemaphore::AsyncSemaphoreModel;
pub use registry::RegistryModel;
pub use registry::WaitRegistry;
