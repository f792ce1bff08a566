use rand::Rng;
use secret_core::error::TxError;
use secret_core::version::mask;
use secret_core::version::shift_by;
use secret_core::version::word_is_locked;
use secret_core::version::word_size_bits;
use secret_core::version::word_version;
use secret_core::version::VersionClock;
use secret_core::version::VersionLock;
use secret_core::version::SPIN_BOUND;
use threadpool::ThreadPool;

#[test]
fn test_version_lock() -> Result<(), TxError> {
    let lock = VersionLock::default();

    let max_runs = 0xFFF;
    let runs: u32 = rand::thread_rng().gen_range(0..max_runs);

    for _ in 0..runs {
        lock.try_lock()?;
        assert!(lock.is_locked());
        lock.release()?;
    }

    assert_eq!(lock.version(), runs as usize);

    Ok(())
}

#[test]
fn test_version_lock_threaded() -> Result<(), TxError> {
    let lock = VersionLock::default();
    let max_runs = 0xFFFF;
    let runs: u32 = rand::thread_rng().gen_range(0..max_runs);

    let threadpool = ThreadPool::new(8);

    // thread pool
    for _ in 0..runs {
        let inner = lock.clone();
        threadpool.execute(move || {
            assert!(inner.try_lock().is_ok(), "Failed to get versioned lock");
            let _ = inner.release();
        })
    }

    threadpool.join();
    let version = lock.version();
    assert_eq!(version, runs as usize);

    Ok(())
}

#[test]
fn threads_lose_no_update() {
    let threads: usize = 8;
    let rounds: usize = 500;
    let lock = VersionLock::new(0);
    // the counter is only ever touched while the lock is held
    let counter = std::sync::Arc::new(std::sync::atomic::AtomicUsize::new(0));
    let pool = ThreadPool::new(threads);
    for _ in 0..threads {
        let inner = lock.clone();
        let shared = counter.clone();
        pool.execute(move || {
            for _ in 0..rounds {
                assert_eq!(inner.try_lock(), Ok(()));
                let seen = shared.load(std::sync::atomic::Ordering::SeqCst);
                shared.store(seen + 1, std::sync::atomic::Ordering::SeqCst);
                assert_eq!(inner.release(), Ok(()));
            }
        })
    }
    pool.join();
    assert_eq!(pool.panic_count(), 0);
    assert_eq!(lock.version(), threads * rounds);
    assert_eq!(counter.load(std::sync::atomic::Ordering::SeqCst), threads * rounds);
    assert!(!lock.is_locked());
}

#[test]
fn held_lock_is_reported_after_the_bound() {
    let lock = VersionLock::new(5);
    assert_eq!(lock.try_lock(), Ok(()));
    assert!(lock.is_locked());
    assert_eq!(lock.try_lock_bounded(1), Err(TxError::LockPresent));
    assert_eq!(lock.try_lock_bounded(1000), Err(TxError::LockPresent));
    assert_eq!(lock.clone().try_lock_bounded(3), Err(TxError::LockPresent));
    // a failed attempt leaves the lock held and the version alone
    assert!(lock.is_locked());
    assert_eq!(lock.version(), 5);
    assert_eq!(lock.unlock(), Ok(()));
    assert_eq!(lock.try_lock_bounded(1), Ok(()));
}

#[test]
fn no_attempt_acquires_nothing() {
    let lock = VersionLock::default();
    assert_eq!(lock.try_lock_bounded(0), Err(TxError::LockPresent));
    assert!(!lock.is_locked());
    assert_eq!(SPIN_BOUND, 1u32 << 31);
}

#[test]
fn new_lock_is_unlocked_at_its_version() {
    let lock = VersionLock::default();
    assert!(!lock.is_locked());
    assert_eq!(lock.version(), 0);
    let lock = VersionLock::new(42);
    assert!(!lock.is_locked());
    assert_eq!(lock.version(), 42);
}

#[test]
fn unlock_clears_the_flag_and_keeps_the_version() {
    let lock = VersionLock::new(7);
    assert_eq!(lock.try_lock(), Ok(()));
    assert!(lock.is_locked());
    assert_eq!(lock.version(), 7);
    assert_eq!(lock.unlock(), Ok(()));
    assert!(!lock.is_locked());
    assert_eq!(lock.version(), 7);
    // unlocking an unlocked lock changes nothing
    assert_eq!(lock.unlock(), Ok(()));
    assert!(!lock.is_locked());
    assert_eq!(lock.version(), 7);
}

#[test]
fn release_increments_the_version() {
    let lock = VersionLock::new(7);
    assert_eq!(lock.try_lock(), Ok(()));
    assert_eq!(lock.release(), Ok(()));
    assert!(!lock.is_locked());
    assert_eq!(lock.version(), 8);
}

#[test]
fn release_wraps_after_the_last_version() {
    let lock = VersionLock::new(usize::MAX >> 1);
    assert_eq!(lock.version(), usize::MAX >> 1);
    assert_eq!(lock.try_lock(), Ok(()));
    assert_eq!(lock.release(), Ok(()));
    assert!(!lock.is_locked());
    assert_eq!(lock.version(), 0);
}

#[test]
fn release_set_sets_the_version_and_clears_the_flag() {
    let lock = VersionLock::new(1);
    assert_eq!(lock.try_lock(), Ok(()));
    assert_eq!(lock.release_set(1234), Ok(()));
    assert!(!lock.is_locked());
    assert_eq!(lock.version(), 1234);
    // only the version bits of the value are taken
    assert_eq!(lock.try_lock(), Ok(()));
    assert_eq!(lock.release_set(usize::MAX), Ok(()));
    assert!(!lock.is_locked());
    assert_eq!(lock.version(), usize::MAX >> 1);
}

#[test]
fn clones_share_one_word() {
    let lock = VersionLock::new(3);
    let other = lock.clone();
    assert_eq!(lock.try_lock(), Ok(()));
    assert!(other.is_locked());
    assert_eq!(other.release(), Ok(()));
    assert!(!lock.is_locked());
    assert_eq!(lock.version(), 4);
}

#[test]
fn word_starting_with_the_flag_set_is_locked() {
    let lock = VersionLock::new(!(usize::MAX >> 1) | 9);
    assert!(lock.is_locked());
    assert_eq!(lock.version(), 9);
    assert_eq!(lock.try_lock_bounded(2), Err(TxError::LockPresent));
}

#[test]
fn bit_layout() {
    assert_eq!(word_size_bits(), usize::BITS as usize);
    assert_eq!(shift_by(), usize::BITS as usize - 1);
    assert_eq!(mask(), usize::MAX >> 1);
    assert_eq!(!mask(), 1usize << (usize::BITS - 1));
    assert!(!word_is_locked(0));
    assert!(!word_is_locked(mask()));
    assert!(word_is_locked(!mask()));
    assert!(word_is_locked(usize::MAX));
    assert_eq!(word_version(0), 0);
    assert_eq!(word_version(77), 77);
    assert_eq!(word_version(!mask() | 77), 77);
    assert_eq!(word_version(usize::MAX), mask());
    assert_eq!(word_version(!mask()), 0);
}

#[test]
fn clock_hands_out_increasing_values() {
    let clock = VersionClock::new(10);
    assert_eq!(clock.version(), 10);
    let mut last = clock.increment().unwrap();
    assert_eq!(last, 10);
    for step in 1..100usize {
        let seen = clock.increment().unwrap();
        assert!(seen > last);
        assert_eq!(seen, 10 + step);
        assert_eq!(clock.version(), seen + 1);
        last = seen;
    }
    let fresh = VersionClock::default();
    assert_eq!(fresh.version(), 0);
    assert_eq!(fresh.increment(), Ok(0));
    assert_eq!(fresh.clone().increment(), Ok(1));
    assert_eq!(fresh.version(), 2);
}

#[test]
fn clock_is_shared_between_threads() {
    let threads: usize = 8;
    let rounds: usize = 1000;
    let clock = VersionClock::new(0);
    let pool = ThreadPool::new(threads);
    for _ in 0..threads {
        let inner = clock.clone();
        pool.execute(move || {
            let mut last = inner.increment().unwrap();
            for _ in 1..rounds {
                let seen = inner.increment().unwrap();
                assert!(seen > last);
                assert!(inner.version() > seen);
                last = seen;
            }
        })
    }
    pool.join();
    assert_eq!(pool.panic_count(), 0);
    assert_eq!(clock.version(), threads * rounds);
}

#[test]
fn lock_error_describes_itself() {
    assert_eq!(TxError::LockPresent.message(), "Lock is present");
}
