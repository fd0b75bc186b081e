//! Mutual exclusion under real contention: many concurrent tasks race on
//! the same permit-and-lock pair around the library's gate and ring, and no
//! two critical sections ever overlap.

use std::sync::atomic::AtomicUsize;
use std::sync::atomic::Ordering;
use std::sync::Arc;

use bounded_ring::gate::AccessGate;
use bounded_ring::ring::Buffer;
use bounded_ring::ring::BUFFER_SIZE;

#[test]
fn concurrent_try_acquire_never_overlaps() {
    let rt = tokio::runtime::Builder::new_multi_thread()
        .worker_threads(4)
        .build()
        .unwrap();
    let gate = Arc::new(tokio::sync::Mutex::new(AccessGate::new(Buffer::new())));
    let semaphore = Arc::new(tokio::sync::Semaphore::new(1));
    let inside = Arc::new(AtomicUsize::new(0));
    let overlaps = Arc::new(AtomicUsize::new(0));
    let successes = Arc::new(AtomicUsize::new(0));

    rt.block_on(async {
        let mut handles = Vec::new();
        for t in 0..8 {
            let gate = gate.clone();
            let semaphore = semaphore.clone();
            let inside = inside.clone();
            let overlaps = overlaps.clone();
            let successes = successes.clone();
            handles.push(tokio::spawn(async move {
                for _ in 0..300 {
                    if let (Ok(permit), Ok(mut lock)) = (semaphore.try_acquire(), gate.try_lock())
                    {
                        // Entering the critical section: nobody else may be
                        // inside already.
                        if inside.fetch_add(1, Ordering::SeqCst) != 0 {
                            overlaps.fetch_add(1, Ordering::SeqCst);
                        }
                        // The library gate mirrors the acquisition and must
                        // be free whenever the real lock was won.
                        if !lock.try_acquire() {
                            overlaps.fetch_add(1, Ordering::SeqCst);
                        }
                        if t % 2 == 0 {
                            lock.push(2);
                        } else {
                            lock.pop(2);
                        }
                        if lock.ring.amount > BUFFER_SIZE {
                            overlaps.fetch_add(1, Ordering::SeqCst);
                        }
                        lock.release();
                        inside.fetch_sub(1, Ordering::SeqCst);
                        successes.fetch_add(1, Ordering::SeqCst);
                        drop(lock);
                        drop(permit);
                    }
                    tokio::task::yield_now().await;
                }
            }));
        }
        for h in handles {
            h.await.unwrap();
        }
    });

    assert_eq!(overlaps.load(Ordering::SeqCst), 0);
    assert!(successes.load(Ordering::SeqCst) > 0);
    assert!(gate.try_lock().unwrap().ring.amount <= BUFFER_SIZE);
}
