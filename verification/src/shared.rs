//! Main-thread to audio-thread sharing of a value without blocking the audio thread.
use std::sync::atomic::{AtomicU32, Ordering};
use std::sync::{Arc, Mutex};
use vstd::prelude::*;

verus! {

/// `std::sync::Mutex`: what it holds changes under shared references, so nothing is known of it.
#[verifier::external_type_specification]
#[verifier::external_body]
#[verifier::reject_recursive_types(T)]
pub struct ExMutex<T: ?Sized>(Mutex<T>);

/// `Mutex::new`: a lock that holds a value.
#[verifier::external_body]
fn locked<T: Copy>(value: T) -> (r: Mutex<T>) {
    Mutex::new(value)
}

/// `Mutex::lock`, blocking: replaces the value held. A lock poisoned by a panic is used all the
/// same. What a later reader sees depends on the other threads, so nothing is promised of it.
#[verifier::external_body]
fn store<T: Copy>(lock: &Mutex<T>, value: T) {
    *lock.lock().unwrap_or_else(|e| e.into_inner()) = value;
}

/// `Mutex::lock`, blocking: a copy of the value held, whatever it is at that moment.
#[verifier::external_body]
fn fetch<T: Copy>(lock: &Mutex<T>) -> (r: T) {
    *lock.lock().unwrap_or_else(|e| e.into_inner())
}

/// `Mutex::try_lock`: a copy of the value held, or nothing where the lock is taken or poisoned.
#[verifier::external_body]
fn try_fetch<T: Copy>(lock: &Mutex<T>) -> (r: Option<T>) {
    lock.try_lock().ok().map(|guard| *guard)
}

/// A value published by the main thread and polled by audio threads. Writers lock;
/// readers check `version` atomically and copy with `try_lock`, so mixing never blocks.
#[verifier::reject_recursive_types(T)]
pub struct Shared<T: Copy> {
    value: Mutex<T>,
    version: AtomicU32,
}

/// What a poll that found version `found` and perhaps a free lock makes of the version seen so far:
/// a value is taken only where the version has changed and the lock was free, and only then is the
/// version counted as seen.
pub fn settle<T: Copy>(found: u32, seen: &mut u32, held: Option<T>) -> (r: Option<T>)
    ensures
        r == if found == *old(seen) {
            None
        } else {
            held
        },
        *final(seen) == if r is Some {
            found
        } else {
            *old(seen)
        },
{
    if found == *seen {
        return None;
    }
    match held {
        Some(value) => {
            *seen = found;
            Some(value)
        },
        None => None,
    }
}

impl<T: Copy> Shared<T> {
    /// A value at version 1. What readers see of it depends on what the threads do from then on.
    pub fn new(value: T) -> (r: Arc<Shared<T>>) {
        Arc::new(Shared { value: locked(value), version: AtomicU32::new(1) })
    }

    /// Replace the value, then count the version up. Other threads may publish too, so nothing is known
    /// of what is held afterwards.
    pub fn publish(&self, value: T) {
        store(&self.value, value);
        self.version.fetch_add(1, Ordering::Release);
    }

    /// Blocking read (main thread): the value and then the version, as other threads have left them.
    pub fn snapshot(&self) -> (r: (T, u32)) {
        let v = fetch(&self.value);
        (v, self.version.load(Ordering::Acquire))
    }

    /// How often a value was published, as other threads have left it.
    pub fn version(&self) -> (r: u32) {
        self.version.load(Ordering::Acquire)
    }

    /// Non-blocking read (audio thread): returns the new value if `seen` is stale and the
    /// lock is free, and updates `seen`.
    pub fn poll(&self, seen: &mut u32) -> (r: Option<T>)
        ensures
            r is None ==> *final(seen) == *old(seen),
            r is Some ==> *final(seen) != *old(seen),
    {
        let v = self.version.load(Ordering::Acquire);
        if v == *seen {
            return None;
        }
        settle(v, seen, try_fetch(&self.value))
    }
}

} // verus!
