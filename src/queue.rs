//! A handle on a shared, locked FIFO sequence.

use crate::fifo::Fifo;
use std::sync::{Arc, Mutex, MutexGuard, PoisonError};
use vstd::prelude::*;

verus! {

/// std's mutex, held as an opaque value.
#[verifier::external_type_specification]
#[verifier::external_body]
#[verifier::reject_recursive_types(T)]
pub struct ExMutex<T: ?Sized>(Mutex<T>);

/// The proof that a thread holds a std mutex; the lock is let go when it is dropped.
#[verifier::external_type_specification]
#[verifier::external_body]
#[verifier::reject_recursive_types(T)]
pub struct ExMutexGuard<'a, T: ?Sized + 'a>(MutexGuard<'a, T>);

/// What std's mutex returns in place of a guard when a holder panicked.
#[verifier::external_type_specification]
#[verifier::external_body]
#[verifier::reject_recursive_types(T)]
pub struct ExPoisonError<T>(PoisonError<T>);

/// Relies on std::sync::Mutex::new to put `v` behind a new lock; nothing more is stated.
#[verifier::external_body]
fn new_lock<V>(v: V) -> (r: Mutex<V>) {
    Mutex::new(v)
}

/// Relies on std::sync::Mutex::lock: it blocks until this thread holds the lock, and returns
/// an error where a holder panicked. Which of the two comes back is not stated.
#[verifier::external_body]
fn lock<V>(m: &Mutex<V>) -> (r: Result<MutexGuard<'_, V>, PoisonError<MutexGuard<'_, V>>>) {
    m.lock()
}

/// Relies on MutexGuard's DerefMut: the guard lends the value that it locks, for as long as
/// the guard is borrowed. Nothing is stated of that value.
#[verifier::external_body]
fn locked_value<'a, 'b, V>(g: &'a mut MutexGuard<'b, V>) -> (r: &'a mut V) {
    &mut **g
}

/// Relies on Arc::clone: a second handle on the same allocation.
#[verifier::external_body]
fn share<V>(a: &Arc<V>) -> (r: Arc<V>)
    ensures
        r == *a,
{
    Arc::clone(a)
}

/// The one way in which an operation of a queue fails.
#[derive(Debug, PartialEq, Eq)]
pub enum Error {
    /// A thread panicked while it held the queue's lock; the contents may be inconsistent.
    LockError,
}

/// A FIFO queue behind a lock. Clones are handles on the same sequence, which lives until
/// the last handle is dropped.
///
/// Each operation takes the lock, applies the matching operation of `Fifo` to the locked
/// sequence, and lets the lock go; it fails with `Error::LockError`, and changes nothing,
/// where the lock is poisoned. What the sequence holds is shared with every other handle
/// and may change between two calls, so these methods state nothing of it: the exact
/// contracts, and the laws that follow from them, are those of `Fifo`.
#[derive(Debug)]
#[verifier::reject_recursive_types(T)]
pub struct Queue<T> {
    data: Arc<Mutex<Fifo<T>>>,
}

impl<T> Queue<T> {
    /// A queue with an empty sequence.
    pub fn new() -> (r: Self) {
        Queue { data: Arc::new(new_lock(Fifo::new())) }
    }

    /// Takes the lock, or returns `LockError` where it is poisoned.
    fn acquire(&self) -> (r: Result<MutexGuard<'_, Fifo<T>>, Error>) {
        match lock(&*self.data) {
            Ok(g) => Ok(g),
            Err(_) => Err(Error::LockError),
        }
    }

    /// Appends `item` at the tail under the lock.
    pub fn push(&self, item: T) -> (r: Result<(), Error>) {
        let mut guard = match self.acquire() {
            Ok(g) => g,
            Err(e) => return Err(e),
        };
        let seq = locked_value(&mut guard);
        seq.push(item);
        Ok(())
    }

    /// Removes and returns the head under the lock; `None` where the sequence is empty.
    pub fn pop(&self) -> (r: Result<Option<T>, Error>) {
        let mut guard = match self.acquire() {
            Ok(g) => g,
            Err(e) => return Err(e),
        };
        let seq = locked_value(&mut guard);
        Ok(seq.pop())
    }

    /// Whether the sequence holds no item, read under the lock.
    pub fn is_empty(&self) -> (r: Result<bool, Error>) {
        let mut guard = match self.acquire() {
            Ok(g) => g,
            Err(e) => return Err(e),
        };
        let seq = locked_value(&mut guard);
        Ok(seq.is_empty())
    }

    /// Removes every item under the lock.
    pub fn clear(&self) -> (r: Result<(), Error>) {
        let mut guard = match self.acquire() {
            Ok(g) => g,
            Err(e) => return Err(e),
        };
        let seq = locked_value(&mut guard);
        seq.clear();
        Ok(())
    }

    /// A copy of the items, oldest first, taken under the lock.
    pub fn to_vec(&self) -> (r: Result<Vec<T>, Error>)
        where
            T: Clone,
    {
        let mut guard = match self.acquire() {
            Ok(g) => g,
            Err(e) => return Err(e),
        };
        let seq = locked_value(&mut guard);
        Ok(seq.to_vec())
    }
}

impl<T> Default for Queue<T> {
    /// The same as `Queue::new`.
    fn default() -> (r: Self) {
        Queue::new()
    }
}

impl<T> Clone for Queue<T> {
    /// A second handle on the same sequence.
    fn clone(&self) -> (r: Self)
        ensures
            r == *self,
    {
        Queue { data: share(&self.data) }
    }
}

} // verus!
