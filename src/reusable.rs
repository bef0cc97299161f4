//! The handle through which a pulled object is used and given back.
use vstd::prelude::*;
use async_channel::Sender;
use crate::pool::attach_outcome;

verus! {

/// Exclusive access to one object taken out of a pool, together with a
/// sending end of the pool's channel to give it back through.
///
/// A handle holds exactly one object from its creation on, and gives it up
/// exactly once: to the caller through `detach`, or to the pool (or, when no
/// pool is left, to nothing) through `release`. Both consume the handle, so
/// the object can never be given up twice.
///
/// A handle has no `Drop` impl: one that goes out of scope without `detach`
/// or `release` drops its object, which then never goes back to the pool.
/// Callers that want the return on every exit path wrap the handle in a
/// guard whose `Drop` calls `release`.
#[verifier::reject_recursive_types(T)]
pub struct Reusable<T> {
    pool: Sender<T>,
    data: T,
}

impl<T> View for Reusable<T> {
    type V = T;

    /// The object held.
    closed spec fn view(&self) -> T {
        self.data
    }
}

impl<T> Reusable<T> {
    /// The sending end through which the object goes back.
    pub closed spec fn sender(&self) -> Sender<T> {
        self.pool
    }

    /// Wraps `t`, to be given back through `pool`.
    pub fn new(pool: Sender<T>, t: T) -> (r: Self)
        ensures
            r@ == t,
            r.sender() == pool,
    {
        Reusable { pool, data: t }
    }

    /// Shared access to the object held.
    pub fn get(&self) -> (r: &T)
        ensures
            *r == self@,
    {
        &self.data
    }

    /// Takes the handle apart: the sending end and the object, which is now
    /// the caller's to keep or to send back.
    pub fn detach(self) -> (r: (Sender<T>, T))
        ensures
            r.0 == self.sender(),
            r.1 == self@,
    {
        (self.pool, self.data)
    }

    /// Gives the object back to the pool without waiting, and says whether
    /// it went back. Where the channel is closed (no receiving end is left)
    /// the object is dropped: there is nobody to report the failure to, so
    /// this never fails, and it has no precondition: it returns normally for
    /// every handle, whether or not any receiving end is left.
    pub fn release(self) -> (returned: bool) {
        let (pool, data) = self.detach();
        match attach_outcome(pool.try_send(data)) {
            Ok(()) => true,
            Err(_) => false,
        }
    }
}

impl<T> std::ops::Deref for Reusable<T> {
    type Target = T;

    fn deref(&self) -> (r: &T)
        ensures
            *r == self@,
    {
        &self.data
    }
}

impl<T> std::ops::DerefMut for Reusable<T> {
    fn deref_mut(&mut self) -> (r: &mut T)
        ensures
            *r == old(self)@,
            *final(r) == final(self)@,
    {
        &mut self.data
    }
}

} // verus!
