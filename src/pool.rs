//! The pool: a channel of available objects and a factory to make more.
use vstd::prelude::*;
use async_channel::{Receiver, Sender};
use std::sync::Arc;
use crate::error::PoolError;
use crate::reusable::Reusable;

verus! {

/// A pool of objects of type `T`, made by the factory `F`.
///
/// The available objects wait in an unbounded channel. The pool keeps both
/// its receiving end, to hand objects out, and a sending end, to take objects
/// back; handles carry clones of that sending end, so objects can go back
/// even after the pool itself is gone.
#[derive(Clone)]
#[verifier::reject_recursive_types(T)]
pub struct Pool<F, T> {
    object_bucket: Receiver<T>,
    object_return: Sender<T>,
    extend_fn: F,
}

/// What submitting an object to a pool comes to, given what the channel's
/// send reported: success, or `AttachError` for any failure to send.
pub fn attach_outcome<E>(sent: Result<(), E>) -> (r: Result<(), PoolError>)
    ensures
        r is Ok <==> sent is Ok,
        r is Err ==> r == Err::<(), PoolError>(PoolError::AttachError),
{
    match sent {
        Ok(()) => Ok(()),
        Err(_) => Err(PoolError::AttachError),
    }
}

impl<F, T> Pool<Arc<F>, T>
    where F: Fn() -> T + Send + Sync + 'static + ?Sized, T: Send
{
    /// The factory the pool makes new objects with.
    pub closed spec fn factory(&self) -> Arc<F> {
        self.extend_fn
    }

    /// The sending end through which objects enter the pool.
    pub closed spec fn entry(&self) -> Sender<T> {
        self.object_return
    }

    /// The receiving end from which objects leave the pool.
    pub closed spec fn exit(&self) -> Receiver<T> {
        self.object_bucket
    }

    /// Whether the pool's factory may be called.
    pub open spec fn factory_ready(&self) -> bool {
        (*self.factory()).requires(())
    }

    /// Makes a pool and fills it with `initial_capacity` objects made by
    /// `init`, which stays the pool's factory.
    pub fn new(initial_capacity: usize, init: Arc<F>) -> (r: Self)
        requires
            (*init).requires(()),
        ensures
            r.factory() == init,
            r.factory_ready(),
    {
        let (s, r) = async_channel::unbounded();
        let mut i: usize = 0;
        while i < initial_capacity
            invariant
                (*init).requires(()),
            decreases initial_capacity - i,
        {
            // The channel has no bound and both of its ends are held here,
            // so this send cannot fail.
            let _ = s.try_send((*init)());
            i = i + 1;
        }
        Pool { object_bucket: r, object_return: s, extend_fn: init }
    }

    /// The number of objects available at the moment of the call (objects
    /// out in handles are not counted).
    pub fn len(&self) -> usize {
        self.object_bucket.len()
    }

    /// Whether no object was available at the moment of the call.
    pub fn is_empty(&self) -> bool {
        self.object_bucket.is_empty()
    }

    /// The receiving end from which objects leave the pool.
    pub fn receiver(&self) -> (r: &Receiver<T>)
        ensures
            *r == self.exit(),
    {
        &self.object_bucket
    }

    /// The sending end through which objects enter the pool.
    pub fn sender(&self) -> (r: &Sender<T>)
        ensures
            *r == self.entry(),
    {
        &self.object_return
    }

    /// Wraps what a receive from the pool's channel produced: a handle on
    /// the object received, which goes back through this pool's sending end,
    /// or `NoBuffersAvailable` where the receive failed.
    pub fn accept_pulled<E>(&self, got: Result<T, E>) -> (r: Result<Reusable<T>, PoolError>)
        ensures
            match got {
                Ok(v) => r is Ok && r->Ok_0@ == v && r->Ok_0.sender() == self.entry(),
                Err(_) => r == Err::<Reusable<T>, PoolError>(PoolError::NoBuffersAvailable),
            },
    {
        match got {
            Ok(data) => Ok(Reusable::new(self.object_return.clone(), data)),
            Err(_) => Err(PoolError::NoBuffersAvailable),
        }
    }

    /// Takes an available object without waiting, or fails with
    /// `NoBuffersAvailable` where none is ready. What comes back is exactly
    /// what `accept_pulled` makes of the channel's non-blocking receive.
    pub fn try_pull(&self) -> (r: Result<Reusable<T>, PoolError>)
        ensures
            r is Ok ==> r->Ok_0.sender() == self.entry(),
            r is Err ==> r == Err::<Reusable<T>, PoolError>(PoolError::NoBuffersAvailable),
    {
        self.accept_pulled(self.object_bucket.try_recv())
    }

    /// Submits `t` to the pool without waiting, or fails with `AttachError`
    /// where the channel is closed.
    pub fn try_attach(&self, t: T) -> (r: Result<(), PoolError>)
        ensures
            r is Err ==> r == Err::<(), PoolError>(PoolError::AttachError),
    {
        attach_outcome(self.object_return.try_send(t))
    }

    /// Makes one new object with the factory and submits it to the pool,
    /// as `try_attach` does. The pool itself is left as it was.
    pub fn expand(&mut self) -> (r: Result<(), PoolError>)
        requires
            old(self).factory_ready(),
        ensures
            *final(self) == *old(self),
            r is Err ==> r == Err::<(), PoolError>(PoolError::AttachError),
    {
        let obj = (*self.extend_fn)();
        self.try_attach(obj)
    }
}

} // verus!
