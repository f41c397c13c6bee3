use vstd::prelude::*;

verus! {

/// A concurrency-safe slot for the latest fetched remote state, shared
/// between one background fetch task (the writer) and the render path
/// (the readers).  Writers replace the whole value at once and readers
/// receive a complete clone, so no reader ever observes a mix of an old
/// and a new value.  The slot starts absent — a valid, renderable state —
/// and each access takes and releases one lock, never two, so no use of
/// it can deadlock.  What a read returns depends on which writes other
/// tasks have completed, so nothing relates two calls on the same slot.
#[verifier::external_body]
#[verifier::reject_recursive_types(T)]
pub struct SharedSnapshot<T> {
    inner: std::sync::Arc<std::sync::Mutex<Option<T>>>,
}

impl<T: Clone> SharedSnapshot<T> {
    /// Relies on std's Arc and Mutex constructors: a fresh slot that
    /// holds no value yet.
    #[verifier::external_body]
    pub fn empty() -> (r: Self)
    {
        SharedSnapshot { inner: std::sync::Arc::new(std::sync::Mutex::new(None)) }
    }

    /// Relies on Arc::clone: another handle to the same slot, for
    /// handing to a background task or another reader.
    #[verifier::external_body]
    pub fn handle(&self) -> (r: Self)
    {
        SharedSnapshot { inner: std::sync::Arc::clone(&self.inner) }
    }

    /// Relies on std's Mutex::lock: replaces the slot's value wholesale
    /// under the lock, releasing it before returning.  Panics only if
    /// another task panicked while holding this lock, which no caller of
    /// this slot does.
    #[verifier::external_body]
    pub fn replace(&self, value: T)
    {
        *self.inner.lock().unwrap() = Some(value);
    }

    /// Relies on std's Mutex::lock: clones the complete current value
    /// under the lock — the whole value some finished write put there,
    /// or None while nothing was fetched yet.  Panics only if another
    /// task panicked while holding this lock, which no caller of this
    /// slot does.
    #[verifier::external_body]
    pub fn read(&self) -> (r: Option<T>)
    {
        self.inner.lock().unwrap().clone()
    }
}

} // verus!
