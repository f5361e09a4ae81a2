use vstd::prelude::*;

verus! {

/// A shared handle to a value that the handle owns. The interior value can
/// be treated like `&T`.
pub struct HandleShared<T> {
    value: Box<T>,
}

impl<T> HandleShared<T> {
    /// The value that the handle holds.
    pub closed spec fn value(&self) -> T {
        *self.value
    }

    /// Moves `value` into a new handle.
    pub fn allocate(value: T) -> (handle: Self)
        ensures
            handle.value() == value,
    {
        HandleShared { value: Box::new(value) }
    }

    /// The value that the handle holds.
    pub fn as_ref(&self) -> (r: &T)
        ensures
            *r == self.value(),
    {
        &*self.value
    }

    /// Frees the handle, handing its value to `f`, and returns what `f` returns.
    pub fn dealloc<R, F: FnOnce(T) -> R>(handle: Self, f: F) -> (r: R)
        requires
            f.requires((handle.value(),)),
        ensures
            f.ensures((handle.value(),), r),
    {
        let v = *handle.value;
        f(v)
    }
}

/// A handle to a value that the handle owns and that no one else can reach.
/// The interior value can be treated like `&mut T`.
///
/// The handle is bound to the thread that created it: only that thread may
/// reach the value. Any thread may free the handle.
pub struct HandleExclusive<T> {
    value: Box<T>,
    thread: u64,
}

impl<T> HandleExclusive<T> {
    /// The value that the handle holds.
    pub closed spec fn value(&self) -> T {
        *self.value
    }

    /// The identifier of the thread that the handle is bound to.
    pub closed spec fn thread(&self) -> u64 {
        self.thread
    }

    /// Moves `value` into a new handle, bound to `thread`, the identifier of
    /// the thread that creates it.
    pub fn allocate(value: T, thread: u64) -> (handle: Self)
        ensures
            handle.value() == value,
            handle.thread() == thread,
    {
        HandleExclusive { value: Box::new(value), thread }
    }

    /// The identifier of the thread that the handle is bound to.
    pub fn bound_thread(&self) -> (thread: u64)
        ensures
            thread == self.thread(),
    {
        self.thread
    }

    /// The value that the handle holds, to change in place, for `thread`,
    /// which must be the thread that the handle is bound to.
    pub fn as_mut(&mut self, thread: u64) -> (r: &mut T)
        requires
            thread == old(self).thread(),
        ensures
            *r == old(self).value(),
            final(self).value() == *final(r),
            final(self).thread() == old(self).thread(),
    {
        &mut *self.value
    }

    /// Frees the handle, from any thread, handing its value to `f`, and
    /// returns what `f` returns.
    pub fn dealloc<R, F: FnOnce(T) -> R>(handle: Self, f: F) -> (r: R)
        requires
            f.requires((handle.value(),)),
        ensures
            f.ensures((handle.value(),), r),
    {
        let v = *handle.value;
        f(v)
    }
}

} // verus!
