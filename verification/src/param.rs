use vstd::prelude::*;

verus! {

/// An initialized parameter passed by shared reference: a run of values,
/// the first of which is the parameter itself.
pub struct Ref<'a, T> {
    pub items: &'a [T],
}

impl<'a, T> Ref<'a, T> {
    /// The value that the parameter refers to.
    pub fn as_ref(&self) -> (r: &'a T)
        requires
            self.items@.len() > 0,
        ensures
            *r == self.items@[0],
    {
        &self.items[0]
    }
}

impl<'a> Ref<'a, u8> {
    /// The first `len` bytes that the parameter refers to.
    pub fn as_bytes(&self, len: usize) -> (r: &'a [u8])
        requires
            len <= self.items@.len(),
        ensures
            r@ == self.items@.take(len as int),
    {
        let (head, _) = self.items.split_at(len);
        head
    }
}

/// An initialized parameter passed by exclusive reference: a run of
/// values, the first of which is the parameter itself.
pub struct RefMut<'a, T> {
    pub items: &'a mut [T],
}

impl<'a, T> RefMut<'a, T> {
    /// The value that the parameter refers to, to change in place.
    pub fn as_mut(&mut self) -> (r: &mut T)
        requires
            old(self).items@.len() > 0,
        ensures
            *r == old(self).items@[0],
            final(self).items@ == old(self).items@.update(0, *final(r)),
            final(final(self).items)@ == final(old(self).items)@,
    {
        &mut self.items[0]
    }
}

impl<'a> RefMut<'a, u8> {
    /// The first `len` bytes that the parameter refers to, to change in place.
    pub fn as_bytes_mut(&mut self, len: usize) -> (r: &mut [u8])
        requires
            len <= old(self).items@.len(),
        ensures
            r@ == old(self).items@.take(len as int),
            final(self).items@ == final(r)@ + old(self).items@.skip(len as int),
            final(final(self).items)@ == final(old(self).items)@,
    {
        let (head, _) = self.items.split_at_mut(len);
        head
    }
}

/// An assignable out parameter: a run of slots, the first of which is the
/// parameter itself.
pub struct Out<'a, T> {
    pub slots: &'a mut [T],
}

impl<'a, T> Out<'a, T> {
    /// Writes `value` into the parameter.
    pub fn init(&mut self, value: T)
        requires
            old(self).slots@.len() > 0,
        ensures
            final(self).slots@ == old(self).slots@.update(0, value),
            final(final(self).slots)@ == final(old(self).slots)@,
    {
        self.slots[0] = value;
    }
}

impl<'a> Out<'a, u8> {
    /// Writes the bytes of `value` into the first slots of the parameter.
    pub fn init_bytes(&mut self, value: &[u8])
        requires
            value@.len() <= old(self).slots@.len(),
        ensures
            final(self).slots@ == value@ + old(self).slots@.skip(value@.len() as int),
            final(final(self).slots)@ == final(old(self).slots)@,
    {
        let ghost before = self.slots@;
        let n = value.len();
        let mut i: usize = 0;
        while i < n
            invariant
                n == value@.len(),
                n <= before.len(),
                i <= n,
                self.slots@.len() == before.len(),
                forall|j: int| 0 <= j < i ==> self.slots@[j] == value@[j],
                forall|j: int| i <= j < before.len() ==> self.slots@[j] == before[j],
                final(self.slots)@ == final(old(self).slots)@,
            decreases n - i,
        {
            self.slots[i] = value[i];
            i = i + 1;
        }
        assert(self.slots@ =~= value@ + before.skip(n as int));
    }

    /// The first `len` slots of the parameter, to write in place.
    pub fn as_uninit_bytes_mut(&mut self, len: usize) -> (r: &mut [u8])
        requires
            len <= old(self).slots@.len(),
        ensures
            r@ == old(self).slots@.take(len as int),
            final(self).slots@ == final(r)@ + old(self).slots@.skip(len as int),
            final(final(self).slots)@ == final(old(self).slots)@,
    {
        let (head, _) = self.slots.split_at_mut(len);
        head
    }
}

} // verus!
