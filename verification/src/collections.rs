use vstd::prelude::*;

verus! {

/// A vector of at most `CAPACITY` elements backed by storage that never
/// reallocates: pushing beyond the capacity is a fatal error and is
/// excluded by contract.
pub struct ArrayVec<T, const CAPACITY: usize> {
    buffer: Vec<T>,
}

impl<T, const CAPACITY: usize> ArrayVec<T, CAPACITY> {
    /// The elements held, in insertion order.
    pub closed spec fn view(&self) -> Seq<T> {
        self.buffer@
    }

    pub open spec fn wf(&self) -> bool {
        self.view().len() <= CAPACITY
    }

    pub fn new() -> (r: Self)
        ensures
            r.wf(),
            r@ == Seq::<T>::empty(),
    {
        Self { buffer: Vec::new() }
    }

    pub fn len(&self) -> (r: usize)
        ensures
            r == self@.len(),
    {
        self.buffer.len()
    }

    /// Appends one element at the back.
    pub fn push(&mut self, value: T)
        requires
            old(self)@.len() < CAPACITY,
        ensures
            final(self)@ == old(self)@.push(value),
            final(self).wf(),
    {
        self.buffer.push(value);
    }

    /// The element at `index`; an index past the length is a fatal
    /// error and is excluded by contract.
    pub fn index(&self, index: usize) -> (r: &T)
        requires
            index < self@.len(),
        ensures
            *r == self@[index as int],
    {
        &self.buffer[index]
    }

    /// The populated elements as a slice.
    pub fn as_slice(&self) -> (r: &[T])
        ensures
            r@ == self@,
    {
        self.buffer.as_slice()
    }
}

} // verus!
