//! The buffers that back the value stack and its flags. Each keeps up to
//! 64 items inline and moves them to the heap beyond that. What a buffer
//! holds is given by `buffered_values` or `buffered_flags`, and each of its
//! operations is stated over that sequence.
use vstd::prelude::*;
use smallvec::SmallVec;
use crate::val::Val;

verus! {

/// The most items a buffer is asked to hold. Below it, the capacity that
/// `SmallVec` computes when it grows cannot overflow for items of up to 64
/// bytes; at an overflow it panics.
pub open spec fn buffer_limit() -> nat {
    (usize::MAX / 256) as nat
}

/// The values of a stack, kept inline while there are at most 64 of them.
#[derive(Debug)]
#[verifier::external_body]
pub struct ValueBuffer {
    items: SmallVec<[Val; 64]>,
}

/// The values that a [`ValueBuffer`] holds, bottom first.
pub uninterp spec fn buffered_values(b: ValueBuffer) -> Seq<Val>;

impl ValueBuffer {
    /// `SmallVec::default`: an empty buffer.
    #[verifier::external_body]
    pub(crate) fn new() -> (b: Self)
        ensures
            buffered_values(b) == Seq::<Val>::empty(),
    {
        ValueBuffer { items: SmallVec::default() }
    }

    /// `SmallVec::len`: the number of values held.
    #[verifier::external_body]
    pub(crate) fn len(&self) -> (n: usize)
        ensures
            n == buffered_values(*self).len(),
    {
        self.items.len()
    }

    /// `SmallVec::push`: appends a value.
    #[verifier::external_body]
    pub(crate) fn push(&mut self, value: Val)
        requires
            buffered_values(*old(self)).len() < buffer_limit(),
        ensures
            buffered_values(*final(self)) == buffered_values(*old(self)).push(value),
    {
        self.items.push(value)
    }

    /// `SmallVec::pop`: removes the last value, if any, and returns it.
    #[verifier::external_body]
    pub(crate) fn pop(&mut self) -> (r: Option<Val>)
        ensures
            buffered_values(*old(self)).len() == 0 ==> r is None && buffered_values(*final(self))
                == buffered_values(*old(self)),
            buffered_values(*old(self)).len() > 0 ==> r == Some(buffered_values(*old(self)).last())
                && buffered_values(*final(self)) == buffered_values(*old(self)).drop_last(),
    {
        self.items.pop()
    }

    /// The slice method `last`, reached through `SmallVec`'s `Deref`: the
    /// last value, if any.
    #[verifier::external_body]
    pub(crate) fn last(&self) -> (r: Option<&Val>)
        ensures
            buffered_values(*self).len() == 0 ==> r is None,
            buffered_values(*self).len() > 0 ==> r == Some(&buffered_values(*self).last()),
    {
        self.items.last()
    }

    /// Indexing through `SmallVec`'s `Deref` to a slice: the value at `i`.
    #[verifier::external_body]
    pub(crate) fn get(&self, i: usize) -> (r: &Val)
        requires
            i < buffered_values(*self).len(),
        ensures
            *r == buffered_values(*self)[i as int],
    {
        &self.items[i]
    }

    /// `SmallVec::as_slice`: the values as a slice.
    #[verifier::external_body]
    pub(crate) fn as_slice(&self) -> (r: &[Val])
        ensures
            r@ == buffered_values(*self),
    {
        self.items.as_slice()
    }

    /// `SmallVec::as_mut_slice`: the values as a slice whose values may be
    /// changed in place; the buffer holds what the slice holds in the end.
    #[verifier::external_body]
    pub(crate) fn as_mut_slice(&mut self) -> (r: &mut [Val])
        ensures
            r@ == buffered_values(*old(self)),
            final(r)@.len() == r@.len(),
            buffered_values(*final(self)) == final(r)@,
        no_unwind
    {
        self.items.as_mut_slice()
    }

    /// `SmallVec::truncate`: keeps the first `len` values.
    #[verifier::external_body]
    pub(crate) fn truncate(&mut self, len: usize)
        ensures
            len >= buffered_values(*old(self)).len() ==> buffered_values(*final(self))
                == buffered_values(*old(self)),
            len < buffered_values(*old(self)).len() ==> buffered_values(*final(self))
                == buffered_values(*old(self)).take(len as int),
    {
        self.items.truncate(len)
    }

    /// `SmallVec::extend_from_slice`: appends the values of `slice`.
    #[verifier::external_body]
    pub(crate) fn extend_from_slice(&mut self, slice: &[Val])
        requires
            buffered_values(*old(self)).len() + slice@.len() <= buffer_limit(),
        ensures
            buffered_values(*final(self)) == buffered_values(*old(self)) + slice@,
    {
        self.items.extend_from_slice(slice)
    }

    /// `SmallVec::insert_from_slice`: inserts the values of `slice` at
    /// `index`, shifting the values from there on towards the end.
    #[verifier::external_body]
    pub(crate) fn insert_from_slice(&mut self, index: usize, slice: &[Val])
        requires
            index <= buffered_values(*old(self)).len(),
            buffered_values(*old(self)).len() + slice@.len() <= buffer_limit(),
        ensures
            buffered_values(*final(self)) == buffered_values(*old(self)).take(index as int)
                + slice@ + buffered_values(*old(self)).skip(index as int),
    {
        self.items.insert_from_slice(index, slice)
    }
}

/// Flags, one per value of a stack, kept inline while there are at most 64.
#[derive(Debug)]
#[verifier::external_body]
pub struct FlagBuffer {
    items: SmallVec<[bool; 64]>,
}

/// The flags that a [`FlagBuffer`] holds, bottom first.
pub uninterp spec fn buffered_flags(b: FlagBuffer) -> Seq<bool>;

impl FlagBuffer {
    /// `SmallVec::default`: an empty buffer.
    #[verifier::external_body]
    pub(crate) fn new() -> (b: Self)
        ensures
            buffered_flags(b) == Seq::<bool>::empty(),
    {
        FlagBuffer { items: SmallVec::default() }
    }

    /// `SmallVec::len`: the number of flags held.
    #[verifier::external_body]
    pub(crate) fn len(&self) -> (n: usize)
        ensures
            n == buffered_flags(*self).len(),
    {
        self.items.len()
    }

    /// `SmallVec::push`: appends a flag.
    #[verifier::external_body]
    pub(crate) fn push(&mut self, flag: bool)
        requires
            buffered_flags(*old(self)).len() < buffer_limit(),
        ensures
            buffered_flags(*final(self)) == buffered_flags(*old(self)).push(flag),
    {
        self.items.push(flag)
    }

    /// `SmallVec::pop`: removes the last flag, if any, and returns it.
    #[verifier::external_body]
    pub(crate) fn pop(&mut self) -> (r: Option<bool>)
        ensures
            buffered_flags(*old(self)).len() == 0 ==> r is None && buffered_flags(*final(self))
                == buffered_flags(*old(self)),
            buffered_flags(*old(self)).len() > 0 ==> r == Some(buffered_flags(*old(self)).last())
                && buffered_flags(*final(self)) == buffered_flags(*old(self)).drop_last(),
    {
        self.items.pop()
    }

    /// `SmallVec::insert_from_slice`: inserts the flags of `slice` at
    /// `index`, shifting the flags from there on towards the end.
    #[verifier::external_body]
    pub(crate) fn insert_from_slice(&mut self, index: usize, slice: &[bool])
        requires
            index <= buffered_flags(*old(self)).len(),
            buffered_flags(*old(self)).len() + slice@.len() <= buffer_limit(),
        ensures
            buffered_flags(*final(self)) == buffered_flags(*old(self)).take(index as int) + slice@
                + buffered_flags(*old(self)).skip(index as int),
    {
        self.items.insert_from_slice(index, slice)
    }
}

} // verus!
