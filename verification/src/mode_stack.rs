//! Which values of the stack are real, that is held on the machine stack,
//! and which are virtual (constants and locals that are not materialized).
use vstd::prelude::*;
use crate::storage::{FlagBuffer, buffer_limit, buffered_flags};

verus! {

/// The number of `true` flags in `flags`.
pub open spec fn count_real(flags: Seq<bool>) -> nat
    decreases flags.len(),
{
    if flags.len() == 0 {
        0
    } else {
        count_real(flags.drop_last()) + if flags.last() { 1nat } else { 0nat }
    }
}

/// No more flags are real than there are flags.
pub proof fn lemma_count_real_bounded(flags: Seq<bool>)
    ensures
        count_real(flags) <= flags.len(),
    decreases flags.len(),
{
    if flags.len() > 0 {
        lemma_count_real_bounded(flags.drop_last());
    }
}

/// No flags have no real flag; pushing a flag adds one real flag when it is
/// real and none otherwise; flags that are all real are all counted.
pub proof fn lemma_count_real_push(flags: Seq<bool>, flag: bool)
    ensures
        count_real(Seq::<bool>::empty()) == 0,
        count_real(flags.push(flag)) == count_real(flags) + if flag { 1nat } else { 0nat },
        (forall|i: int| 0 <= i < flags.len() ==> #[trigger] flags[i]) ==> count_real(flags) == flags.len(),
    decreases flags.len(),
{
    assert(flags.push(flag).drop_last() =~= flags);
    if flags.len() > 0 {
        lemma_count_real_push(flags.drop_last(), flags.last());
        assert(flags.drop_last().push(flags.last()) =~= flags);
        if forall|i: int| 0 <= i < flags.len() ==> #[trigger] flags[i] {
            assert forall|i: int| 0 <= i < flags.drop_last().len() implies #[trigger] flags.drop_last()[i] by {
                assert(flags[i]);
            }
            assert(flags[flags.len() - 1]);
        }
    }
}

/// Counting the real flags of a concatenation adds the counts of its parts.
pub proof fn lemma_count_real_concat(a: Seq<bool>, b: Seq<bool>)
    ensures
        count_real(a + b) == count_real(a) + count_real(b),
    decreases b.len(),
{
    if b.len() == 0 {
        assert(a + b =~= a);
    } else {
        lemma_count_real_concat(a, b.drop_last());
        assert((a + b).drop_last() =~= a + b.drop_last());
    }
}

/// A sequence of flags that are all `false` has no real flag.
pub proof fn lemma_count_real_all_virtual(flags: Seq<bool>)
    requires
        forall|i: int| 0 <= i < flags.len() ==> !flags[i],
    ensures
        count_real(flags) == 0,
    decreases flags.len(),
{
    if flags.len() > 0 {
        lemma_count_real_all_virtual(flags.drop_last());
    }
}

/// The real or virtual flag of every value of the stack, with the number
/// of real ones.
#[derive(Debug)]
pub struct ModeStack {
    inner: FlagBuffer,
    real_count: u32,
}

impl Default for ModeStack {
    fn default() -> (s: Self)
        ensures
            s.wf(),
            s.flags() == Seq::<bool>::empty(),
    {
        ModeStack::new()
    }
}

impl ModeStack {
    /// The flags, bottom first: `true` for a real value.
    pub closed spec fn flags(&self) -> Seq<bool> {
        buffered_flags(self.inner)
    }

    /// The count that the stack keeps beside its flags.
    pub closed spec fn real_count(&self) -> u32 {
        self.real_count
    }

    /// The kept count is the number of real flags.
    pub closed spec fn wf(&self) -> bool {
        self.real_count as nat == count_real(buffered_flags(self.inner))
    }

    /// Allocate a new stack.
    pub fn new() -> (s: Self)
        ensures
            s.wf(),
            s.flags() == Seq::<bool>::empty(),
    {
        Self { inner: FlagBuffer::new(), real_count: 0 }
    }

    /// Push the flag of a new top value.
    pub fn push(&mut self, is_real: bool)
        requires
            old(self).wf(),
            old(self).flags().len() < buffer_limit(),
            is_real ==> count_real(old(self).flags()) < u32::MAX,
        ensures
            final(self).wf(),
            final(self).flags() == old(self).flags().push(is_real),
    {
        self.inner.push(is_real);
        if is_real {
            self.real_count = self.real_count + 1;
        }
        proof {
            assert(buffered_flags(self.inner).drop_last() =~= old(self).flags());
        }
    }

    /// Pop the flag of the top value.
    pub fn pop(&mut self)
        requires
            old(self).wf(),
            old(self).flags().len() > 0,
        ensures
            final(self).wf(),
            final(self).flags() == old(self).flags().drop_last(),
    {
        let popped = self.inner.pop();
        match popped {
            Some(is_real) => {
                if is_real {
                    self.real_count = self.real_count - 1;
                }
            },
            None => {},
        }
    }

    /// Keep the flags of the bottom `truncate` values.
    pub fn truncate(&mut self, truncate: usize)
        requires
            old(self).wf(),
            truncate <= old(self).flags().len(),
        ensures
            final(self).wf(),
            final(self).flags() == old(self).flags().take(truncate as int),
    {
        let pop_count = self.inner.len() - truncate;
        let mut i: usize = 0;
        while i < pop_count
            invariant
                self.wf(),
                i <= pop_count,
                pop_count == old(self).flags().len() - truncate,
                self.flags() == old(self).flags().take(old(self).flags().len() - i),
            decreases pop_count - i,
        {
            self.pop();
            i = i + 1;
        }
    }

    /// The number of real values.
    pub fn get_real_count(&self) -> (n: u32)
        requires
            self.wf(),
        ensures
            n == count_real(self.flags()),
    {
        self.real_count
    }

    /// The number of flags held.
    pub fn len(&self) -> (n: usize)
        ensures
            n == self.flags().len(),
    {
        self.inner.len()
    }

    /// Insert `count` virtual flags at `at`, shifting the flags from there on
    /// towards the top.
    pub fn insert_virtual(&mut self, at: usize, count: usize)
        requires
            old(self).wf(),
            at <= old(self).flags().len(),
            old(self).flags().len() + count <= buffer_limit(),
        ensures
            final(self).wf(),
            final(self).flags() == old(self).flags().take(at as int) + Seq::new(
                count as nat,
                |i: int| false,
            ) + old(self).flags().skip(at as int),
    {
        let mut virt: Vec<bool> = Vec::new();
        let mut i: usize = 0;
        while i < count
            invariant
                i <= count,
                virt@ =~= Seq::new(i as nat, |j: int| false),
            decreases count - i,
        {
            virt.push(false);
            i = i + 1;
        }
        let ghost old_flags = self.flags();
        self.inner.insert_from_slice(at, virt.as_slice());
        proof {
            lemma_count_real_all_virtual(virt@);
            lemma_count_real_concat(old_flags.take(at as int), virt@);
            lemma_count_real_concat(old_flags.take(at as int) + virt@, old_flags.skip(at as int));
            lemma_count_real_concat(old_flags.take(at as int), old_flags.skip(at as int));
            assert(old_flags.take(at as int) + old_flags.skip(at as int) =~= old_flags);
        }
    }
}

} // verus!
