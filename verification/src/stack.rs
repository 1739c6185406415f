//! The shadow stack of values that the compiler keeps while it translates a
//! function body.
use vstd::prelude::*;
use std::collections::HashMap;
use vstd::std_specs::hash::spec_hash_map_iter;
use vstd::std_specs::iter::IteratorSpec;
use crate::error::CodeGenError;
use crate::mode_stack::{ModeStack, count_real};
use crate::reg::Reg;
use crate::storage::{ValueBuffer, buffer_limit, buffered_values};
use crate::val::{Local, Memory, TypedReg, Val, is_local_with_index};
use wasmparser::{Ieee32, Ieee64};

verus! {

broadcast use vstd::std_specs::hash::group_hash_axioms;

/// The part of code emission that the stack drives: recording, in the
/// emitted code, which register or memory offset backs a position of the
/// machine stack.
pub trait MacroAssembler {
    /// The records emitted so far, oldest first: each a position of the
    /// machine stack and the location recorded for it.
    spec fn stored(&self) -> Seq<(u32, i32)>;

    /// Emit code that records `addr` as the location of the value at
    /// `position` of the machine stack.
    fn store_metadata(&mut self, position: u32, addr: i32)
        ensures
            final(self).stored() == old(self).stored().push((position, addr)),
    ;
}

/// An emitter that keeps the records it is asked to emit, in order.
pub struct MetadataLog {
    /// The records, oldest first.
    pub stores: Vec<(u32, i32)>,
}

impl MetadataLog {
    /// A log with no records.
    pub fn new() -> (log: Self)
        ensures
            log.stores@ == Seq::<(u32, i32)>::empty(),
    {
        MetadataLog { stores: Vec::new() }
    }
}

impl MacroAssembler for MetadataLog {
    open spec fn stored(&self) -> Seq<(u32, i32)> {
        self.stores@
    }

    fn store_metadata(&mut self, position: u32, addr: i32) {
        self.stores.push((position, addr));
    }
}

/// Whether `key` is what a search of `metadata` for a key that maps to
/// `addr` can give: such a key where one exists, else `u32::MAX`.
pub open spec fn metadata_lookup(metadata: Map<u32, u8>, addr: u8, key: u32) -> bool {
    if exists|k: u32| metadata.contains_key(k) && metadata[k] == addr {
        metadata.contains_key(key) && metadata[key] == addr
    } else {
        key == u32::MAX
    }
}

/// The key of the first entry recorded at `addr`, or `u32::MAX` where none
/// is.
pub open spec fn first_key_at(entries: Seq<(u32, u8)>, addr: u8) -> u32
    decreases entries.len(),
{
    if entries.len() == 0 {
        u32::MAX
    } else if entries[0].1 == addr {
        entries[0].0
    } else {
        first_key_at(entries.drop_first(), addr)
    }
}

/// Whether a local with the given index occurs below the top value, above
/// the highest memory value under the top.
pub open spec fn latent_local(values: Seq<Val>, index: u32) -> bool {
    exists|i: int|
        0 <= i < values.len() - 1 && is_local_with_index(#[trigger] values[i], index) && forall|j: int|
            i < j < values.len() - 1 ==> !(values[j] is Memory)
}

/// The size of a value in bytes, if it is held in memory; 0 otherwise.
pub open spec fn memory_size(v: Val) -> nat {
    match v {
        Val::Memory(m) => m.slot.size as nat,
        _ => 0,
    }
}

/// The total size in bytes of the memory values of `values`.
pub open spec fn memory_size_sum(values: Seq<Val>) -> nat
    decreases values.len(),
{
    if values.len() == 0 {
        0
    } else {
        memory_size_sum(values.drop_last()) + memory_size(values.last())
    }
}

/// Adding values never lowers the total size of the memory values.
pub proof fn lemma_memory_size_sum_prefix(values: Seq<Val>, n: int)
    requires
        0 <= n <= values.len(),
    ensures
        memory_size_sum(values.take(n)) <= memory_size_sum(values),
    decreases values.len() - n,
{
    if n < values.len() {
        lemma_memory_size_sum_prefix(values, n + 1);
        assert(values.take(n + 1).drop_last() =~= values.take(n));
    } else {
        assert(values.take(n) =~= values);
    }
}

/// What a [`Stack`] holds: its values bottom first, the real (`true`) or
/// virtual (`false`) flag of each, and the location recorded for each
/// position of the machine stack.
pub struct StackModel {
    pub values: Seq<Val>,
    pub modes: Seq<bool>,
    pub metadata: Map<u32, u8>,
}

/// The number of real values.
pub open spec fn real_count(m: StackModel) -> nat {
    count_real(m.modes)
}

/// The top value, if any.
pub open spec fn top(m: StackModel) -> Option<Val> {
    if m.values.len() == 0 {
        None
    } else {
        Some(m.values.last())
    }
}

/// `v` pushed on top, with the given flag.
pub open spec fn pushed(m: StackModel, v: Val, is_real: bool) -> StackModel {
    StackModel { values: m.values.push(v), modes: m.modes.push(is_real), metadata: m.metadata }
}

/// `v`, held in a register, pushed as a real value, with the register's
/// encoding recorded as the location of the new top of the machine stack.
pub open spec fn pushed_real(m: StackModel, v: Val, addr: u8) -> StackModel {
    StackModel {
        values: m.values.push(v),
        modes: m.modes.push(true),
        metadata: m.metadata.insert((real_count(m) + 1) as u32, addr),
    }
}

/// The top value removed; nothing changes on an empty stack.
pub open spec fn popped(m: StackModel) -> StackModel {
    if m.values.len() == 0 {
        m
    } else {
        StackModel {
            values: m.values.drop_last(),
            modes: m.modes.drop_last(),
            metadata: m.metadata,
        }
    }
}

/// The bottom `n` values kept.
pub open spec fn truncated(m: StackModel, n: nat) -> StackModel {
    StackModel {
        values: m.values.take(n as int),
        modes: m.modes.take(n as int),
        metadata: m.metadata,
    }
}

/// Every value has a flag.
pub open spec fn model_wf(m: StackModel) -> bool {
    m.modes.len() == m.values.len()
}


/// Popping undoes pushing: after a push, the top is the pushed value, and a
/// pop gives back the stack as it was.
pub proof fn lemma_pop_undoes_push(m: StackModel, v: Val, is_real: bool)
    ensures
        top(pushed(m, v, is_real)) == Some(v),
        popped(pushed(m, v, is_real)) == m,
{
    assert(pushed(m, v, is_real).values.drop_last() =~= m.values);
    assert(pushed(m, v, is_real).modes.drop_last() =~= m.modes);
}

/// Popping a value pushed as real gives back the values and flags as they
/// were; the location recorded for it stays.
pub proof fn lemma_pop_undoes_push_real(m: StackModel, v: Val, addr: u8)
    ensures
        top(pushed_real(m, v, addr)) == Some(v),
        popped(pushed_real(m, v, addr)).values == m.values,
        popped(pushed_real(m, v, addr)).modes == m.modes,
        popped(pushed_real(m, v, addr)).metadata == m.metadata.insert((real_count(m) + 1) as u32, addr),
{
    assert(pushed_real(m, v, addr).values.drop_last() =~= m.values);
    assert(pushed_real(m, v, addr).modes.drop_last() =~= m.modes);
}

/// Truncating to the current height changes nothing, and truncating to the
/// height before a push undoes the push.
pub proof fn lemma_truncate_undoes_push(m: StackModel, v: Val, is_real: bool)
    requires
        model_wf(m),
    ensures
        truncated(m, m.values.len()) == m,
        truncated(pushed(m, v, is_real), m.values.len()) == m,
{
    assert(m.values.take(m.values.len() as int) =~= m.values);
    assert(m.modes.take(m.values.len() as int) =~= m.modes);
    assert(m.values.push(v).take(m.values.len() as int) =~= m.values);
    assert(m.modes.push(is_real).take(m.values.len() as int) =~= m.modes);
}

/// A push adds one real value when the pushed value is real and none
/// otherwise; a pop removes one real value when the top value is real.
pub proof fn lemma_real_count_moves(m: StackModel, v: Val, is_real: bool, addr: u8)
    requires
        model_wf(m),
    ensures
        real_count(pushed(m, v, is_real)) == real_count(m) + if is_real { 1nat } else { 0nat },
        real_count(pushed_real(m, v, addr)) == real_count(m) + 1,
        m.values.len() > 0 ==> real_count(m) == real_count(popped(m)) + if m.modes.last() { 1nat } else { 0nat },
        real_count(m) <= m.values.len(),
{
    assert(m.modes.push(is_real).drop_last() =~= m.modes);
    assert(m.modes.push(true).drop_last() =~= m.modes);
    crate::mode_stack::lemma_count_real_bounded(m.modes);
}

/// After a value is pushed as real at `addr`, searching the recorded
/// locations for `addr` finds a position recorded at `addr`.
pub proof fn lemma_recorded_location_found(m: StackModel, v: Val, addr: u8, key: u32)
    requires
        metadata_lookup(pushed_real(m, v, addr).metadata, addr, key),
    ensures
        pushed_real(m, v, addr).metadata.contains_key(key),
        pushed_real(m, v, addr).metadata[key] == addr,
{
    let k = (real_count(m) + 1) as u32;
    assert(pushed_real(m, v, addr).metadata.contains_key(k) && pushed_real(
        m,
        v,
        addr,
    ).metadata[k] == addr);
}

/// A local that appears only as the top value is not latent.
pub proof fn lemma_top_local_not_latent(values: Seq<Val>, local: Local)
    requires
        forall|i: int| 0 <= i < values.len() ==> !is_local_with_index(#[trigger] values[i], local.index),
    ensures
        !latent_local(values.push(Val::Local(local)), local.index),
{
    let s = values.push(Val::Local(local));
    assert forall|i: int| 0 <= i < s.len() - 1 implies !is_local_with_index(#[trigger] s[i], local.index) by {
        assert(s[i] == values[i]);
    }
}

/// A local just below the top value is latent.
pub proof fn lemma_local_below_top_latent(values: Seq<Val>, local: Local, v: Val)
    ensures
        latent_local(values.push(Val::Local(local)).push(v), local.index),
{
    let s = values.push(Val::Local(local)).push(v);
    assert(is_local_with_index(s[values.len() as int], local.index));
}

/// A memory value just below the top value hides every local under it.
pub proof fn lemma_memory_hides_locals(values: Seq<Val>, mem: Memory, v: Val, index: u32)
    ensures
        !latent_local(values.push(Val::Memory(mem)).push(v), index),
{
    let s = values.push(Val::Memory(mem)).push(v);
    assert forall|i: int| 0 <= i < s.len() - 1 && is_local_with_index(#[trigger] s[i], index) implies !(forall|j: int| i < j < s.len() - 1 ==> !(s[j] is Memory)) by {
        assert(s[values.len() as int] is Memory);
    }
}

/// A local is latent whenever only values that are not in memory lie
/// between it and the top value, however many there are.
pub proof fn lemma_local_below_non_memory_latent(below: Seq<Val>, local: Local, between: Seq<Val>, top: Val)
    requires
        forall|j: int| 0 <= j < between.len() ==> !(#[trigger] between[j] is Memory),
    ensures
        latent_local(below.push(Val::Local(local)) + between.push(top), local.index),
{
    let s = below.push(Val::Local(local)) + between.push(top);
    let i = below.len() as int;
    assert(s[i] == Val::Local(local));
    assert(is_local_with_index(s[i], local.index));
    assert forall|j: int| i < j < s.len() - 1 implies !(s[j] is Memory) by {
        assert(s[j] == between[j - i - 1]);
    }
}

/// Where no value below the top is the local with the given index, that
/// local is not latent.
pub proof fn lemma_no_local_not_latent(values: Seq<Val>, index: u32)
    requires
        forall|i: int| 0 <= i < values.len() - 1 ==> !is_local_with_index(#[trigger] values[i], index),
    ensures
        !latent_local(values, index),
{
}

/// Under a memory value, nothing is latent: a latent local lies above every
/// memory value below the top.
pub proof fn lemma_latent_local_above_memory(below: Seq<Val>, mem: Memory, above: Seq<Val>, index: u32)
    requires
        above.len() >= 1,
    ensures
        latent_local(below.push(Val::Memory(mem)) + above, index) ==> exists|k: int|
            0 <= k < above.len() - 1 && is_local_with_index(#[trigger] above[k], index),
{
    let s = below.push(Val::Memory(mem)) + above;
    let m = below.len() as int;
    assert(s[m] is Memory);
    if latent_local(s, index) {
        let i = choose|i: int|
            0 <= i < s.len() - 1 && is_local_with_index(#[trigger] s[i], index) && forall|j: int|
                i < j < s.len() - 1 ==> !(s[j] is Memory);
        assert(i > m);
        assert(s[i] == above[i - m - 1]);
        assert(is_local_with_index(above[i - m - 1], index));
    }
}

/// Truncating to `n` values keeps exactly the bottom `n` values and their
/// flags, in place, and no other; the recorded locations stay.
pub proof fn lemma_truncate_keeps_bottom(m: StackModel, n: nat)
    requires
        n <= m.values.len(),
    ensures
        truncated(m, n).values.len() == n,
        n <= m.modes.len() ==> truncated(m, n).modes.len() == n,
        forall|i: int| 0 <= i < n ==> #[trigger] truncated(m, n).values[i] == m.values[i],
        forall|i: int| 0 <= i < n && n <= m.modes.len() ==> #[trigger] truncated(m, n).modes[i] == m.modes[i],
        truncated(m, n).metadata == m.metadata,
        n < m.values.len() ==> top(truncated(m, n)) == Some(m.values[n - 1]) || n == 0,
{
}

/// No values have no size; a memory value adds its slot's size to the size
/// of a stack's memory values, and any other value adds nothing.
pub proof fn lemma_memory_size_push(values: Seq<Val>, v: Val)
    ensures
        memory_size_sum(Seq::<Val>::empty()) == 0,
        memory_size_sum(values.push(v)) == memory_size_sum(values) + match v {
            Val::Memory(m) => m.slot.size as nat,
            _ => 0nat,
        },
{
    assert(values.push(v).drop_last() =~= values);
}


/// Whether each value's flag says exactly whether the value is held in a
/// register.
pub open spec fn flags_mark_registers(m: StackModel) -> bool {
    &&& model_wf(m)
    &&& forall|i: int| 0 <= i < m.values.len() ==> (#[trigger] m.modes[i] <==> m.values[i] is Reg)
}

/// The number of register values in `values`.
pub open spec fn count_registers(values: Seq<Val>) -> nat
    decreases values.len(),
{
    if values.len() == 0 {
        0
    } else {
        count_registers(values.drop_last()) + if values.last() is Reg { 1nat } else { 0nat }
    }
}

/// On a stack built from an empty one by `push_with_tag`, `pop` and
/// `truncate`, each flag is real exactly when its value is in a register:
/// the empty stack has that property, and each of those operations keeps
/// it.
pub proof fn lemma_flags_mark_registers_kept(m: StackModel, v: Val, n: nat)
    requires
        flags_mark_registers(m),
    ensures
        flags_mark_registers(StackModel { values: Seq::empty(), modes: Seq::empty(), metadata: m.metadata }),
        v is Reg ==> flags_mark_registers(pushed_real(m, v, v->Reg_0.reg.enc)),
        !(v is Reg) && !(v is Memory) ==> flags_mark_registers(pushed(m, v, false)),
        flags_mark_registers(popped(m)),
        n <= m.values.len() ==> flags_mark_registers(truncated(m, n)),
{
    if v is Reg {
        let p = pushed_real(m, v, v->Reg_0.reg.enc);
        assert forall|i: int| 0 <= i < p.values.len() implies (#[trigger] p.modes[i] <==> p.values[i] is Reg) by {
            if i < m.values.len() {
                assert(m.modes[i] <==> m.values[i] is Reg);
            }
        }
    } else {
        let q = pushed(m, v, false);
        assert forall|i: int| 0 <= i < q.values.len() implies (#[trigger] q.modes[i] <==> q.values[i] is Reg) by {
            if i < m.values.len() {
                assert(m.modes[i] <==> m.values[i] is Reg);
            }
        }
    }
}

/// Where each flag marks a register value, the number of real values is
/// the number of register values.
pub proof fn lemma_real_count_is_register_count(m: StackModel)
    requires
        flags_mark_registers(m),
    ensures
        real_count(m) == count_registers(m.values),
    decreases m.values.len(),
{
    if m.values.len() > 0 {
        let d = StackModel {
            values: m.values.drop_last(),
            modes: m.modes.drop_last(),
            metadata: m.metadata,
        };
        assert(m.modes[m.values.len() - 1] <==> m.values[m.values.len() - 1] is Reg);
        assert forall|i: int| 0 <= i < d.values.len() implies (#[trigger] d.modes[i] <==> d.values[i] is Reg) by {
            assert(m.modes[i] <==> m.values[i] is Reg);
        }
        lemma_real_count_is_register_count(d);
    }
}

/// The shadow stack used for compilation.
///
/// Each value carries a flag: real when the value is held on the machine
/// stack (a register value pushed with [`Stack::push_with_tag`]), virtual
/// otherwise. Values that enter through [`Stack::push`], [`Stack::extend`]
/// and [`Stack::insert_many`] are virtual. For each real value the stack
/// records where it lives, keyed by its position on the machine stack.
///
/// Every stack has exactly one flag per value, and keeps the number of real
/// flags right; this is the type's invariant.
#[derive(Debug)]
pub struct Stack {
    inner: ValueBuffer,
    mode_stack: ModeStack,
    metadata: HashMap<u32, u8>,
}

impl Default for Stack {
    fn default() -> (s: Self)
        ensures
            s.model() == (StackModel {
                values: Seq::empty(),
                modes: Seq::empty(),
                metadata: Map::empty(),
            }),
    {
        Stack::new()
    }
}

impl Stack {
    /// The values, bottom first.
    pub closed spec fn values(&self) -> Seq<Val> {
        buffered_values(self.inner)
    }

    /// The real (`true`) or virtual (`false`) flag of each value, bottom
    /// first.
    pub closed spec fn modes(&self) -> Seq<bool> {
        self.mode_stack.flags()
    }

    /// The locations recorded for positions of the machine stack.
    pub closed spec fn metadata_map(&self) -> Map<u32, u8> {
        self.metadata@
    }

    /// Every value has a flag, and the count of real values is kept right.
    #[verifier::type_invariant]
    closed spec fn wf(&self) -> bool {
        &&& self.mode_stack.wf()
        &&& self.mode_stack.flags().len() == buffered_values(self.inner).len()
    }

    /// What the stack holds.
    pub open spec fn model(&self) -> StackModel {
        StackModel { values: self.values(), modes: self.modes(), metadata: self.metadata_map() }
    }

    /// The number of real values.
    pub open spec fn real_count(&self) -> nat {
        count_real(self.modes())
    }

    /// Move the parts of the stack out, leaving an empty stack behind.
    fn take_parts(&mut self) -> (parts: (ValueBuffer, ModeStack, HashMap<u32, u8>))
        ensures
            buffered_values(parts.0) == old(self).values(),
            parts.1.flags() == old(self).modes(),
            parts.1.wf(),
            parts.1.flags().len() == buffered_values(parts.0).len(),
            parts.2@ == old(self).metadata_map(),
    {
        proof {
            use_type_invariant(&*self);
        }
        let mut taken = Stack::new();
        std::mem::swap(self, &mut taken);
        proof {
            use_type_invariant(&taken);
        }
        let Stack { inner, mode_stack, metadata } = taken;
        (inner, mode_stack, metadata)
    }

    /// Allocate a new stack.
    pub fn new() -> (s: Self)
        ensures
            s.values() == Seq::<Val>::empty(),
            s.modes() == Seq::<bool>::empty(),
            s.metadata_map() == Map::<u32, u8>::empty(),
    {
        Self { inner: ValueBuffer::new(), mode_stack: ModeStack::new(), metadata: HashMap::new() }
    }

    /// Ensures that there are at least `n` elements in the value stack,
    /// and returns the index calculated by: stack length minus `n`.
    pub fn ensure_index_at(&self, n: usize) -> (r: Result<usize, CodeGenError>)
        ensures
            self.values().len() >= n ==> r == Ok::<usize, CodeGenError>(
                (self.values().len() - n) as usize,
            ),
            self.values().len() < n ==> r == Err::<usize, CodeGenError>(
                CodeGenError::MissingValuesInStack,
            ),
    {
        if self.len() >= n {
            Ok(self.len() - n)
        } else {
            Err(CodeGenError::missing_values_in_stack())
        }
    }

    /// Returns true if the stack contains a local with the provided index
    /// except if the only time the local appears is the top element.
    pub fn contains_latent_local(&self, index: u32) -> (b: bool)
        ensures
            b == latent_local(self.values(), index),
    {
        let len = self.inner.len();
        if len < 2 {
            return false;
        }
        // Walk from just below the top towards the bottom, stopping at the
        // first memory value: nothing below it can be a latent local.
        let mut i: usize = len - 1;
        while i > 0
            invariant
                len == self.values().len(),
                len >= 2,
                i <= len - 1,
                forall|j: int| i <= j < len - 1 ==> !(#[trigger] self.values()[j] is Memory)
                    && !is_local_with_index(self.values()[j], index),
            decreases i,
        {
            let v = self.inner.get(i - 1);
            if v.is_mem() {
                proof {
                    assert forall|k: int| 0 <= k < len - 1 && is_local_with_index(
                        #[trigger] self.values()[k],
                        index,
                    ) implies !(forall|j: int|
                        k < j < len - 1 ==> !(self.values()[j] is Memory)) by {
                        assert(k < i - 1);
                        assert(self.values()[i - 1] is Memory);
                    }
                }
                return false;
            }
            if v.is_local_at_index(index) {
                return true;
            }
            i = i - 1;
        }
        false
    }

    /// Extend the stack with the given elements, as virtual values.
    pub fn extend(&mut self, values: Vec<Val>)
        requires
            old(self).values().len() + values@.len() <= buffer_limit(),
        ensures
            final(self).model() == (StackModel {
                values: old(self).values() + values@,
                modes: old(self).modes() + Seq::new(values@.len(), |i: int| false),
                metadata: old(self).metadata_map(),
            }),
    {
        let (mut inner, mut mode_stack, metadata) = self.take_parts();
        let at = inner.len();
        mode_stack.insert_virtual(at, values.len());
        inner.extend_from_slice(values.as_slice());
        proof {
            assert(old(self).modes().skip(at as int) =~= Seq::<bool>::empty());
            assert(old(self).modes().take(at as int) =~= old(self).modes());
        }
        *self = Stack { inner, mode_stack, metadata };
    }

    /// Inserts many values at the given index, as virtual values.
    pub fn insert_many(&mut self, at: usize, values: &[Val])
        requires
            at <= old(self).values().len(),
            old(self).values().len() + values@.len() <= buffer_limit(),
        ensures
            final(self).model() == (StackModel {
                values: old(self).values().take(at as int) + values@ + old(self).values().skip(
                    at as int,
                ),
                modes: old(self).modes().take(at as int) + Seq::new(values@.len(), |i: int| false)
                    + old(self).modes().skip(at as int),
                metadata: old(self).metadata_map(),
            }),
    {
        let (mut inner, mut mode_stack, metadata) = self.take_parts();
        mode_stack.insert_virtual(at, values.len());
        if at == inner.len() {
            inner.extend_from_slice(values);
            proof {
                assert(old(self).values().take(at as int) =~= old(self).values());
                assert(old(self).values().skip(at as int) =~= Seq::<Val>::empty());
            }
        } else {
            inner.insert_from_slice(at, values);
        }
        *self = Stack { inner, mode_stack, metadata };
    }

    /// Get the length of the stack; every value has a flag.
    pub fn len(&self) -> (n: usize)
        ensures
            n == self.values().len(),
            model_wf(self.model()),
    {
        proof {
            use_type_invariant(self);
        }
        self.inner.len()
    }

    /// Push a value to the stack, as a virtual value.
    pub fn push(&mut self, val: Val)
        requires
            old(self).values().len() < buffer_limit(),
        ensures
            final(self).model() == pushed(old(self).model(), val, false),
    {
        self.push_virt_val(val);
    }

    /// Push a value, as real when it is held in a register, as virtual when
    /// it is a constant or a local. A memory value is not pushed.
    pub fn push_with_tag<M: MacroAssembler>(&mut self, masm: &mut M, val: Val)
        requires
            old(self).values().len() < buffer_limit(),
            val is Reg ==> old(self).real_count() < u32::MAX,
        ensures
            val is Reg ==> final(self).model() == pushed_real(
                old(self).model(),
                val,
                val->Reg_0.reg.enc,
            ),
            val is Reg ==> final(masm).stored() == old(masm).stored().push(
                ((old(self).real_count() + 1) as u32, val->Reg_0.reg.enc as i32),
            ),
            !(val is Reg) ==> *final(masm) == *old(masm),
            val is Memory ==> final(self).model() == old(self).model(),
            !(val is Reg) && !(val is Memory) ==> final(self).model() == pushed(
                old(self).model(),
                val,
                false,
            ),
    {
        if val.is_reg() {
            let reg = val.unwrap_reg();
            let addr = reg.reg.hw_enc() as u8;
            let _ = self.push_real_val(masm, val, addr);
        } else if val.is_mem() {
            // Memory values are not tracked by this stack.
        } else if val.is_const() || val.is_local() {
            self.push_virt_val(val);
        }
    }

    fn push_virt_val(&mut self, val: Val)
        requires
            old(self).values().len() < buffer_limit(),
        ensures
            final(self).model() == pushed(old(self).model(), val, false),
    {
        let (mut inner, mut mode_stack, metadata) = self.take_parts();
        inner.push(val);
        mode_stack.push(false);
        *self = Stack { inner, mode_stack, metadata };
    }

    // `addr` is a register's hardware encoding or a memory offset.
    fn push_real_val<M: MacroAssembler>(&mut self, masm: &mut M, val: Val, addr: u8) -> (r: Result<
        (),
        CodeGenError,
    >)
        requires
            old(self).values().len() < buffer_limit(),
            old(self).real_count() < u32::MAX,
        ensures
            r is Ok,
            final(self).model() == pushed_real(old(self).model(), val, addr),
            final(masm).stored() == old(masm).stored().push(
                ((old(self).real_count() + 1) as u32, addr as i32),
            ),
    {
        let (mut inner, mut mode_stack, mut metadata) = self.take_parts();
        inner.push(val);
        mode_stack.push(true);
        proof {
            assert(mode_stack.flags().drop_last() =~= old(self).modes());
        }
        // The position of the new value on the machine stack.
        let stack_pos = mode_stack.get_real_count();
        metadata.insert(stack_pos, addr);
        *self = Stack { inner, mode_stack, metadata };
        masm.store_metadata(stack_pos, addr as i32);
        Ok(())
    }

    /// Keep the bottom `truncate` values.
    pub fn truncate(&mut self, truncate: usize)
        requires
            truncate <= old(self).values().len(),
        ensures
            final(self).model() == truncated(old(self).model(), truncate as nat),
    {
        let (mut inner, mut mode_stack, metadata) = self.take_parts();
        inner.truncate(truncate);
        mode_stack.truncate(truncate);
        *self = Stack { inner, mode_stack, metadata };
        proof {
            if truncate == old(self).values().len() {
                assert(old(self).values().take(truncate as int) =~= old(self).values());
            }
        }
    }

    /// The number of real values, that is, the height of the machine stack.
    pub fn get_real_stack_size(&mut self) -> (n: u32)
        requires
        ensures
            *final(self) == *old(self),
            n == old(self).real_count(),
    {
        proof {
            use_type_invariant(&*self);
        }
        self.mode_stack.get_real_count()
    }

    /// The position that a search of the recorded locations, in the order
    /// the map is walked, finds first for `addr`; `u32::MAX` where none is
    /// recorded there. The walk order is fixed by the map as it stands.
    pub closed spec fn metadata_search(&self, addr: u8) -> u32 {
        first_key_at(vstd::std_specs::hash::into_iter(spec_hash_map_iter(&self.metadata)), addr)
    }

    /// A position of the machine stack whose recorded location is `addr`,
    /// or `u32::MAX` where there is none.
    pub fn get_metadata(&mut self, addr: u8) -> (key: u32)
        ensures
            *final(self) == *old(self),
            key == old(self).metadata_search(addr),
            metadata_lookup(old(self).metadata_map(), addr, key),
    {
        let ghost all = vstd::std_specs::hash::into_iter(spec_hash_map_iter(&self.metadata));
        proof {
            assert(all.skip(0) =~= all);
        }
        for entry in it: self.metadata.iter()
            invariant
                self.metadata_search(addr) == first_key_at(all, addr),
                it.seq().unref() == all,
                0 <= it.index() <= all.len(),
                first_key_at(all, addr) == first_key_at(all.skip(it.index()), addr),
                forall|j: int| 0 <= j < it.index() ==> *(#[trigger] it.seq()[j]).1 != addr,
        {
            let (key, value) = entry;
            proof {
                assert(all.skip(it.index()).drop_first() =~= all.skip(it.index() + 1));
                assert(all.skip(it.index())[0] == (*key, *value));
            }
            if *value == addr {
                proof {
                    assert(self.metadata@.contains_key(*key));
                    assert(first_key_at(all.skip(it.index()), addr) == *key);
                }
                return *key;
            }
        }
        proof {
            assert(all.skip(all.len() as int) =~= Seq::<(u32, u8)>::empty());
        }
        u32::MAX
    }

    /// The recorded locations of the positions of the machine stack.
    pub fn metadata(&mut self) -> (m: &HashMap<u32, u8>)
        ensures
            *final(self) == *old(self),
            m@ == old(self).metadata_map(),
    {
        &self.metadata
    }

    /// Record `new_addr` as the location of the position whose location was
    /// `old_addr`.
    pub fn move_metadata<M: MacroAssembler>(&mut self, masm: &mut M, old_addr: u8, new_addr: u8)
        ensures
            final(self).values() == old(self).values(),
            final(self).modes() == old(self).modes(),
            metadata_lookup(old(self).metadata_map(), old_addr, old(self).metadata_search(old_addr)),
            final(self).metadata_map() == old(self).metadata_map().insert(
                old(self).metadata_search(old_addr),
                new_addr,
            ),
            final(masm).stored() == old(masm).stored().push(
                (old(self).metadata_search(old_addr), new_addr as i32),
            ),
    {
        // Update the location in the emitted code.
        let value = self.get_metadata(old_addr);
        masm.store_metadata(value, new_addr as i32);
        // Update the location known at compile time.
        let (inner, mode_stack, mut metadata) = self.take_parts();
        metadata.insert(value, new_addr);
        *self = Stack { inner, mode_stack, metadata };
    }

    /// Peek into the top in the stack.
    pub fn peek(&self) -> (r: Option<&Val>)
        ensures
            r matches Some(v) ==> top(self.model()) == Some(*v),
            r is None ==> top(self.model()) is None,
    {
        self.inner.last()
    }

    /// Returns the last n items of the stack, in bottom-most to top-most
    /// order.
    pub fn peekn(&self, n: usize) -> (r: Vec<Val>)
        requires
            n <= self.values().len(),
        ensures
            r@ == self.values().skip(self.values().len() - n),
    {
        let len = self.len();
        let partition = len - n;
        let mut out: Vec<Val> = Vec::new();
        let mut i: usize = partition;
        while i < len
            invariant
                len == self.values().len(),
                partition <= i <= len,
                out@ =~= self.values().subrange(partition as int, i as int),
            decreases len - i,
        {
            out.push(*self.inner.get(i));
            i = i + 1;
        }
        out
    }

    /// Pops the top element of the stack, if any.
    pub fn pop(&mut self) -> (r: Option<Val>)
        requires
        ensures
            r == top(old(self).model()),
            final(self).model() == popped(old(self).model()),
    {
        let (mut inner, mut mode_stack, metadata) = self.take_parts();
        if mode_stack.len() > 0 {
            mode_stack.pop();
        }
        let r = inner.pop();
        *self = Stack { inner, mode_stack, metadata };
        r
    }

    /// Pops the element at the top of the stack if it is an i32 const;
    /// returns `None` otherwise.
    pub fn pop_i32_const(&mut self) -> (r: Option<i32>)
        requires
        ensures
            match top(old(self).model()) {
                Some(Val::I32(c)) => r == Some(c) && final(self).model() == popped(
                    old(self).model(),
                ),
                _ => r is None && final(self).model() == old(self).model(),
            },
    {
        let is_const = match self.peek() {
            Some(v) => v.is_i32_const(),
            None => false,
        };
        if is_const {
            match self.pop() {
                Some(v) => Some(v.unwrap_i32()),
                None => unreached(),
            }
        } else {
            None
        }
    }

    /// Pops the element at the top of the stack if it is an i64 const;
    /// returns `None` otherwise.
    pub fn pop_i64_const(&mut self) -> (r: Option<i64>)
        requires
        ensures
            match top(old(self).model()) {
                Some(Val::I64(c)) => r == Some(c) && final(self).model() == popped(
                    old(self).model(),
                ),
                _ => r is None && final(self).model() == old(self).model(),
            },
    {
        let is_const = match self.peek() {
            Some(v) => v.is_i64_const(),
            None => false,
        };
        if is_const {
            match self.pop() {
                Some(v) => Some(v.unwrap_i64()),
                None => unreached(),
            }
        } else {
            None
        }
    }

    /// Pops the element at the top of the stack if it is an f32 const;
    /// returns `None` otherwise.
    pub fn pop_f32_const(&mut self) -> (r: Option<Ieee32>)
        requires
        ensures
            match top(old(self).model()) {
                Some(Val::F32(c)) => r == Some(c) && final(self).model() == popped(
                    old(self).model(),
                ),
                _ => r is None && final(self).model() == old(self).model(),
            },
    {
        let is_const = match self.peek() {
            Some(v) => v.is_f32_const(),
            None => false,
        };
        if is_const {
            match self.pop() {
                Some(v) => Some(v.unwrap_f32()),
                None => unreached(),
            }
        } else {
            None
        }
    }

    /// Pops the element at the top of the stack if it is an f64 const;
    /// returns `None` otherwise.
    pub fn pop_f64_const(&mut self) -> (r: Option<Ieee64>)
        requires
        ensures
            match top(old(self).model()) {
                Some(Val::F64(c)) => r == Some(c) && final(self).model() == popped(
                    old(self).model(),
                ),
                _ => r is None && final(self).model() == old(self).model(),
            },
    {
        let is_const = match self.peek() {
            Some(v) => v.is_f64_const(),
            None => false,
        };
        if is_const {
            match self.pop() {
                Some(v) => Some(v.unwrap_f64()),
                None => unreached(),
            }
        } else {
            None
        }
    }

    /// Pops the element at the top of the stack if it is a register;
    /// returns `None` otherwise.
    pub fn pop_reg(&mut self) -> (r: Option<TypedReg>)
        requires
        ensures
            match top(old(self).model()) {
                Some(Val::Reg(tr)) => r == Some(tr) && final(self).model() == popped(
                    old(self).model(),
                ),
                _ => r is None && final(self).model() == old(self).model(),
            },
    {
        let is_reg = match self.peek() {
            Some(v) => v.is_reg(),
            None => false,
        };
        if is_reg {
            match self.pop() {
                Some(v) => Some(v.unwrap_reg()),
                None => unreached(),
            }
        } else {
            None
        }
    }

    /// Pops the given register if it is at the top of the stack;
    /// returns `None` otherwise.
    pub fn pop_named_reg(&mut self, reg: Reg) -> (r: Option<TypedReg>)
        requires
        ensures
            match top(old(self).model()) {
                Some(Val::Reg(tr)) => if tr.reg == reg {
                    r == Some(tr) && final(self).model() == popped(old(self).model())
                } else {
                    r is None && final(self).model() == old(self).model()
                },
                _ => r is None && final(self).model() == old(self).model(),
            },
    {
        let is_named = match self.peek() {
            Some(v) => v.is_reg() && v.unwrap_reg().reg == reg,
            None => false,
        };
        if is_named {
            match self.pop() {
                Some(v) => Some(v.unwrap_reg()),
                None => unreached(),
            }
        } else {
            None
        }
    }

    /// Get a mutable reference to the inner stack representation: its
    /// values, bottom first, which may be changed in place.
    pub fn inner_mut(&mut self) -> (r: &mut [Val])
        ensures
            r@ == old(self).values(),
            final(self).values() == final(r)@,
            final(self).modes() == old(self).modes(),
            final(self).metadata_map() == old(self).metadata_map(),
    {
        proof {
            use_type_invariant(&*self);
        }
        self.inner.as_mut_slice()
    }

    /// Get a reference to the inner stack representation: its values,
    /// bottom first.
    pub fn inner(&self) -> (r: &[Val])
        ensures
            r@ == self.values(),
    {
        self.inner.as_slice()
    }

    /// Calculates the size of, in bytes, of the top n [Memory] entries
    /// in the value stack.
    pub fn sizeof(&self, top: usize) -> (size: u32)
        requires
            top <= self.values().len(),
            memory_size_sum(self.values().skip(self.values().len() - top)) <= u32::MAX,
        ensures
            size == memory_size_sum(self.values().skip(self.values().len() - top)),
    {
        let len = self.len();
        let start = len - top;
        let ghost tail = self.values().skip(start as int);
        let mut acc: u32 = 0;
        let mut i: usize = start;
        while i < len
            invariant
                len == self.values().len(),
                start <= i <= len,
                tail == self.values().skip(start as int),
                memory_size_sum(tail) <= u32::MAX,
                acc == memory_size_sum(tail.take(i - start)),
            decreases len - i,
        {
            let v = self.inner.get(i);
            proof {
                lemma_memory_size_sum_prefix(tail, i - start + 1);
                assert(tail.take(i - start + 1).drop_last() =~= tail.take(i - start));
            }
            if v.is_mem() {
                acc = acc + v.unwrap_mem().slot.size;
            }
            i = i + 1;
        }
        proof {
            assert(tail.take(len - start) =~= tail);
        }
        acc
    }
}

} // verus!
