use std::convert::TryFrom;
use wasmparser::{Ieee32, Ieee64};
use winch_stack::error::CodeGenError;
use winch_stack::reg::{Reg, RegClass};
use winch_stack::stack::{MacroAssembler, MetadataLog, Stack};
use winch_stack::val::{Local, Memory, StackSlot, TypedReg, Val, ValType};


#[test]
fn test_pop_i32_const() {
    let mut stack = Stack::new();
    stack.push(Val::i32(33i32));
    assert_eq!(33, stack.pop_i32_const().unwrap());

    stack.push(Val::local(10, ValType::I32));
    assert!(stack.pop_i32_const().is_none());
}

#[test]
fn test_pop_reg() {
    let mut stack = Stack::new();
    let reg = Reg::integer(2usize);
    stack.push(Val::reg(reg, ValType::I32));
    stack.push(Val::i32(4));

    assert_eq!(None, stack.pop_reg());
    let _ = stack.pop().unwrap();
    assert_eq!(reg, stack.pop_reg().unwrap().reg);
}

#[test]
fn test_pop_named_reg() {
    let mut stack = Stack::new();
    let reg = Reg::integer(2usize);
    stack.push(Val::reg(reg, ValType::I32));
    stack.push(Val::reg(Reg::integer(4), ValType::I32));

    assert_eq!(None, stack.pop_named_reg(reg));
    let _ = stack.pop().unwrap();
    assert_eq!(reg, stack.pop_named_reg(reg).unwrap().reg);
}

#[test]
fn pop_undoes_push() {
    let mut stack = Stack::new();
    stack.push(Val::i64(-5));
    stack.push(Val::local(3, ValType::F64));
    let before = stack.peekn(2);
    stack.push(Val::i32(7));
    assert_eq!(Some(Val::i32(7)), stack.pop());
    assert_eq!(before, stack.peekn(2));
    assert_eq!(2, stack.len());
}

#[test]
fn pop_on_empty_stack_gives_none() {
    let mut stack = Stack::new();
    assert_eq!(None, stack.pop());
    assert_eq!(None, stack.peek());
    assert_eq!(0, stack.len());
}

#[test]
fn truncate_keeps_bottom_values() {
    let mut stack = Stack::new();
    stack.push(Val::i32(1));
    stack.push(Val::i32(2));
    stack.push(Val::i32(3));
    stack.truncate(1);
    assert_eq!(1, stack.len());
    assert_eq!(Some(&Val::i32(1)), stack.peek());
    stack.truncate(1);
    assert_eq!(1, stack.len());
}

#[test]
fn push_with_tag_counts_real_values() {
    let mut stack = Stack::new();
    let mut masm = MetadataLog::new();
    stack.push_with_tag(&mut masm, Val::i32(1));
    stack.push_with_tag(&mut masm, Val::reg(Reg::integer(5), ValType::I32));
    stack.push_with_tag(&mut masm, Val::local(0, ValType::I64));
    stack.push_with_tag(&mut masm, Val::reg(Reg::float(9), ValType::F32));
    assert_eq!(4, stack.len());
    assert_eq!(2, stack.get_real_stack_size());
    assert_eq!(vec![(1, 5), (2, 9)], masm.stores);
    assert_eq!(Some(&5), stack.metadata().get(&1));
    assert_eq!(Some(&9), stack.metadata().get(&2));

    // Popping a real value lowers the count, a virtual one does not.
    stack.pop();
    assert_eq!(1, stack.get_real_stack_size());
    stack.pop();
    assert_eq!(1, stack.get_real_stack_size());
    stack.truncate(0);
    assert_eq!(0, stack.get_real_stack_size());
}

#[test]
fn push_with_tag_skips_memory_values() {
    let mut stack = Stack::new();
    let mut masm = MetadataLog::new();
    stack.push_with_tag(&mut masm, Val::mem(ValType::I32, StackSlot::new(0, 8)));
    assert_eq!(0, stack.len());
    assert!(masm.stores.is_empty());
}

#[test]
fn plain_push_is_virtual() {
    let mut stack = Stack::new();
    stack.push(Val::reg(Reg::integer(1), ValType::I32));
    assert_eq!(0, stack.get_real_stack_size());
    assert!(stack.metadata().is_empty());
}

#[test]
fn metadata_lookup_and_move() {
    let mut stack = Stack::new();
    let mut masm = MetadataLog::new();
    stack.push_with_tag(&mut masm, Val::reg(Reg::integer(3), ValType::I32));
    stack.push_with_tag(&mut masm, Val::reg(Reg::integer(7), ValType::I64));
    assert_eq!(2, stack.get_metadata(7));
    assert_eq!(1, stack.get_metadata(3));
    assert_eq!(u32::MAX, stack.get_metadata(42));

    stack.move_metadata(&mut masm, 7, 12);
    assert_eq!(2, stack.get_metadata(12));
    assert_eq!(u32::MAX, stack.get_metadata(7));
    assert_eq!(Some(&(2, 12)), masm.stores.last());
}

#[test]
fn move_metadata_of_unknown_location() {
    let mut stack = Stack::new();
    let mut masm = MetadataLog::new();
    stack.move_metadata(&mut masm, 7, 12);
    assert_eq!(Some(&12), stack.metadata().get(&u32::MAX));
    assert_eq!(vec![(u32::MAX, 12)], masm.stores);
}

#[test]
fn ensure_index_at_checks_height() {
    let mut stack = Stack::new();
    stack.push(Val::i32(1));
    stack.push(Val::i32(2));
    stack.push(Val::i32(3));
    assert_eq!(Ok(1), stack.ensure_index_at(2));
    assert_eq!(Ok(0), stack.ensure_index_at(3));
    assert_eq!(Err(CodeGenError::MissingValuesInStack), stack.ensure_index_at(4));
}

#[test]
fn latent_locals() {
    let mut stack = Stack::new();
    stack.push(Val::local(1, ValType::I32));
    // The top element alone is not latent.
    assert!(!stack.contains_latent_local(1));
    stack.push(Val::i32(0));
    assert!(stack.contains_latent_local(1));
    assert!(!stack.contains_latent_local(2));

    // A memory value marks where the stack was spilled up to.
    let mut spilled = Stack::new();
    spilled.push(Val::local(1, ValType::I32));
    spilled.push(Val::mem(ValType::I32, StackSlot::new(0, 4)));
    spilled.push(Val::i32(0));
    assert!(!spilled.contains_latent_local(1));
}

#[test]
fn sizeof_sums_memory_slots() {
    let mut stack = Stack::new();
    stack.push(Val::mem(ValType::I64, StackSlot::new(0, 8)));
    stack.push(Val::i32(1));
    stack.push(Val::mem(ValType::I32, StackSlot::new(8, 4)));
    stack.push(Val::mem(ValType::V128, StackSlot::new(12, 16)));
    assert_eq!(20, stack.sizeof(2));
    assert_eq!(20, stack.sizeof(3));
    assert_eq!(28, stack.sizeof(4));
    assert_eq!(0, stack.sizeof(0));
}

#[test]
fn peekn_gives_top_values_bottom_first() {
    let mut stack = Stack::new();
    stack.push(Val::i32(1));
    stack.push(Val::i32(2));
    stack.push(Val::i32(3));
    assert_eq!(vec![Val::i32(2), Val::i32(3)], stack.peekn(2));
    assert_eq!(Vec::<Val>::new(), stack.peekn(0));
}

#[test]
fn extend_and_insert_many() {
    let mut stack = Stack::new();
    stack.push(Val::i32(1));
    stack.extend(vec![Val::i32(4), Val::i32(5)]);
    stack.insert_many(1, &[Val::i32(2), Val::i32(3)]);
    assert_eq!(
        vec![Val::i32(1), Val::i32(2), Val::i32(3), Val::i32(4), Val::i32(5)],
        stack.peekn(5)
    );
    stack.insert_many(5, &[Val::i32(6)]);
    assert_eq!(Some(&Val::i32(6)), stack.peek());
    assert_eq!(0, stack.get_real_stack_size());
    // Every value can be popped again.
    for _ in 0..6 {
        assert!(stack.pop().is_some());
    }
    assert_eq!(None, stack.pop());
}

#[test]
fn pop_constants_of_each_kind() {
    let mut stack = Stack::new();
    stack.push(Val::i64(9));
    assert_eq!(None, stack.pop_i32_const());
    assert_eq!(Some(9), stack.pop_i64_const());
    stack.push(Val::float32(Ieee32::from(1.5f32)));
    assert_eq!(None, stack.pop_f64_const());
    assert_eq!(1.5f32.to_bits(), stack.pop_f32_const().unwrap().bits());
    stack.push(Val::float64(Ieee64::from(2.25f64)));
    assert_eq!(2.25f64.to_bits(), stack.pop_f64_const().unwrap().bits());
    assert_eq!(0, stack.len());
}

#[test]
fn default_stack_is_empty() {
    let stack = Stack::default();
    assert_eq!(0, stack.len());
}

#[test]
fn val_predicates_and_types() {
    let slot = StackSlot::new(4, 8);
    let reg = Reg::vector(1);
    assert!(Val::reg(reg, ValType::V128).is_reg());
    assert!(Val::mem(ValType::I32, slot).is_mem());
    assert!(Val::v128(3).is_const());
    assert!(!Val::local(1, ValType::I32).is_const());
    assert!(Val::local(1, ValType::I32).is_local());
    assert!(Val::local(1, ValType::I32).is_local_at_index(1));
    assert!(!Val::local(1, ValType::I32).is_local_at_index(2));
    assert!(!Val::i32(1).is_local_at_index(1));
    assert_eq!(ValType::V128, Val::v128(0).ty());
    assert_eq!(ValType::F32, Val::float32(Ieee32::from(0.0f32)).ty());
    assert_eq!(ValType::I64, Val::local(2, ValType::I64).ty());
    assert_eq!(ValType::F64, Val::mem(ValType::F64, slot).ty());
    assert_eq!(ValType::I32, Val::reg(reg, ValType::I32).ty());
    assert_eq!(Memory { ty: ValType::I32, slot }, Val::mem(ValType::I32, slot).unwrap_mem());
    assert_eq!(-4, Val::i64(-4).unwrap_i64());
    assert_eq!(8, Val::i32(8).unwrap_i32());
}

#[test]
fn typed_reg_constructors() {
    let reg = Reg::integer(6);
    assert_eq!(TypedReg { reg, ty: ValType::I64 }, TypedReg::i64(reg));
    assert_eq!(TypedReg { reg, ty: ValType::I32 }, TypedReg::i32(reg));
    assert_eq!(TypedReg { reg, ty: ValType::F64 }, TypedReg::float64(reg));
    assert_eq!(TypedReg { reg, ty: ValType::F32 }, TypedReg::float32(reg));
    assert_eq!(TypedReg { reg, ty: ValType::V128 }, TypedReg::v128(reg));
    assert_eq!(TypedReg { reg, ty: ValType::I32 }, TypedReg::new(ValType::I32, reg));
    assert_eq!(reg, Reg::from(TypedReg::i32(reg)));
    assert_eq!(6, reg.hw_enc());
    assert_eq!(RegClass::Int, reg.class());
}

#[test]
fn conversions_into_val() {
    let reg = Reg::integer(1);
    assert_eq!(Val::reg(reg, ValType::I32), Val::from(TypedReg::i32(reg)));
    let local = Local { index: 3, ty: ValType::I64 };
    assert_eq!(Val::local(3, ValType::I64), Val::from(local));
    let mem = Memory { ty: ValType::F32, slot: StackSlot::new(0, 4) };
    assert_eq!(Val::mem(ValType::F32, StackSlot::new(0, 4)), Val::from(mem));
    assert_eq!(Ok(Val::i32(7)), Val::try_from(7u32));
    assert_eq!(Ok(Val::i32(i32::MAX)), Val::try_from(0x7fff_ffffu32));
    assert_eq!(Err(CodeGenError::ValueOutOfRange), Val::try_from(0x8000_0000u32));
}

#[test]
fn error_messages() {
    assert_eq!("missing values in the value stack", CodeGenError::missing_values_in_stack().message());
    assert_eq!("value out of range", CodeGenError::ValueOutOfRange.message());
}

#[test]
fn metadata_search_is_repeatable() {
    let mut stack = Stack::new();
    let mut masm = MetadataLog::new();
    // Two positions recorded at the same location.
    stack.push_with_tag(&mut masm, Val::reg(Reg::integer(3), ValType::I32));
    stack.push_with_tag(&mut masm, Val::reg(Reg::integer(3), ValType::I32));
    let found = stack.get_metadata(3);
    assert!(found == 1 || found == 2);
    assert_eq!(found, stack.get_metadata(3));
    stack.move_metadata(&mut masm, 3, 9);
    assert_eq!(Some(&9), stack.metadata().get(&found));
    assert_eq!(Some(&(found, 9)), masm.stores.last());
}

#[test]
fn real_flags_follow_register_values() {
    let mut stack = Stack::new();
    let mut masm = MetadataLog::new();
    stack.push_with_tag(&mut masm, Val::reg(Reg::integer(1), ValType::I32));
    stack.push_with_tag(&mut masm, Val::i32(5));
    stack.push_with_tag(&mut masm, Val::reg(Reg::integer(2), ValType::I64));
    stack.push_with_tag(&mut masm, Val::local(0, ValType::I32));
    let registers = stack.inner().iter().filter(|v| v.is_reg()).count();
    assert_eq!(registers as u32, stack.get_real_stack_size());
    stack.pop();
    stack.pop();
    let registers = stack.inner().iter().filter(|v| v.is_reg()).count();
    assert_eq!(registers as u32, stack.get_real_stack_size());
}

#[test]
fn inner_views_the_values() {
    let mut stack = Stack::new();
    stack.push(Val::i32(1));
    stack.push(Val::i32(2));
    assert_eq!(&[Val::i32(1), Val::i32(2)], stack.inner());
    stack.inner_mut()[0] = Val::i64(9);
    assert_eq!(&[Val::i64(9), Val::i32(2)], stack.inner());
    assert_eq!(2, stack.len());
}

#[test]
fn metadata_log_keeps_stores_in_order() {
    let mut log = MetadataLog::new();
    log.store_metadata(3, 1);
    log.store_metadata(1, -2);
    assert_eq!(vec![(3, 1), (1, -2)], log.stores);
}

#[test]
fn non_register_pushes_emit_nothing() {
    let mut stack = Stack::new();
    let mut masm = MetadataLog::new();
    stack.push_with_tag(&mut masm, Val::i64(3));
    stack.push_with_tag(&mut masm, Val::local(2, ValType::I32));
    stack.push_with_tag(&mut masm, Val::mem(ValType::I32, StackSlot::new(0, 4)));
    assert!(masm.stores.is_empty());
    assert_eq!(2, stack.len());
}
