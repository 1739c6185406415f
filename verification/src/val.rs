use vstd::prelude::*;
use wasmparser::{Ieee32, Ieee64};
use crate::error::CodeGenError;
use crate::reg::Reg;

verus! {

/// The bit pattern of a 32-bit float constant, carried through unread.
#[verifier::external_type_specification]
#[verifier::external_body]
pub struct ExIeee32(Ieee32);

/// The bit pattern of a 64-bit float constant, carried through unread.
#[verifier::external_type_specification]
#[verifier::external_body]
pub struct ExIeee64(Ieee64);

/// A reference type: whether it admits null, and its heap type, by the
/// index that the module's type table gives it.
#[derive(Debug, Clone, Copy, PartialEq, Eq, Structural)]
pub struct RefType {
    /// Whether the reference may be null.
    pub nullable: bool,
    /// The heap type the reference points into.
    pub heap_type: u32,
}

/// The type of a WebAssembly value.
#[derive(Debug, Clone, Copy, PartialEq, Eq, Structural)]
pub enum ValType {
    I32,
    I64,
    F32,
    F64,
    V128,
    Ref(RefType),
}

/// A typed register value used to track register values in the value
/// stack.
#[derive(Debug, Clone, Copy, PartialEq, Eq, Structural)]
pub struct TypedReg {
    /// The physical register.
    pub reg: Reg,
    /// The type associated to the physical register.
    pub ty: ValType,
}

impl TypedReg {
    /// Create a new [`TypedReg`].
    pub fn new(ty: ValType, reg: Reg) -> (r: Self)
        ensures
            r == (TypedReg { reg, ty }),
    {
        Self { ty, reg }
    }

    /// Create an i64 [`TypedReg`].
    pub fn i64(reg: Reg) -> (r: Self)
        ensures
            r == (TypedReg { reg, ty: ValType::I64 }),
    {
        Self { ty: ValType::I64, reg }
    }

    /// Create an i32 [`TypedReg`].
    pub fn i32(reg: Reg) -> (r: Self)
        ensures
            r == (TypedReg { reg, ty: ValType::I32 }),
    {
        Self { ty: ValType::I32, reg }
    }

    /// Create an f64 [`TypedReg`].
    pub fn float64(reg: Reg) -> (r: Self)
        ensures
            r == (TypedReg { reg, ty: ValType::F64 }),
    {
        Self { ty: ValType::F64, reg }
    }

    /// Create an f32 [`TypedReg`].
    pub fn float32(reg: Reg) -> (r: Self)
        ensures
            r == (TypedReg { reg, ty: ValType::F32 }),
    {
        Self { ty: ValType::F32, reg }
    }

    /// Create a v128 [`TypedReg`].
    pub fn v128(reg: Reg) -> (r: Self)
        ensures
            r == (TypedReg { reg, ty: ValType::V128 }),
    {
        Self { ty: ValType::V128, reg }
    }
}

impl From<TypedReg> for Reg {
    fn from(tr: TypedReg) -> (r: Self) {
        tr.reg
    }
}

impl vstd::std_specs::convert::FromSpecImpl<TypedReg> for Reg {
    open spec fn obeys_from_spec() -> bool {
        true
    }

    open spec fn from_spec(tr: TypedReg) -> Reg {
        tr.reg
    }
}

/// A local value.
#[derive(Debug, Clone, Copy, PartialEq, Eq, Structural)]
pub struct Local {
    /// The index of the local.
    pub index: u32,
    /// The type of the local.
    pub ty: ValType,
}

/// A slot of the machine stack: its offset from the stack pointer and its
/// size in bytes.
#[derive(Debug, Clone, Copy, PartialEq, Eq, Structural)]
pub struct StackSlot {
    /// Offset of the slot.
    pub offset: u32,
    /// Size of the slot, in bytes.
    pub size: u32,
}

impl StackSlot {
    /// Create a stack slot.
    pub fn new(offset: u32, size: u32) -> (s: Self)
        ensures
            s == (StackSlot { offset, size }),
    {
        StackSlot { offset, size }
    }
}

/// A memory value.
#[derive(Debug, Clone, Copy, PartialEq, Eq, Structural)]
pub struct Memory {
    /// The type associated with the memory offset.
    pub ty: ValType,
    /// The stack slot corresponding to the memory value.
    pub slot: StackSlot,
}

/// Value definition to be used within the shadow stack.
#[derive(Debug, Clone, Copy, PartialEq, Eq)]
pub enum Val {
    /// I32 Constant.
    I32(i32),
    /// I64 Constant.
    I64(i64),
    /// F32 Constant.
    F32(Ieee32),
    /// F64 Constant.
    F64(Ieee64),
    /// V128 Constant.
    V128(i128),
    /// A register value.
    Reg(TypedReg),
    /// A local slot.
    Local(Local),
    /// Offset to a memory location.
    Memory(Memory),
}

impl From<TypedReg> for Val {
    fn from(tr: TypedReg) -> (v: Self) {
        Val::Reg(tr)
    }
}

impl vstd::std_specs::convert::FromSpecImpl<TypedReg> for Val {
    open spec fn obeys_from_spec() -> bool {
        true
    }

    open spec fn from_spec(tr: TypedReg) -> Val {
        Val::Reg(tr)
    }
}

impl From<Local> for Val {
    fn from(local: Local) -> (v: Self) {
        Val::Local(local)
    }
}

impl vstd::std_specs::convert::FromSpecImpl<Local> for Val {
    open spec fn obeys_from_spec() -> bool {
        true
    }

    open spec fn from_spec(local: Local) -> Val {
        Val::Local(local)
    }
}

impl From<Memory> for Val {
    fn from(mem: Memory) -> (v: Self) {
        Val::Memory(mem)
    }
}

impl vstd::std_specs::convert::FromSpecImpl<Memory> for Val {
    open spec fn obeys_from_spec() -> bool {
        true
    }

    open spec fn from_spec(mem: Memory) -> Val {
        Val::Memory(mem)
    }
}

/// The i32 constant that a `u32` becomes, when it fits.
pub open spec fn i32_const_of(value: u32) -> Result<Val, CodeGenError> {
    if value <= i32::MAX {
        Ok(Val::I32(value as i32))
    } else {
        Err(CodeGenError::ValueOutOfRange)
    }
}

/// A `u32` becomes the i32 constant of the same value exactly when it is at
/// most `i32::MAX`; a larger one is refused as out of range.
pub proof fn lemma_i32_const_of(value: u32)
    ensures
        i32_const_of(value) is Ok <==> value <= 0x7fff_ffff,
        i32_const_of(value) matches Ok(v) ==> (v matches Val::I32(c) && c == value),
        i32_const_of(value) is Err ==> i32_const_of(value) == Err::<Val, CodeGenError>(CodeGenError::ValueOutOfRange),
{
}

impl TryFrom<u32> for Val {
    type Error = CodeGenError;

    fn try_from(value: u32) -> (r: Result<Self, Self::Error>) {
        if value <= 0x7fff_ffff {
            Ok(Val::I32(value as i32))
        } else {
            Err(CodeGenError::ValueOutOfRange)
        }
    }
}

impl vstd::std_specs::convert::TryFromSpecImpl<u32> for Val {
    open spec fn obeys_try_from_spec() -> bool {
        true
    }

    open spec fn try_from_spec(value: u32) -> Result<Val, CodeGenError> {
        i32_const_of(value)
    }
}

/// Whether a value is the local with the given index.
pub open spec fn is_local_with_index(v: Val, index: u32) -> bool {
    v matches Val::Local(l) && l.index == index
}

/// Whether a value is a constant.
pub open spec fn is_constant(v: Val) -> bool {
    v is I32 || v is I64 || v is F32 || v is F64 || v is V128
}

/// The type of a value.
pub open spec fn type_of(v: Val) -> ValType {
    match v {
        Val::I32(_) => ValType::I32,
        Val::I64(_) => ValType::I64,
        Val::F32(_) => ValType::F32,
        Val::F64(_) => ValType::F64,
        Val::V128(_) => ValType::V128,
        Val::Reg(r) => r.ty,
        Val::Memory(m) => m.ty,
        Val::Local(l) => l.ty,
    }
}

/// A constant's type is the one its variant names, and a register, local
/// or memory value has the type it was given.
pub proof fn lemma_type_of_values(c32: i32, c64: i64, bits32: Ieee32, bits64: Ieee64, c128: i128, tr: TypedReg, l: Local, m: Memory)
    ensures
        type_of(Val::I32(c32)) == ValType::I32,
        type_of(Val::I64(c64)) == ValType::I64,
        type_of(Val::F32(bits32)) == ValType::F32,
        type_of(Val::F64(bits64)) == ValType::F64,
        type_of(Val::V128(c128)) == ValType::V128,
        type_of(Val::Reg(tr)) == tr.ty,
        type_of(Val::Local(l)) == l.ty,
        type_of(Val::Memory(m)) == m.ty,
{
}

/// Every value is exactly one of: a constant, a register value, a local or
/// a memory value; the constants are the five numeric variants.
pub proof fn lemma_value_kinds(v: Val)
    ensures
        is_constant(v) <==> (v is I32 || v is I64 || v is F32 || v is F64 || v is V128),
        is_constant(v) ==> !(v is Reg) && !(v is Local) && !(v is Memory),
        (v is Reg || v is Local || v is Memory) ==> !is_constant(v),
        is_constant(v) || v is Reg || v is Local || v is Memory,
        v is Reg ==> !(v is Local) && !(v is Memory),
        v is Local ==> !(v is Memory),
        forall|i: u32| is_local_with_index(v, i) <==> (v is Local && v->Local_0.index == i),
{
}

impl Val {
    /// Create a new I32 constant value.
    pub fn i32(v: i32) -> (r: Self)
        ensures
            r == Val::I32(v),
    {
        Self::I32(v)
    }

    /// Create a new I64 constant value.
    pub fn i64(v: i64) -> (r: Self)
        ensures
            r == Val::I64(v),
    {
        Self::I64(v)
    }

    /// Create a new F32 constant value.
    pub fn float32(v: Ieee32) -> (r: Self)
        ensures
            r == Val::F32(v),
    {
        Self::F32(v)
    }

    /// Create a new F64 constant value.
    pub fn float64(v: Ieee64) -> (r: Self)
        ensures
            r == Val::F64(v),
    {
        Self::F64(v)
    }

    /// Create a new V128 constant value.
    pub fn v128(v: i128) -> (r: Self)
        ensures
            r == Val::V128(v),
    {
        Self::V128(v)
    }

    /// Create a new Reg value.
    pub fn reg(reg: Reg, ty: ValType) -> (r: Self)
        ensures
            r == Val::Reg(TypedReg { reg, ty }),
    {
        Self::Reg(TypedReg { reg, ty })
    }

    /// Create a new Local value.
    pub fn local(index: u32, ty: ValType) -> (r: Self)
        ensures
            r == Val::Local(Local { index, ty }),
    {
        Self::Local(Local { index, ty })
    }

    /// Create a Memory value.
    pub fn mem(ty: ValType, slot: StackSlot) -> (r: Self)
        ensures
            r == Val::Memory(Memory { ty, slot }),
    {
        Self::Memory(Memory { ty, slot })
    }

    /// Check whether the value is a register.
    pub fn is_reg(&self) -> (b: bool)
        ensures
            b == (*self is Reg),
    {
        match *self {
            Self::Reg(_) => true,
            _ => false,
        }
    }

    /// Check whether the value is a memory offset.
    pub fn is_mem(&self) -> (b: bool)
        ensures
            b == (*self is Memory),
    {
        match *self {
            Self::Memory(_) => true,
            _ => false,
        }
    }

    /// Check whether the value is a constant.
    pub fn is_const(&self) -> (b: bool)
        ensures
            b == is_constant(*self),
    {
        match *self {
            Val::I32(_) | Val::I64(_) | Val::F32(_) | Val::F64(_) | Val::V128(_) => true,
            _ => false,
        }
    }

    /// Check whether the value is local
    pub fn is_local(&self) -> (b: bool)
        ensures
            b == (*self is Local),
    {
        match *self {
            Self::Local(_) => true,
            _ => false,
        }
    }

    /// Check whether the value is local with a particular index.
    pub fn is_local_at_index(&self, index: u32) -> (b: bool)
        ensures
            b == is_local_with_index(*self, index),
    {
        match *self {
            Self::Local(Local { index: i, .. }) if i == index => true,
            _ => false,
        }
    }

    /// Get the register representation of the value.
    pub fn unwrap_reg(&self) -> (r: TypedReg)
        requires
            *self is Reg,
        ensures
            *self == Val::Reg(r),
    {
        match self {
            Self::Reg(tr) => *tr,
            _ => unreached(),
        }
    }

    /// Get the integer representation of the value.
    pub fn unwrap_i32(&self) -> (r: i32)
        requires
            *self is I32,
        ensures
            *self == Val::I32(r),
    {
        match self {
            Self::I32(v) => *v,
            _ => unreached(),
        }
    }

    /// Get the integer representation of the value.
    pub fn unwrap_i64(&self) -> (r: i64)
        requires
            *self is I64,
        ensures
            *self == Val::I64(r),
    {
        match self {
            Self::I64(v) => *v,
            _ => unreached(),
        }
    }

    /// Get the float representation of the value.
    pub fn unwrap_f32(&self) -> (r: Ieee32)
        requires
            *self is F32,
        ensures
            *self == Val::F32(r),
    {
        match self {
            Self::F32(v) => *v,
            _ => unreached(),
        }
    }

    /// Get the float representation of the value.
    pub fn unwrap_f64(&self) -> (r: Ieee64)
        requires
            *self is F64,
        ensures
            *self == Val::F64(r),
    {
        match self {
            Self::F64(v) => *v,
            _ => unreached(),
        }
    }

    /// Returns the underlying memory value.
    pub fn unwrap_mem(&self) -> (m: Memory)
        requires
            *self is Memory,
        ensures
            *self == Val::Memory(m),
    {
        match self {
            Self::Memory(m) => *m,
            _ => unreached(),
        }
    }

    /// Check whether the value is an i32 constant.
    pub fn is_i32_const(&self) -> (b: bool)
        ensures
            b == (*self is I32),
    {
        match *self {
            Self::I32(_) => true,
            _ => false,
        }
    }

    /// Check whether the value is an i64 constant.
    pub fn is_i64_const(&self) -> (b: bool)
        ensures
            b == (*self is I64),
    {
        match *self {
            Self::I64(_) => true,
            _ => false,
        }
    }

    /// Check whether the value is an f32 constant.
    pub fn is_f32_const(&self) -> (b: bool)
        ensures
            b == (*self is F32),
    {
        match *self {
            Self::F32(_) => true,
            _ => false,
        }
    }

    /// Check whether the value is an f64 constant.
    pub fn is_f64_const(&self) -> (b: bool)
        ensures
            b == (*self is F64),
    {
        match *self {
            Self::F64(_) => true,
            _ => false,
        }
    }

    /// Get the type of the value.
    pub fn ty(&self) -> (t: ValType)
        ensures
            t == type_of(*self),
    {
        match self {
            Val::I32(_) => ValType::I32,
            Val::I64(_) => ValType::I64,
            Val::F32(_) => ValType::F32,
            Val::F64(_) => ValType::F64,
            Val::V128(_) => ValType::V128,
            Val::Reg(r) => r.ty,
            Val::Memory(m) => m.ty,
            Val::Local(l) => l.ty,
        }
    }
}

} // verus!
