use vstd::prelude::*;

verus! {

/// The bank a physical register belongs to.
#[derive(Debug, Clone, Copy, PartialEq, Eq, Structural)]
pub enum RegClass {
    /// General purpose integer registers.
    Int,
    /// Floating point registers.
    Float,
    /// Vector registers.
    Vector,
}

/// A physical register: its bank and its hardware encoding.
#[derive(Debug, Clone, Copy, PartialEq, Eq, Structural)]
pub struct Reg {
    /// The register bank.
    pub class: RegClass,
    /// The hardware encoding within the bank.
    pub enc: u8,
}

/// The number of hardware encodings a register bank can have.
pub const REG_ENCODINGS: usize = 64;

impl Reg {
    /// Create a register of the given bank and encoding.
    pub fn new(class: RegClass, enc: usize) -> (r: Self)
        requires
            enc < REG_ENCODINGS,
        ensures
            r.class == class,
            r.enc == enc,
    {
        Reg { class, enc: enc as u8 }
    }

    /// Create an integer register.
    pub fn integer(enc: usize) -> (r: Self)
        requires
            enc < REG_ENCODINGS,
        ensures
            r.class == RegClass::Int,
            r.enc == enc,
    {
        Reg::new(RegClass::Int, enc)
    }

    /// Create a floating point register.
    pub fn float(enc: usize) -> (r: Self)
        requires
            enc < REG_ENCODINGS,
        ensures
            r.class == RegClass::Float,
            r.enc == enc,
    {
        Reg::new(RegClass::Float, enc)
    }

    /// Create a vector register.
    pub fn vector(enc: usize) -> (r: Self)
        requires
            enc < REG_ENCODINGS,
        ensures
            r.class == RegClass::Vector,
            r.enc == enc,
    {
        Reg::new(RegClass::Vector, enc)
    }

    /// The hardware encoding of the register.
    pub fn hw_enc(&self) -> (e: usize)
        ensures
            e == self.enc,
    {
        self.enc as usize
    }

    /// The bank of the register.
    pub fn class(&self) -> (c: RegClass)
        ensures
            c == self.class,
    {
        self.class
    }
}

} // verus!
