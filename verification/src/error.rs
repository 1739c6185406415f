use vstd::prelude::*;

verus! {

/// Errors raised while the compiler works on its value stack.
#[derive(Debug, Clone, Copy, PartialEq, Eq, Structural)]
pub enum CodeGenError {
    /// Fewer values are on the stack than an operation needs.
    MissingValuesInStack,
    /// An integer does not fit the constant it is meant to become.
    ValueOutOfRange,
}

impl CodeGenError {
    /// The error for a stack that holds too few values.
    pub fn missing_values_in_stack() -> (e: Self)
        ensures
            e == CodeGenError::MissingValuesInStack,
    {
        CodeGenError::MissingValuesInStack
    }

    /// A short description of the error.
    pub fn message(&self) -> (s: &'static str)
        ensures
            s@ == (match *self {
                CodeGenError::MissingValuesInStack => "missing values in the value stack"@,
                CodeGenError::ValueOutOfRange => "value out of range"@,
            }),
    {
        match self {
            CodeGenError::MissingValuesInStack => "missing values in the value stack",
            CodeGenError::ValueOutOfRange => "value out of range",
        }
    }
}

} // verus!
