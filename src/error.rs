use vstd::prelude::*;

verus! {

/// The reasons an evaluation stops. Every one of them is fatal.
#[derive(Debug, PartialEq)]
pub enum EvalError {
    /// A token that is neither an image path, a number nor an operator.
    UnknownToken(String),
    /// An image file could not be read; holds the path and the cause.
    ImageLoad(String, String),
    /// An operator found fewer operands on the stack than it takes.
    StackUnderflow,
    /// An operator was given an operand of the wrong kind (a reduction of a scalar).
    TypeMismatch,
    /// Two images of different dimension sizes were combined.
    ShapeMismatch,
    /// The expression did not leave exactly one image on the stack.
    InvalidResult,
    /// An output element type outside the supported set.
    UnsupportedDatatype(String),
    /// No image was read, so there is no header to write the result with.
    NoHeaderAvailable,
}

} // verus!
