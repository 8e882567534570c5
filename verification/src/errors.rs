//! Error types for generator invocation and template rendering.

use vstd::prelude::*;

verus! {

/// Failure of a single generator call: the argument mapping parsed from the
/// call site did not satisfy the generator's requirements, or the computed
/// timestamp fell outside the formattable range.
#[derive(Clone, Copy, Debug, PartialEq, Eq, Structural)]
pub enum GenError {
    /// A required argument is absent.
    MissingArg,
    /// An argument is present but of the wrong type or sign.
    WrongType,
    /// The requested draw space `[0, range)` is empty.
    EmptyRange,
    /// The `options` list holds fewer elements than the generator needs.
    TooFewOptions,
    /// The computed timestamp cannot be represented or formatted.
    OutOfRange,
}

impl GenError {
    /// A short human-readable description of the failure.
    pub fn message(&self) -> (r: String)
        ensures
            self is MissingArg ==> r@ == "missing required argument"@,
            self is WrongType ==> r@ == "argument has the wrong type"@,
            self is EmptyRange ==> r@ == "empty draw range"@,
            self is TooFewOptions ==> r@ == "too few options"@,
            self is OutOfRange ==> r@ == "timestamp out of range"@,
    {
        match self {
            GenError::MissingArg => String::from_str("missing required argument"),
            GenError::WrongType => String::from_str("argument has the wrong type"),
            GenError::EmptyRange => String::from_str("empty draw range"),
            GenError::TooFewOptions => String::from_str("too few options"),
            GenError::OutOfRange => String::from_str("timestamp out of range"),
        }
    }
}

/// Failure of a whole `render` call: either the templating engine reported a
/// template error, or a generator invoked during rendering failed.
#[derive(Clone, Debug)]
pub struct RenderError {
    message: String,
}

impl View for RenderError {
    type V = Seq<char>;

    closed spec fn view(&self) -> Seq<char> {
        self.message@
    }
}

impl RenderError {
    /// Wraps the engine's error text.
    pub fn new(message: String) -> (r: RenderError)
        ensures
            r@ == message@,
    {
        RenderError { message }
    }

    /// The error text carried by this failure.
    pub fn message(&self) -> (r: String)
        ensures
            r@ == self@,
    {
        self.message.clone()
    }
}

} // verus!
