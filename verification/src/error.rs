//! The errors a conversion can produce.
//!
//! Every declared error is a normal, recoverable result; nothing at this
//! layer panics or aborts.  Conversions that cannot fail say so in their
//! contracts by always returning `Ok`.

use vstd::prelude::*;

verus! {

/// The ghost model of a conversion error: its kind and its
/// human-readable description.
pub enum SpecErr {
    /// The engine value's runtime kind does not match the kind the target
    /// native type expects.
    TypeMismatch(Seq<char>),
    /// A native value is outside the range that a bounds-enforcing
    /// adapter accepts.
    OutOfRange(Seq<char>),
    /// An element of a compound conversion failed; carries the wrapped
    /// element error's description.
    Element(Seq<char>),
}

impl SpecErr {
    /// The error's human-readable description.
    pub open spec fn message(self) -> Seq<char> {
        match self {
            SpecErr::TypeMismatch(m) => m,
            SpecErr::OutOfRange(m) => m,
            SpecErr::Element(m) => m,
        }
    }
}

/// A conversion failure.
///
/// A compound conversion wraps the first element error it meets in
/// `ElementFailure`, preserving the underlying error; its model keeps the
/// wrapped error's description.
#[derive(Debug)]
pub enum ConvError {
    /// The engine value's runtime kind does not match the kind the target
    /// native type expects; the message names the expected type.
    TypeMismatch { message: String },
    /// A native value is outside the range that a bounds-enforcing
    /// adapter accepts.
    OutOfRange { message: String },
    /// An element of a compound conversion failed; the source is the
    /// element's own error.
    ElementFailure { source: Box<ConvError> },
}

/// The model of a conversion error.
pub open spec fn err_model(e: ConvError) -> SpecErr
    decreases e,
{
    match e {
        ConvError::TypeMismatch { message } => SpecErr::TypeMismatch(message@),
        ConvError::OutOfRange { message } => SpecErr::OutOfRange(message@),
        ConvError::ElementFailure { source } => SpecErr::Element(err_model(*source).message()),
    }
}

impl View for ConvError {
    type V = SpecErr;

    open spec fn view(&self) -> SpecErr {
        err_model(*self)
    }
}

impl ConvError {
    /// The error's human-readable description; for a wrapped element
    /// error, the description of the underlying error.
    pub fn message(&self) -> (s: String)
        ensures
            s@ == self@.message(),
        decreases *self,
    {
        match self {
            ConvError::TypeMismatch { message } => message.clone(),
            ConvError::OutOfRange { message } => message.clone(),
            ConvError::ElementFailure { source } => source.message(),
        }
    }

    /// The wrapped element error, for a compound failure.
    pub fn source(&self) -> (r: Option<&ConvError>)
        ensures
            r is Some <==> self@ is Element,
            r matches Some(e) ==> e@.message() == self@.message(),
    {
        match self {
            ConvError::ElementFailure { source } => Some(&**source),
            _ => None,
        }
    }
}

} // verus!
