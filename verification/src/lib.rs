//! A bidirectional value-marshalling boundary between native code and an
//! embedded script engine.
//!
//! Native values are converted into engine-managed values through the
//! [`ToV8`](convert::ToV8) capability, and engine-managed values are read
//! back into native values through [`FromV8`](convert::FromV8).  The engine
//! side is modelled by [`Value`](value::Value): a plain datatype that holds
//! exactly what this library reads of an engine value (its numeric content,
//! its truthiness, its elements), so that every conversion rule can be
//! stated and proved over it.

pub mod boolean;
pub mod convert;
pub mod double;
pub mod error;
pub mod number;
pub mod sequence;
pub mod smi;
pub mod value;

pub use convert::FromV8;
pub use convert::ToV8;
pub use error::ConvError;
pub use number::Number;
pub use number::Numeric;
pub use smi::CheckedSmi;
pub use smi::SmallInt;
pub use smi::Smi;
pub use value::Scope;
pub use value::Value;
