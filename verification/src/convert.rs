//! The two dual conversion capabilities of the boundary.
//!
//! [`ToV8`] carries an owned native value into the engine; [`FromV8`]
//! reads a borrowed engine value back into a newly-owned native value.
//! Each implementation pins its behaviour down with a model function
//! (`to_v8_spec` / `from_v8_spec`), and the executable conversion is
//! proved to agree with it exactly, on success and on failure alike.

use vstd::prelude::*;

use crate::error::{ConvError, SpecErr};
use crate::value::{Scope, Value, ValueSpec};

verus! {

/// Whether an outbound conversion result agrees with its model: equal
/// values (and a well-formed engine value) on success, equal errors on
/// failure.
pub open spec fn to_res_matches(r: Result<Value, ConvError>, s: Result<ValueSpec, SpecErr>) -> bool {
    match (r, s) {
        (Ok(v), Ok(m)) => v@ == m && m.wf(),
        (Err(e), Err(me)) => e@ == me,
        _ => false,
    }
}

/// Whether an inbound conversion result agrees with its model: equal
/// values on success, equal errors on failure.
pub open spec fn from_res_matches<T: DeepView>(
    r: Result<T, ConvError>,
    s: Result<T::V, SpecErr>,
) -> bool {
    match (r, s) {
        (Ok(x), Ok(m)) => x.deep_view() == m,
        (Err(e), Err(me)) => e@ == me,
        _ => false,
    }
}

/// A conversion from a native value to an engine value.
///
/// Outbound conversion consumes the native value and allocates engine
/// values through the borrowed scope.  Whether it can fail at all is
/// part of each implementation's model: for the primitive adapters the
/// model is always `Ok`, so their callers may rely on success.
pub trait ToV8: Sized {
    /// The model of the conversion: the engine value it produces, or the
    /// error it fails with.
    spec fn to_v8_spec(self) -> Result<ValueSpec, SpecErr>;

    /// How many engine values a successful conversion allocates: one per
    /// call, plus one per contained element for compound values.
    spec fn alloc_count(self) -> nat;

    /// Converts the value to an engine value.
    fn to_v8(self, scope: &mut Scope) -> (r: Result<Value, ConvError>)
        ensures
            to_res_matches(r, self.to_v8_spec()),
            r is Ok ==> final(scope).allocs() == old(scope).allocs() + self.alloc_count(),
            r is Err ==> final(scope).allocs() >= old(scope).allocs(),
    ;
}

/// A conversion from an engine value to a native value.
///
/// Inbound conversion borrows the engine value and produces a
/// newly-owned native value.  Failure describes the expected native
/// type; whether an input can fail is part of each implementation's
/// model.
pub trait FromV8: Sized + DeepView {
    /// The model of the conversion: the native value (as its ghost view)
    /// that the engine value reads back as, or the error it fails with.
    spec fn from_v8_spec(value: ValueSpec) -> Result<Self::V, SpecErr>;

    /// Converts an engine value to a native value.
    fn from_v8(scope: &mut Scope, value: &Value) -> (r: Result<Self, ConvError>)
        ensures
            from_res_matches::<Self>(r, Self::from_v8_spec(value@)),
            final(scope).allocs() == old(scope).allocs(),
    ;
}

} // verus!
