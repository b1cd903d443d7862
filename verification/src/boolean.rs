//! The boolean adapter.
//!
//! Outbound conversion maps to the engine's boolean value.  Inbound
//! conversion is deliberately asymmetric to the numeric adapters: any
//! engine value coerces through the engine's truthiness rule, so it
//! never fails.

use vstd::prelude::*;

use crate::convert::{FromV8, ToV8};
use crate::error::{ConvError, SpecErr};
use crate::value::{Scope, Value, ValueSpec};

verus! {

impl ToV8 for bool {
    open spec fn to_v8_spec(self) -> Result<ValueSpec, SpecErr> {
        Ok(ValueSpec::Boolean(self))
    }

    open spec fn alloc_count(self) -> nat {
        1
    }

    /// Always succeeds.
    fn to_v8(self, scope: &mut Scope) -> (r: Result<Value, ConvError>) {
        Ok(scope.alloc_boolean(self))
    }
}

impl FromV8 for bool {
    open spec fn from_v8_spec(value: ValueSpec) -> Result<bool, SpecErr> {
        Ok(value.truthy())
    }

    /// Never fails: any engine value is coerced through the engine's
    /// truthiness rule.
    fn from_v8(scope: &mut Scope, value: &Value) -> (r: Result<bool, ConvError>) {
        Ok(value.is_truthy())
    }
}

/// Inbound boolean conversion succeeds on every engine value and yields
/// its truthiness; there is no failure mode.
pub proof fn lemma_bool_from_total(v: ValueSpec)
    ensures
        <bool as FromV8>::from_v8_spec(v) == Ok::<bool, SpecErr>(v.truthy()),
{
}

} // verus!
