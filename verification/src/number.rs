//! The general-numeric adapter family.
//!
//! `Number<T>` marks a native numeric value for encoding as the engine's
//! general double-precision representation.  Outbound conversion always
//! succeeds, rounding 64-bit values outside the double's exact integer
//! range to the nearest representable double (ties to even); that loss
//! is accepted, not an error.  Inbound conversion reads the engine value
//! as a number and fails with a type-mismatch error naming the expected
//! type when the value is not a number representable in the target type.

use vstd::prelude::*;
use vstd::arithmetic::power2::{lemma2_to64, lemma2_to64_rest};

use crate::convert::{FromV8, ToV8};
use crate::double::{
    is_double_int, lemma_double_int_small, lemma_to_double_exact, lemma_to_double_representable,
    round_u64, to_double,
};
use crate::error::{ConvError, SpecErr};
use crate::value::{Scope, Value, ValueSpec};

verus! {

/// Marks a numeric value as being serialized as the engine's
/// double-precision number.
#[derive(Debug, Clone, Copy, PartialEq, Eq, PartialOrd, Ord, Hash)]
pub struct Number<T: Numeric>(pub T);

/// A native numeric type that can ride the engine's double-precision
/// representation.
pub trait Numeric: Sized + Copy {
    /// The type's displayable name, used verbatim in error messages.
    spec fn name_spec() -> Seq<char>;

    /// The description carried by a type-mismatch failure for this type.
    spec fn err_msg_spec() -> Seq<char>;

    /// The exact value of the double this native value converts to.
    spec fn as_double_spec(self) -> int;

    /// The native value an integer-valued double reads back as, when it
    /// is representable in this type.
    spec fn from_double_spec(d: int) -> Option<Self>;

    /// The double every value converts to is representable.
    proof fn as_double_representable(self)
        ensures
            is_double_int(self.as_double_spec()),
    ;

    /// The type's displayable name.
    fn name() -> (s: String)
        ensures
            s@ == Self::name_spec(),
    ;

    /// The description of a type-mismatch failure for this type.
    fn expected_msg() -> (s: String)
        ensures
            s@ == Self::err_msg_spec(),
    ;

    /// Converts the value to the double-precision intermediate.
    fn as_double(self) -> (d: i128)
        ensures
            d as int == self.as_double_spec(),
    ;

    /// Reads a native value out of an engine value's numeric content.
    fn from_value(value: &Value) -> (r: Option<Self>)
        ensures
            r == match value@.read_number() {
                Some(d) => Self::from_double_spec(d),
                None => None::<Self>,
            },
    ;
}

impl Numeric for u32 {
    open spec fn name_spec() -> Seq<char> {
        "u32"@
    }

    open spec fn err_msg_spec() -> Seq<char> {
        "Expected u32"@
    }

    open spec fn as_double_spec(self) -> int {
        self as int
    }

    open spec fn from_double_spec(d: int) -> Option<u32> {
        if 0 <= d <= u32::MAX {
            Some(d as u32)
        } else {
            None
        }
    }

    proof fn as_double_representable(self) {
        lemma2_to64_rest();
        lemma_double_int_small(self as int);
    }

    fn name() -> (s: String) {
        "u32".to_owned()
    }

    fn expected_msg() -> (s: String) {
        "Expected u32".to_owned()
    }

    fn as_double(self) -> (d: i128) {
        self as i128
    }

    fn from_value(value: &Value) -> (r: Option<u32>) {
        match value.to_number_option() {
            Some(d) => if 0 <= d && d <= u32::MAX as i128 {
                Some(d as u32)
            } else {
                None
            },
            None => None,
        }
    }
}

impl Numeric for i32 {
    open spec fn name_spec() -> Seq<char> {
        "i32"@
    }

    open spec fn err_msg_spec() -> Seq<char> {
        "Expected i32"@
    }

    open spec fn as_double_spec(self) -> int {
        self as int
    }

    open spec fn from_double_spec(d: int) -> Option<i32> {
        if i32::MIN <= d <= i32::MAX {
            Some(d as i32)
        } else {
            None
        }
    }

    proof fn as_double_representable(self) {
        lemma2_to64_rest();
        lemma_double_int_small(self as int);
    }

    fn name() -> (s: String) {
        "i32".to_owned()
    }

    fn expected_msg() -> (s: String) {
        "Expected i32".to_owned()
    }

    fn as_double(self) -> (d: i128) {
        self as i128
    }

    fn from_value(value: &Value) -> (r: Option<i32>) {
        match value.to_number_option() {
            Some(d) => if i32::MIN as i128 <= d && d <= i32::MAX as i128 {
                Some(d as i32)
            } else {
                None
            },
            None => None,
        }
    }
}

impl Numeric for u64 {
    open spec fn name_spec() -> Seq<char> {
        "u64"@
    }

    open spec fn err_msg_spec() -> Seq<char> {
        "Expected u64"@
    }

    open spec fn as_double_spec(self) -> int {
        to_double(self as int)
    }

    open spec fn from_double_spec(d: int) -> Option<u64> {
        if 0 <= d <= u64::MAX {
            Some(d as u64)
        } else {
            None
        }
    }

    proof fn as_double_representable(self) {
        lemma_to_double_representable(self as int);
    }

    fn name() -> (s: String) {
        "u64".to_owned()
    }

    fn expected_msg() -> (s: String) {
        "Expected u64".to_owned()
    }

    fn as_double(self) -> (d: i128) {
        round_u64(self) as i128
    }

    fn from_value(value: &Value) -> (r: Option<u64>) {
        match value.to_number_option() {
            Some(d) => if 0 <= d && d <= u64::MAX as i128 {
                Some(d as u64)
            } else {
                None
            },
            None => None,
        }
    }
}

impl Numeric for i64 {
    open spec fn name_spec() -> Seq<char> {
        "i64"@
    }

    open spec fn err_msg_spec() -> Seq<char> {
        "Expected i64"@
    }

    open spec fn as_double_spec(self) -> int {
        to_double(self as int)
    }

    open spec fn from_double_spec(d: int) -> Option<i64> {
        if i64::MIN <= d <= i64::MAX {
            Some(d as i64)
        } else {
            None
        }
    }

    proof fn as_double_representable(self) {
        lemma_to_double_representable(self as int);
    }

    fn name() -> (s: String) {
        "i64".to_owned()
    }

    fn expected_msg() -> (s: String) {
        "Expected i64".to_owned()
    }

    fn as_double(self) -> (d: i128) {
        if self >= 0 {
            round_u64(self as u64) as i128
        } else {
            let m: u64 = (-(self as i128)) as u64;
            -(round_u64(m) as i128)
        }
    }

    fn from_value(value: &Value) -> (r: Option<i64>) {
        match value.to_number_option() {
            Some(d) => if i64::MIN as i128 <= d && d <= i64::MAX as i128 {
                Some(d as i64)
            } else {
                None
            },
            None => None,
        }
    }
}

impl Numeric for usize {
    open spec fn name_spec() -> Seq<char> {
        "usize"@
    }

    open spec fn err_msg_spec() -> Seq<char> {
        "Expected usize"@
    }

    open spec fn as_double_spec(self) -> int {
        to_double(self as int)
    }

    open spec fn from_double_spec(d: int) -> Option<usize> {
        if 0 <= d <= usize::MAX {
            Some(d as usize)
        } else {
            None
        }
    }

    proof fn as_double_representable(self) {
        lemma_to_double_representable(self as int);
    }

    fn name() -> (s: String) {
        "usize".to_owned()
    }

    fn expected_msg() -> (s: String) {
        "Expected usize".to_owned()
    }

    fn as_double(self) -> (d: i128) {
        round_u64(self as u64) as i128
    }

    fn from_value(value: &Value) -> (r: Option<usize>) {
        match value.to_number_option() {
            Some(d) => if 0 <= d && d <= usize::MAX as i128 {
                Some(d as usize)
            } else {
                None
            },
            None => None,
        }
    }
}

impl Numeric for isize {
    open spec fn name_spec() -> Seq<char> {
        "isize"@
    }

    open spec fn err_msg_spec() -> Seq<char> {
        "Expected isize"@
    }

    open spec fn as_double_spec(self) -> int {
        to_double(self as int)
    }

    open spec fn from_double_spec(d: int) -> Option<isize> {
        if isize::MIN <= d <= isize::MAX {
            Some(d as isize)
        } else {
            None
        }
    }

    proof fn as_double_representable(self) {
        lemma_to_double_representable(self as int);
    }

    fn name() -> (s: String) {
        "isize".to_owned()
    }

    fn expected_msg() -> (s: String) {
        "Expected isize".to_owned()
    }

    fn as_double(self) -> (d: i128) {
        if self >= 0 {
            round_u64(self as u64) as i128
        } else {
            let m: u64 = (-(self as i128)) as u64;
            -(round_u64(m) as i128)
        }
    }

    fn from_value(value: &Value) -> (r: Option<isize>) {
        match value.to_number_option() {
            Some(d) => if isize::MIN as i128 <= d && d <= isize::MAX as i128 {
                Some(d as isize)
            } else {
                None
            },
            None => None,
        }
    }
}

impl<T: Numeric> DeepView for Number<T> {
    type V = Number<T>;

    open spec fn deep_view(&self) -> Number<T> {
        *self
    }
}

impl<T: Numeric> ToV8 for Number<T> {
    open spec fn to_v8_spec(self) -> Result<ValueSpec, SpecErr> {
        Ok(ValueSpec::Number(self.0.as_double_spec()))
    }

    open spec fn alloc_count(self) -> nat {
        1
    }

    /// Always succeeds: every numeric value has a nearest double,
    /// accepting precision loss outside the double's exact range.
    fn to_v8(self, scope: &mut Scope) -> (r: Result<Value, ConvError>) {
        proof {
            self.0.as_double_representable();
        }
        Ok(scope.alloc_number(self.0.as_double()))
    }
}

impl<T: Numeric> FromV8 for Number<T> {
    open spec fn from_v8_spec(value: ValueSpec) -> Result<Number<T>, SpecErr> {
        match value.read_number() {
            Some(d) => match T::from_double_spec(d) {
                Some(x) => Ok(Number(x)),
                None => Err(SpecErr::TypeMismatch(T::err_msg_spec())),
            },
            None => Err(SpecErr::TypeMismatch(T::err_msg_spec())),
        }
    }

    /// Reads the engine value as a double-precision number; fails with a
    /// type-mismatch error naming the expected type otherwise.
    fn from_v8(scope: &mut Scope, value: &Value) -> (r: Result<Number<T>, ConvError>) {
        match T::from_value(value) {
            Some(x) => Ok(Number(x)),
            None => Err(ConvError::TypeMismatch { message: T::expected_msg() }),
        }
    }
}

/// Outbound-then-inbound through the general-numeric adapter is exactly
/// the composition of the conversion to the nearest double with the
/// typed read-back.
pub proof fn lemma_number_round_trip<T: Numeric>(v: T)
    ensures
        Number(v).to_v8_spec() == Ok::<ValueSpec, SpecErr>(ValueSpec::Number(v.as_double_spec())),
        <Number<T> as FromV8>::from_v8_spec(ValueSpec::Number(v.as_double_spec())) == match T::from_double_spec(
            v.as_double_spec(),
        ) {
            Some(x) => Ok::<Number<T>, SpecErr>(Number(x)),
            None => Err::<Number<T>, SpecErr>(SpecErr::TypeMismatch(T::err_msg_spec())),
        },
{
}

/// A `u32` always round-trips exactly through the general-numeric
/// adapter.
pub proof fn lemma_number_u32_exact(v: u32)
    ensures
        <u32 as Numeric>::from_double_spec(v.as_double_spec()) == Some(v),
{
}

/// An `i32` always round-trips exactly through the general-numeric
/// adapter.
pub proof fn lemma_number_i32_exact(v: i32)
    ensures
        <i32 as Numeric>::from_double_spec(v.as_double_spec()) == Some(v),
{
}

/// A `u64` within the exact integer range of a double round-trips
/// exactly through the general-numeric adapter.
pub proof fn lemma_number_u64_exact(v: u64)
    requires
        v <= 0x20000000000000,
    ensures
        <u64 as Numeric>::from_double_spec(v.as_double_spec()) == Some(v),
{
    lemma2_to64();
    lemma2_to64_rest();
    lemma_to_double_exact(v as int);
}

/// An `i64` within the exact integer range of a double round-trips
/// exactly through the general-numeric adapter.
pub proof fn lemma_number_i64_exact(v: i64)
    requires
        -0x20000000000000 <= v <= 0x20000000000000,
    ensures
        <i64 as Numeric>::from_double_spec(v.as_double_spec()) == Some(v),
{
    lemma2_to64();
    lemma2_to64_rest();
    lemma_to_double_exact(v as int);
}

/// A `usize` within the exact integer range of a double round-trips
/// exactly through the general-numeric adapter.
pub proof fn lemma_number_usize_exact(v: usize)
    requires
        v <= 0x20000000000000,
    ensures
        <usize as Numeric>::from_double_spec(v.as_double_spec()) == Some(v),
{
    lemma2_to64();
    lemma2_to64_rest();
    lemma_to_double_exact(v as int);
}

/// An `isize` within the exact integer range of a double round-trips
/// exactly through the general-numeric adapter.
pub proof fn lemma_number_isize_exact(v: isize)
    requires
        -0x20000000000000 <= v <= 0x20000000000000,
    ensures
        <isize as Numeric>::from_double_spec(v.as_double_spec()) == Some(v),
{
    lemma2_to64();
    lemma2_to64_rest();
    lemma_to_double_exact(v as int);
}

} // verus!
