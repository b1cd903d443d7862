//! The small-integer adapter family.
//!
//! `Smi<T>` marks a native integral value for encoding as the engine's
//! compact immediate-integer representation: no engine-heap allocation
//! beyond the immediate itself, at the price of passing through a 32-bit
//! signed intermediate.  Outbound conversion always succeeds and silently
//! wraps out-of-range values through that intermediate; the exact
//! wraparound is stated below.  [`CheckedSmi`] is the bounds-enforcing
//! companion that fails instead of wrapping.

use vstd::prelude::*;

use crate::convert::{FromV8, ToV8};
use crate::error::{ConvError, SpecErr};
use crate::value::{Scope, Value, ValueSpec};

verus! {

/// Marks a numeric value as being serialized as the engine's compact
/// immediate integer.
#[derive(Debug, Clone, Copy, PartialEq, Eq, PartialOrd, Ord, Hash)]
pub struct Smi<T: SmallInt>(pub T);

/// A native integral type that can ride the engine's immediate-integer
/// representation, by reinterpretation through a 32-bit signed
/// intermediate.
pub trait SmallInt: Sized + Copy {
    /// The type's displayable name, used verbatim in error messages.
    spec fn name_spec() -> Seq<char>;

    /// The description carried by a type-mismatch failure for this type.
    spec fn err_msg_spec() -> Seq<char>;

    /// The value reinterpreted into the 32-bit signed intermediate:
    /// truncation to the low 32 bits.
    spec fn as_i32_spec(self) -> i32;

    /// The intermediate reinterpreted back into this type: truncation or
    /// sign-extension to this type's width.
    spec fn from_i32_spec(v: i32) -> Self;

    /// The type's displayable name.
    fn name() -> (s: String)
        ensures
            s@ == Self::name_spec(),
    ;

    /// The description of a type-mismatch failure for this type.
    fn expected_msg() -> (s: String)
        ensures
            s@ == Self::err_msg_spec(),
    ;

    /// Reinterprets the value into the 32-bit signed intermediate.
    fn as_i32(self) -> (r: i32)
        ensures
            r == self.as_i32_spec(),
    ;

    /// Reinterprets the intermediate back into this type.
    fn from_i32(v: i32) -> (r: Self)
        ensures
            r == Self::from_i32_spec(v),
    ;
}

impl SmallInt for u8 {
    open spec fn name_spec() -> Seq<char> {
        "u8"@
    }

    open spec fn err_msg_spec() -> Seq<char> {
        "Expected u8"@
    }

    open spec fn as_i32_spec(self) -> i32 {
        self as i32
    }

    open spec fn from_i32_spec(v: i32) -> u8 {
        v as u8
    }

    fn name() -> (s: String) {
        "u8".to_owned()
    }

    fn expected_msg() -> (s: String) {
        "Expected u8".to_owned()
    }

    fn as_i32(self) -> (r: i32) {
        self as i32
    }

    fn from_i32(v: i32) -> (r: u8) {
        #[verifier::truncate] (v as u8)
    }
}

impl SmallInt for u16 {
    open spec fn name_spec() -> Seq<char> {
        "u16"@
    }

    open spec fn err_msg_spec() -> Seq<char> {
        "Expected u16"@
    }

    open spec fn as_i32_spec(self) -> i32 {
        self as i32
    }

    open spec fn from_i32_spec(v: i32) -> u16 {
        v as u16
    }

    fn name() -> (s: String) {
        "u16".to_owned()
    }

    fn expected_msg() -> (s: String) {
        "Expected u16".to_owned()
    }

    fn as_i32(self) -> (r: i32) {
        self as i32
    }

    fn from_i32(v: i32) -> (r: u16) {
        #[verifier::truncate] (v as u16)
    }
}

impl SmallInt for u32 {
    open spec fn name_spec() -> Seq<char> {
        "u32"@
    }

    open spec fn err_msg_spec() -> Seq<char> {
        "Expected u32"@
    }

    open spec fn as_i32_spec(self) -> i32 {
        self as i32
    }

    open spec fn from_i32_spec(v: i32) -> u32 {
        v as u32
    }

    fn name() -> (s: String) {
        "u32".to_owned()
    }

    fn expected_msg() -> (s: String) {
        "Expected u32".to_owned()
    }

    fn as_i32(self) -> (r: i32) {
        #[verifier::truncate] (self as i32)
    }

    fn from_i32(v: i32) -> (r: u32) {
        #[verifier::truncate] (v as u32)
    }
}

impl SmallInt for u64 {
    open spec fn name_spec() -> Seq<char> {
        "u64"@
    }

    open spec fn err_msg_spec() -> Seq<char> {
        "Expected u64"@
    }

    open spec fn as_i32_spec(self) -> i32 {
        self as i32
    }

    open spec fn from_i32_spec(v: i32) -> u64 {
        v as u64
    }

    fn name() -> (s: String) {
        "u64".to_owned()
    }

    fn expected_msg() -> (s: String) {
        "Expected u64".to_owned()
    }

    fn as_i32(self) -> (r: i32) {
        #[verifier::truncate] (self as i32)
    }

    fn from_i32(v: i32) -> (r: u64) {
        #[verifier::truncate] (v as u64)
    }
}

impl SmallInt for usize {
    open spec fn name_spec() -> Seq<char> {
        "usize"@
    }

    open spec fn err_msg_spec() -> Seq<char> {
        "Expected usize"@
    }

    open spec fn as_i32_spec(self) -> i32 {
        self as i32
    }

    open spec fn from_i32_spec(v: i32) -> usize {
        v as usize
    }

    fn name() -> (s: String) {
        "usize".to_owned()
    }

    fn expected_msg() -> (s: String) {
        "Expected usize".to_owned()
    }

    fn as_i32(self) -> (r: i32) {
        #[verifier::truncate] (self as i32)
    }

    fn from_i32(v: i32) -> (r: usize) {
        #[verifier::truncate] (v as usize)
    }
}

impl SmallInt for i8 {
    open spec fn name_spec() -> Seq<char> {
        "i8"@
    }

    open spec fn err_msg_spec() -> Seq<char> {
        "Expected i8"@
    }

    open spec fn as_i32_spec(self) -> i32 {
        self as i32
    }

    open spec fn from_i32_spec(v: i32) -> i8 {
        v as i8
    }

    fn name() -> (s: String) {
        "i8".to_owned()
    }

    fn expected_msg() -> (s: String) {
        "Expected i8".to_owned()
    }

    fn as_i32(self) -> (r: i32) {
        self as i32
    }

    fn from_i32(v: i32) -> (r: i8) {
        #[verifier::truncate] (v as i8)
    }
}

impl SmallInt for i16 {
    open spec fn name_spec() -> Seq<char> {
        "i16"@
    }

    open spec fn err_msg_spec() -> Seq<char> {
        "Expected i16"@
    }

    open spec fn as_i32_spec(self) -> i32 {
        self as i32
    }

    open spec fn from_i32_spec(v: i32) -> i16 {
        v as i16
    }

    fn name() -> (s: String) {
        "i16".to_owned()
    }

    fn expected_msg() -> (s: String) {
        "Expected i16".to_owned()
    }

    fn as_i32(self) -> (r: i32) {
        self as i32
    }

    fn from_i32(v: i32) -> (r: i16) {
        #[verifier::truncate] (v as i16)
    }
}

impl SmallInt for i32 {
    open spec fn name_spec() -> Seq<char> {
        "i32"@
    }

    open spec fn err_msg_spec() -> Seq<char> {
        "Expected i32"@
    }

    open spec fn as_i32_spec(self) -> i32 {
        self
    }

    open spec fn from_i32_spec(v: i32) -> i32 {
        v
    }

    fn name() -> (s: String) {
        "i32".to_owned()
    }

    fn expected_msg() -> (s: String) {
        "Expected i32".to_owned()
    }

    fn as_i32(self) -> (r: i32) {
        self
    }

    fn from_i32(v: i32) -> (r: i32) {
        v
    }
}

impl SmallInt for i64 {
    open spec fn name_spec() -> Seq<char> {
        "i64"@
    }

    open spec fn err_msg_spec() -> Seq<char> {
        "Expected i64"@
    }

    open spec fn as_i32_spec(self) -> i32 {
        self as i32
    }

    open spec fn from_i32_spec(v: i32) -> i64 {
        v as i64
    }

    fn name() -> (s: String) {
        "i64".to_owned()
    }

    fn expected_msg() -> (s: String) {
        "Expected i64".to_owned()
    }

    fn as_i32(self) -> (r: i32) {
        #[verifier::truncate] (self as i32)
    }

    fn from_i32(v: i32) -> (r: i64) {
        v as i64
    }
}

impl SmallInt for isize {
    open spec fn name_spec() -> Seq<char> {
        "isize"@
    }

    open spec fn err_msg_spec() -> Seq<char> {
        "Expected isize"@
    }

    open spec fn as_i32_spec(self) -> i32 {
        self as i32
    }

    open spec fn from_i32_spec(v: i32) -> isize {
        v as isize
    }

    fn name() -> (s: String) {
        "isize".to_owned()
    }

    fn expected_msg() -> (s: String) {
        "Expected isize".to_owned()
    }

    fn as_i32(self) -> (r: i32) {
        #[verifier::truncate] (self as i32)
    }

    fn from_i32(v: i32) -> (r: isize) {
        v as isize
    }
}

impl<T: SmallInt> DeepView for Smi<T> {
    type V = Smi<T>;

    open spec fn deep_view(&self) -> Smi<T> {
        *self
    }
}

impl<T: SmallInt> ToV8 for Smi<T> {
    open spec fn to_v8_spec(self) -> Result<ValueSpec, SpecErr> {
        Ok(ValueSpec::Integer(self.0.as_i32_spec()))
    }

    open spec fn alloc_count(self) -> nat {
        1
    }

    /// Always succeeds: every integral value has an immediate-integer
    /// encoding, out-of-range values wrapping through the 32-bit signed
    /// intermediate.
    fn to_v8(self, scope: &mut Scope) -> (r: Result<Value, ConvError>) {
        Ok(scope.alloc_integer(self.0.as_i32()))
    }
}

impl<T: SmallInt> FromV8 for Smi<T> {
    open spec fn from_v8_spec(value: ValueSpec) -> Result<Smi<T>, SpecErr> {
        match value.read_i32() {
            Some(i) => Ok(Smi(T::from_i32_spec(i))),
            None => Err(SpecErr::TypeMismatch(T::err_msg_spec())),
        }
    }

    /// Reads the engine value as an immediate integer; fails with a
    /// type-mismatch error naming the expected type when the value is
    /// not integer-like.
    fn from_v8(scope: &mut Scope, value: &Value) -> (r: Result<Smi<T>, ConvError>) {
        match value.to_i32_option() {
            Some(i) => Ok(Smi(T::from_i32(i))),
            None => Err(ConvError::TypeMismatch { message: T::expected_msg() }),
        }
    }
}

/// The bounds-enforcing companion of [`Smi`]: outbound conversion fails
/// instead of silently wrapping when the value does not fit the
/// immediate-integer range.
#[derive(Debug, Clone, Copy, PartialEq, Eq, PartialOrd, Ord, Hash)]
pub struct CheckedSmi(pub i64);

impl DeepView for CheckedSmi {
    type V = CheckedSmi;

    open spec fn deep_view(&self) -> CheckedSmi {
        *self
    }
}

impl ToV8 for CheckedSmi {
    open spec fn to_v8_spec(self) -> Result<ValueSpec, SpecErr> {
        if i32::MIN <= self.0 <= i32::MAX {
            Ok(ValueSpec::Integer(self.0 as i32))
        } else {
            Err(SpecErr::OutOfRange("Smi value out of i32 range"@))
        }
    }

    open spec fn alloc_count(self) -> nat {
        1
    }

    /// Succeeds exactly on values in the 32-bit signed range; fails with
    /// an out-of-range error otherwise.
    fn to_v8(self, scope: &mut Scope) -> (r: Result<Value, ConvError>) {
        if i32::MIN as i64 <= self.0 && self.0 <= i32::MAX as i64 {
            Ok(scope.alloc_integer(self.0 as i32))
        } else {
            Err(ConvError::OutOfRange { message: "Smi value out of i32 range".to_owned() })
        }
    }
}

impl FromV8 for CheckedSmi {
    open spec fn from_v8_spec(value: ValueSpec) -> Result<CheckedSmi, SpecErr> {
        match value.read_i32() {
            Some(i) => Ok(CheckedSmi(i as i64)),
            None => Err(SpecErr::TypeMismatch("Expected i32"@)),
        }
    }

    /// Reads the engine value as an immediate integer; never wraps, as
    /// every immediate fits the carried 64-bit value.
    fn from_v8(scope: &mut Scope, value: &Value) -> (r: Result<CheckedSmi, ConvError>) {
        match value.to_i32_option() {
            Some(i) => Ok(CheckedSmi(i as i64)),
            None => Err(ConvError::TypeMismatch { message: "Expected i32".to_owned() }),
        }
    }
}

/// Outbound-then-inbound through the small-integer adapter always
/// succeeds and yields exactly the value reinterpreted through the
/// 32-bit signed intermediate.
pub proof fn lemma_smi_round_trip<T: SmallInt>(v: T)
    ensures
        Smi(v).to_v8_spec() == Ok::<ValueSpec, SpecErr>(ValueSpec::Integer(v.as_i32_spec())),
        <Smi<T> as FromV8>::from_v8_spec(ValueSpec::Integer(v.as_i32_spec())) == Ok::<
            Smi<T>,
            SpecErr,
        >(Smi(T::from_i32_spec(v.as_i32_spec()))),
{
}

/// The exact wraparound for `u64`: the round trip keeps the low 32 bits,
/// sign-extended back to 64 bits.
pub proof fn lemma_smi_u64_wrap(v: u64)
    ensures
        v % 0x100000000 < 0x80000000 ==> <u64 as SmallInt>::from_i32_spec(v.as_i32_spec())
            == v % 0x100000000,
        v % 0x100000000 >= 0x80000000 ==> <u64 as SmallInt>::from_i32_spec(v.as_i32_spec())
            == v % 0x100000000 + 0xFFFFFFFF00000000,
{
    assert(v % 0x100000000u64 < 0x80000000u64 ==> ((v as i32) as u64) == v % 0x100000000u64)
        by (bit_vector);
    assert(v % 0x100000000u64 >= 0x80000000u64 ==> ((v as i32) as u64) == (v % 0x100000000u64)
        + 0xFFFFFFFF00000000u64) by (bit_vector);
}

/// The exact wraparound for `i64`: the round trip keeps the low 32 bits
/// of the two's-complement representation, sign-extended.
pub proof fn lemma_smi_i64_wrap(v: i64)
    ensures
        (v as u64) % 0x100000000 < 0x80000000 ==> <i64 as SmallInt>::from_i32_spec(v.as_i32_spec())
            == (v as u64) % 0x100000000,
        (v as u64) % 0x100000000 >= 0x80000000 ==> <i64 as SmallInt>::from_i32_spec(
            v.as_i32_spec(),
        ) == (v as u64) % 0x100000000 - 0x100000000,
{
    assert((v as u64) % 0x100000000u64 < 0x80000000u64 ==> ((v as i32) as i64) == ((v as u64)
        % 0x100000000u64) as i64) by (bit_vector);
    assert((v as u64) % 0x100000000u64 >= 0x80000000u64 ==> ((v as i32) as i64) == (((v as u64)
        % 0x100000000u64) as i64) - 0x100000000i64) by (bit_vector);
}

/// Round-tripping a value that already fits 32 bits is the identity; in
/// particular the adapter is lossless on `u32`.
pub proof fn lemma_smi_u32_identity(v: u32)
    ensures
        <u32 as SmallInt>::from_i32_spec(v.as_i32_spec()) == v,
{
    assert(((v as i32) as u32) == v) by (bit_vector);
}

/// Round-tripping the narrow unsigned types is the identity.
pub proof fn lemma_smi_narrow_unsigned_identity(a: u8, b: u16)
    ensures
        <u8 as SmallInt>::from_i32_spec(a.as_i32_spec()) == a,
        <u16 as SmallInt>::from_i32_spec(b.as_i32_spec()) == b,
{
    assert(((a as i32) as u8) == a) by (bit_vector);
    assert(((b as i32) as u16) == b) by (bit_vector);
}

/// Round-tripping the narrow signed types is the identity.
pub proof fn lemma_smi_narrow_signed_identity(a: i8, b: i16)
    ensures
        <i8 as SmallInt>::from_i32_spec(a.as_i32_spec()) == a,
        <i16 as SmallInt>::from_i32_spec(b.as_i32_spec()) == b,
{
    assert(((a as i32) as i8) == a) by (bit_vector);
    assert(((b as i32) as i16) == b) by (bit_vector);
}

} // verus!
