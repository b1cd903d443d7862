//! The model of the engine side of the boundary: engine-managed values and
//! the conversion scope.
//!
//! An engine value is opaque to native code; all that this library ever
//! reads of one is its numeric content, its truthiness, and (for arrays)
//! its length and elements.  [`Value`] carries exactly those observables
//! as plain data, so that the conversion rules can be stated and proved
//! over them.
use vstd::prelude::*;

verus! {

/// The ghost model of an engine value, over which every conversion rule is
/// stated.
///
/// An engine number is a double-precision float.  Every number this
/// library allocates or reads is integer-valued, so the model carries the
/// double's exact integer value as an unbounded `int`.
pub enum ValueSpec {
    /// The engine's compact immediate integer.
    Integer(i32),
    /// The engine's double-precision number, integer-valued.
    Number(int),
    /// The engine's boolean.
    Boolean(bool),
    /// The engine's indexed array.
    Array(Seq<ValueSpec>),
    /// An engine value of any other kind (string, object, null, ...),
    /// reduced to the one thing this library reads of it: its truthiness.
    Other { truthy: bool },
}

/// An engine-managed value, as this library sees it.
///
/// Native code never inspects an engine value directly; it goes through
/// the read operations below, which mirror the engine's own accessors:
/// read as a 32-bit integer, read as a number, test truthiness, index an
/// array.
#[derive(Debug, PartialEq)]
pub enum Value {
    /// The engine's compact immediate integer.
    Integer(i32),
    /// The engine's double-precision number.  The kinds of numbers this
    /// library allocates and reads are integer-valued doubles, carried
    /// here exactly.
    Number(i128),
    /// The engine's boolean.
    Boolean(bool),
    /// The engine's indexed array.
    Array(Vec<Value>),
    /// An engine value of any other kind, reduced to its truthiness.
    Other { truthy: bool },
}

/// The model of an engine value.
pub open spec fn value_model(v: Value) -> ValueSpec
    decreases v,
{
    match v {
        Value::Integer(i) => ValueSpec::Integer(i),
        Value::Number(d) => ValueSpec::Number(d as int),
        Value::Boolean(b) => ValueSpec::Boolean(b),
        Value::Array(elems) => ValueSpec::Array(
            Seq::new(
                elems@.len(),
                |i: int|
                    if 0 <= i < elems@.len() {
                        value_model(elems@[i])
                    } else {
                        ValueSpec::Other { truthy: false }
                    },
            ),
        ),
        Value::Other { truthy } => ValueSpec::Other { truthy },
    }
}

impl View for Value {
    type V = ValueSpec;

    open spec fn view(&self) -> ValueSpec {
        value_model(*self)
    }
}

impl DeepView for Value {
    type V = ValueSpec;

    open spec fn deep_view(&self) -> ValueSpec {
        value_model(*self)
    }
}

impl ValueSpec {
    /// Well-formedness: the value could live in the engine's heap.  A
    /// number must be exactly representable as a double; an array's
    /// elements must themselves be well-formed.  Every value this
    /// library allocates is well-formed.
    pub open spec fn wf(self) -> bool
        decreases self,
    {
        match self {
            ValueSpec::Number(d) => crate::double::is_double_int(d),
            ValueSpec::Array(s) => forall|i: int| 0 <= i < s.len() ==> #[trigger] s[i].wf(),
            _ => true,
        }
    }

    /// The engine's truthiness rule: everything is truthy except `false`,
    /// a zero number, and the non-numeric values that the engine defines
    /// as falsy (carried in the `Other` variant).
    pub open spec fn truthy(self) -> bool {
        match self {
            ValueSpec::Integer(i) => i != 0,
            ValueSpec::Number(d) => d != 0,
            ValueSpec::Boolean(b) => b,
            ValueSpec::Array(_) => true,
            ValueSpec::Other { truthy } => truthy,
        }
    }

    /// What reading this value as a 32-bit signed integer yields: its
    /// numeric value when it is a number representable in `i32`, nothing
    /// otherwise.
    pub open spec fn read_i32(self) -> Option<i32> {
        match self {
            ValueSpec::Integer(i) => Some(i),
            ValueSpec::Number(d) => if i32::MIN <= d <= i32::MAX {
                Some(d as i32)
            } else {
                None
            },
            _ => None,
        }
    }

    /// The numeric value of this engine value, when it is a number.
    pub open spec fn read_number(self) -> Option<int> {
        match self {
            ValueSpec::Integer(i) => Some(i as int),
            ValueSpec::Number(d) => Some(d),
            _ => None,
        }
    }
}

impl Value {
    /// Tests the value's truthiness, the engine's own coercion to boolean.
    pub fn is_truthy(&self) -> (r: bool)
        ensures
            r == self@.truthy(),
    {
        match self {
            Value::Integer(i) => *i != 0,
            Value::Number(d) => *d != 0,
            Value::Boolean(b) => *b,
            Value::Array(_) => true,
            Value::Other { truthy } => *truthy,
        }
    }

    /// Reads the value as a 32-bit signed integer, the engine's immediate
    /// integer read.
    pub fn to_i32_option(&self) -> (r: Option<i32>)
        ensures
            r == self@.read_i32(),
    {
        match self {
            Value::Integer(i) => Some(*i),
            Value::Number(d) => if i32::MIN as i128 <= *d && *d <= i32::MAX as i128 {
                Some(*d as i32)
            } else {
                None
            },
            _ => None,
        }
    }

    /// Reads the value's numeric content, the engine's number read.
    pub fn to_number_option(&self) -> (r: Option<i128>)
        ensures
            match r {
                Some(d) => self@.read_number() == Some(d as int),
                None => self@.read_number() is None,
            },
    {
        match self {
            Value::Integer(i) => Some(*i as i128),
            Value::Number(d) => Some(*d),
            _ => None,
        }
    }

    /// Whether this value is the engine's indexed array.
    pub fn is_array(&self) -> (r: bool)
        ensures
            r == (self@ is Array),
    {
        match self {
            Value::Array(_) => true,
            _ => false,
        }
    }
}

/// The conversion context: a mutably borrowed handle into the engine's
/// value-allocation machinery, borrowed for the duration of a single
/// conversion call.
///
/// The model records one observable of the engine heap: how many values
/// have been allocated through this scope.
pub struct Scope {
    allocated: Ghost<nat>,
}

impl Scope {
    /// The number of engine values allocated through this scope.
    pub closed spec fn allocs(self) -> nat {
        self.allocated@
    }

    /// Opens a fresh scope.
    pub fn new() -> (s: Scope)
        ensures
            s.allocs() == 0,
    {
        Scope { allocated: Ghost(0) }
    }

    /// Allocates the engine's immediate-integer value.
    pub fn alloc_integer(&mut self, i: i32) -> (v: Value)
        ensures
            v == Value::Integer(i),
            final(self).allocs() == old(self).allocs() + 1,
    {
        self.allocated = Ghost(self.allocated@ + 1);
        Value::Integer(i)
    }

    /// Allocates the engine's double-precision number value.
    pub fn alloc_number(&mut self, d: i128) -> (v: Value)
        ensures
            v == Value::Number(d),
            final(self).allocs() == old(self).allocs() + 1,
    {
        self.allocated = Ghost(self.allocated@ + 1);
        Value::Number(d)
    }

    /// Allocates the engine's boolean value.
    pub fn alloc_boolean(&mut self, b: bool) -> (v: Value)
        ensures
            v == Value::Boolean(b),
            final(self).allocs() == old(self).allocs() + 1,
    {
        self.allocated = Ghost(self.allocated@ + 1);
        Value::Boolean(b)
    }

    /// Allocates the engine's indexed-array value from already-converted
    /// elements.
    pub fn alloc_array(&mut self, elems: Vec<Value>) -> (v: Value)
        ensures
            v == Value::Array(elems),
            final(self).allocs() == old(self).allocs() + 1,
    {
        self.allocated = Ghost(self.allocated@ + 1);
        Value::Array(elems)
    }
}

} // verus!
