//! The ordered-sequence adapter: the one compound conversion.
//!
//! A native `Vec<T>` maps to the engine's indexed array and back,
//! element by element in order, through `T`'s own adapters.  Both
//! directions are atomic from the caller's point of view: the first
//! element failure aborts the whole conversion and propagates that
//! element's error, and no partially-converted native sequence is ever
//! observable.  The inbound direction builds the owned result
//! incrementally, so an abort simply drops the elements converted so
//! far, exactly once each.

use vstd::prelude::*;

use crate::convert::{FromV8, ToV8};
use crate::error::{ConvError, SpecErr};
use crate::smi::{SmallInt, Smi};
use crate::value::{Scope, Value, ValueSpec};

verus! {

/// The model of converting a native sequence outbound, element by
/// element: the engine values in order, or the first element's error.
pub open spec fn seq_to_spec<T: ToV8>(s: Seq<T>) -> Result<Seq<ValueSpec>, SpecErr>
    decreases s.len(),
{
    if s.len() == 0 {
        Ok(Seq::empty())
    } else {
        match s.first().to_v8_spec() {
            Ok(v) => match seq_to_spec::<T>(s.drop_first()) {
                Ok(rest) => Ok(seq![v].add(rest)),
                Err(e) => Err(e),
            },
            Err(e) => Err(e),
        }
    }
}

/// How many engine values a successful outbound conversion of the
/// sequence's elements allocates.
pub open spec fn seq_alloc_count<T: ToV8>(s: Seq<T>) -> nat
    decreases s.len(),
{
    if s.len() == 0 {
        0
    } else {
        seq_alloc_count::<T>(s.drop_last()) + s.last().alloc_count()
    }
}

/// The model of converting an engine array's elements inbound, element
/// by element: the native values in order, or the first element's error.
pub open spec fn seq_from_spec<T: FromV8>(s: Seq<ValueSpec>) -> Result<Seq<T::V>, SpecErr>
    decreases s.len(),
{
    if s.len() == 0 {
        Ok(Seq::empty())
    } else {
        match T::from_v8_spec(s.first()) {
            Ok(x) => match seq_from_spec::<T>(s.drop_first()) {
                Ok(rest) => Ok(seq![x].add(rest)),
                Err(e) => Err(e),
            },
            Err(e) => Err(e),
        }
    }
}

/// Extending a successfully-converted outbound prefix by one element
/// converts that element next: success appends its engine value, failure
/// fails with exactly its error.
pub proof fn lemma_seq_to_snoc<T: ToV8>(s: Seq<T>, i: int)
    requires
        0 <= i < s.len(),
        seq_to_spec::<T>(s.take(i)) is Ok,
    ensures
        match s[i].to_v8_spec() {
            Ok(v) => seq_to_spec::<T>(s.take(i + 1)) == Ok::<Seq<ValueSpec>, SpecErr>(
                seq_to_spec::<T>(s.take(i))->Ok_0.push(v),
            ),
            Err(e) => seq_to_spec::<T>(s.take(i + 1)) == Err::<Seq<ValueSpec>, SpecErr>(e),
        },
    decreases i,
{
    if i == 0 {
        assert(s.take(0) =~= Seq::<T>::empty());
        assert(s.take(1).first() == s[0]);
        assert(s.take(1).drop_first() =~= s.take(0));
        match s[0].to_v8_spec() {
            Ok(v) => {
                assert(seq![v].add(Seq::empty()) =~= Seq::<ValueSpec>::empty().push(v));
            },
            Err(e) => {},
        }
    } else {
        let t = s.drop_first();
        assert(s.take(i).first() == s[0]);
        assert(s.take(i + 1).first() == s[0]);
        assert(s.take(i).drop_first() =~= t.take(i - 1));
        assert(s.take(i + 1).drop_first() =~= t.take(i));
        assert(t[i - 1] == s[i]);
        lemma_seq_to_snoc::<T>(t, i - 1);
        match s[0].to_v8_spec() {
            Ok(v0) => {
                let p = seq_to_spec::<T>(t.take(i - 1))->Ok_0;
                match s[i].to_v8_spec() {
                    Ok(v) => {
                        assert(seq![v0].add(p.push(v)) =~= seq![v0].add(p).push(v));
                    },
                    Err(e) => {},
                }
            },
            Err(e) => {
                assert(false);
            },
        }
    }
}

/// When an outbound prefix converts but the next element fails, the
/// whole sequence fails with exactly that element's error: conversion
/// stops at the first failure.
pub proof fn lemma_seq_to_first_err<T: ToV8>(s: Seq<T>, i: int, e: SpecErr)
    requires
        0 <= i < s.len(),
        seq_to_spec::<T>(s.take(i)) is Ok,
        s[i].to_v8_spec() == Err::<ValueSpec, SpecErr>(e),
    ensures
        seq_to_spec::<T>(s) == Err::<Seq<ValueSpec>, SpecErr>(e),
    decreases i,
{
    if i == 0 {
        assert(s.first() == s[0]);
    } else {
        let t = s.drop_first();
        assert(s.take(i).first() == s[0]);
        assert(s.take(i).drop_first() =~= t.take(i - 1));
        assert(t[i - 1] == s[i]);
        lemma_seq_to_first_err::<T>(t, i - 1, e);
    }
}

/// One more element adds its own allocation count.
pub proof fn lemma_seq_alloc_snoc<T: ToV8>(s: Seq<T>, i: int)
    requires
        0 <= i < s.len(),
    ensures
        seq_alloc_count::<T>(s.take(i + 1)) == seq_alloc_count::<T>(s.take(i))
            + s[i].alloc_count(),
{
    assert(s.take(i + 1).drop_last() =~= s.take(i));
    assert(s.take(i + 1).last() == s[i]);
}

/// Extending a successfully-converted inbound prefix by one element
/// converts that element next: success appends its native value, failure
/// fails with exactly its error.
pub proof fn lemma_seq_from_snoc<T: FromV8>(s: Seq<ValueSpec>, i: int)
    requires
        0 <= i < s.len(),
        seq_from_spec::<T>(s.take(i)) is Ok,
    ensures
        match T::from_v8_spec(s[i]) {
            Ok(x) => seq_from_spec::<T>(s.take(i + 1)) == Ok::<Seq<T::V>, SpecErr>(
                seq_from_spec::<T>(s.take(i))->Ok_0.push(x),
            ),
            Err(e) => seq_from_spec::<T>(s.take(i + 1)) == Err::<Seq<T::V>, SpecErr>(e),
        },
    decreases i,
{
    if i == 0 {
        assert(s.take(0) =~= Seq::<ValueSpec>::empty());
        assert(s.take(1).first() == s[0]);
        assert(s.take(1).drop_first() =~= s.take(0));
        match T::from_v8_spec(s[0]) {
            Ok(x) => {
                assert(seq![x].add(Seq::empty()) =~= Seq::<T::V>::empty().push(x));
            },
            Err(e) => {},
        }
    } else {
        let t = s.drop_first();
        assert(s.take(i).first() == s[0]);
        assert(s.take(i + 1).first() == s[0]);
        assert(s.take(i).drop_first() =~= t.take(i - 1));
        assert(s.take(i + 1).drop_first() =~= t.take(i));
        assert(t[i - 1] == s[i]);
        lemma_seq_from_snoc::<T>(t, i - 1);
        match T::from_v8_spec(s[0]) {
            Ok(x0) => {
                let p = seq_from_spec::<T>(t.take(i - 1))->Ok_0;
                match T::from_v8_spec(s[i]) {
                    Ok(x) => {
                        assert(seq![x0].add(p.push(x)) =~= seq![x0].add(p).push(x));
                    },
                    Err(e) => {},
                }
            },
            Err(e) => {
                assert(false);
            },
        }
    }
}

/// When an inbound prefix converts but the next element fails, the whole
/// sequence fails with exactly that element's error: conversion stops at
/// the first failure, and the prefix is discarded.
pub proof fn lemma_seq_from_first_err<T: FromV8>(s: Seq<ValueSpec>, i: int, e: SpecErr)
    requires
        0 <= i < s.len(),
        seq_from_spec::<T>(s.take(i)) is Ok,
        T::from_v8_spec(s[i]) == Err::<T::V, SpecErr>(e),
    ensures
        seq_from_spec::<T>(s) == Err::<Seq<T::V>, SpecErr>(e),
    decreases i,
{
    if i == 0 {
        assert(s.first() == s[0]);
    } else {
        let t = s.drop_first();
        assert(s.take(i).first() == s[0]);
        assert(s.take(i).drop_first() =~= t.take(i - 1));
        assert(t[i - 1] == s[i]);
        lemma_seq_from_first_err::<T>(t, i - 1, e);
    }
}

impl<T: ToV8> ToV8 for Vec<T> {
    open spec fn to_v8_spec(self) -> Result<ValueSpec, SpecErr> {
        match seq_to_spec::<T>(self@) {
            Ok(vs) => Ok(ValueSpec::Array(vs)),
            Err(e) => Err(e),
        }
    }

    open spec fn alloc_count(self) -> nat {
        1 + seq_alloc_count::<T>(self@)
    }

    /// Converts each element in order, stopping at the first element
    /// failure and propagating that element's error; on success produces
    /// one engine array holding all converted elements in the original
    /// order.
    #[verifier::loop_isolation(false)]
    fn to_v8(self, scope: &mut Scope) -> (r: Result<Value, ConvError>) {
        let ghost orig: Seq<T> = self@;
        let mut rest = self;
        let mut buf: Vec<Value> = Vec::new();
        proof {
            assert(orig.take(0) =~= Seq::<T>::empty());
            assert(buf.deep_view() =~= Seq::<ValueSpec>::empty());
            assert(rest@ =~= orig.subrange(0, orig.len() as int));
        }
        while rest.len() > 0
            invariant
                buf@.len() + rest@.len() == orig.len(),
                rest@ == orig.subrange(buf@.len() as int, orig.len() as int),
                seq_to_spec::<T>(orig.take(buf@.len() as int)) == Ok::<Seq<ValueSpec>, SpecErr>(
                    buf.deep_view(),
                ),
                forall|j: int| 0 <= j < buf@.len() ==> (#[trigger] buf.deep_view()[j]).wf(),
                scope.allocs() == old(scope).allocs() + seq_alloc_count::<T>(
                    orig.take(buf@.len() as int),
                ),
            decreases rest@.len(),
        {
            let ghost k = buf@.len() as int;
            let ghost prevdv = buf.deep_view();
            let x = rest.remove(0);
            proof {
                assert(x == orig[k]);
                assert(rest@ =~= orig.subrange(k + 1, orig.len() as int));
                lemma_seq_to_snoc::<T>(orig, k);
                lemma_seq_alloc_snoc::<T>(orig, k);
            }
            match x.to_v8(scope) {
                Ok(v) => {
                    let ghost vm = v@;
                    buf.push(v);
                    proof {
                        assert(buf.deep_view() =~= prevdv.push(vm));
                    }
                },
                Err(e) => {
                    proof {
                        lemma_seq_to_first_err::<T>(orig, k, e@);
                        assert(seq_to_spec::<T>(orig) == Err::<Seq<ValueSpec>, SpecErr>(e@));
                    }
                    return Err(e);
                },
            }
        }
        proof {
            assert(orig.take(orig.len() as int) =~= orig);
        }
        let ghost bdv = buf.deep_view();
        let arr = scope.alloc_array(buf);
        proof {
            assert(arr@->Array_0 =~= bdv);
        }
        Ok(arr)
    }
}

impl<T: FromV8> FromV8 for Vec<T> {
    open spec fn from_v8_spec(value: ValueSpec) -> Result<Seq<T::V>, SpecErr> {
        match value {
            ValueSpec::Array(elems) => match seq_from_spec::<T>(elems) {
                Ok(s) => Ok(s),
                Err(e) => Err(SpecErr::Element(e.message())),
            },
            _ => Err(SpecErr::TypeMismatch("Failed to convert from V8"@)),
        }
    }

    /// Validates that the engine value is an array, then converts each
    /// element in order.  The first element failure aborts the whole
    /// operation: the elements converted so far are dropped, exactly
    /// once each, and the element's error is returned wrapped, so no
    /// partially-converted sequence is observable.
    #[verifier::loop_isolation(false)]
    fn from_v8(scope: &mut Scope, value: &Value) -> (r: Result<Vec<T>, ConvError>) {
        match value {
            Value::Array(elems) => {
                let ghost ems: Seq<ValueSpec> = elems.deep_view();
                proof {
                    assert(value@->Array_0 =~= ems);
                    assert(value@ == ValueSpec::Array(ems));
                }
                let n = elems.len();
                let mut out: Vec<T> = Vec::new();
                proof {
                    assert(ems.take(0) =~= Seq::<ValueSpec>::empty());
                    assert(out.deep_view() =~= Seq::<T::V>::empty());
                }
                let mut i: usize = 0;
                while i < n
                    invariant
                        n == elems@.len(),
                        ems == elems.deep_view(),
                        i <= n,
                        out@.len() == i,
                        seq_from_spec::<T>(ems.take(i as int)) == Ok::<Seq<T::V>, SpecErr>(
                            out.deep_view(),
                        ),
                        scope.allocs() == old(scope).allocs(),
                    decreases n - i,
                {
                    proof {
                        assert(ems[i as int] == elems@[i as int]@);
                        lemma_seq_from_snoc::<T>(ems, i as int);
                    }
                    let ghost prevdv = out.deep_view();
                    let v = &elems[i];
                    match T::from_v8(scope, v) {
                        Ok(x) => {
                            let ghost xm = x.deep_view();
                            out.push(x);
                            i += 1;
                            proof {
                                assert(out.deep_view() =~= prevdv.push(xm));
                            }
                        },
                        Err(e) => {
                            proof {
                                lemma_seq_from_first_err::<T>(ems, i as int, e@);
                                assert(seq_from_spec::<T>(ems) == Err::<Seq<T::V>, SpecErr>(e@));
                            }
                            return Err(ConvError::ElementFailure { source: Box::new(e) });
                        },
                    }
                }
                proof {
                    assert(ems.take(n as int) =~= ems);
                }
                Ok(out)
            },
            _ => Err(ConvError::TypeMismatch { message: "Failed to convert from V8".to_owned() }),
        }
    }
}

/// A successful outbound conversion preserves length and order exactly:
/// the engine array holds, at every index, the conversion of the native
/// element at that same index.
pub proof fn lemma_seq_to_elementwise<T: ToV8>(s: Seq<T>)
    requires
        seq_to_spec::<T>(s) is Ok,
    ensures
        seq_to_spec::<T>(s)->Ok_0.len() == s.len(),
        forall|i: int| 0 <= i < s.len() ==> {
            &&& (#[trigger] s[i]).to_v8_spec() is Ok
            &&& seq_to_spec::<T>(s)->Ok_0[i] == s[i].to_v8_spec()->Ok_0
        },
    decreases s.len(),
{
    if s.len() != 0 {
        lemma_seq_to_elementwise::<T>(s.drop_first());
        let all = seq_to_spec::<T>(s)->Ok_0;
        let rest = seq_to_spec::<T>(s.drop_first())->Ok_0;
        assert(all == seq![s.first().to_v8_spec()->Ok_0].add(rest));
        assert forall|i: int| 0 <= i < s.len() implies {
            &&& (#[trigger] s[i]).to_v8_spec() is Ok
            &&& seq_to_spec::<T>(s)->Ok_0[i] == s[i].to_v8_spec()->Ok_0
        } by {
            if i == 0 {
                assert(all[0] == s.first().to_v8_spec()->Ok_0);
            } else {
                assert(s.drop_first()[i - 1] == s[i]);
                assert(all[i] == rest[i - 1]);
            }
        }
    }
}

/// A successful inbound conversion preserves length and order exactly:
/// the native sequence holds, at every index, the conversion of the
/// engine element at that same index.
pub proof fn lemma_seq_from_elementwise<T: FromV8>(s: Seq<ValueSpec>)
    requires
        seq_from_spec::<T>(s) is Ok,
    ensures
        seq_from_spec::<T>(s)->Ok_0.len() == s.len(),
        forall|i: int| 0 <= i < s.len() ==> {
            &&& T::from_v8_spec(#[trigger] s[i]) is Ok
            &&& seq_from_spec::<T>(s)->Ok_0[i] == T::from_v8_spec(s[i])->Ok_0
        },
    decreases s.len(),
{
    if s.len() != 0 {
        lemma_seq_from_elementwise::<T>(s.drop_first());
        let all = seq_from_spec::<T>(s)->Ok_0;
        let rest = seq_from_spec::<T>(s.drop_first())->Ok_0;
        assert(all == seq![T::from_v8_spec(s.first())->Ok_0].add(rest));
        assert forall|i: int| 0 <= i < s.len() implies {
            &&& T::from_v8_spec(#[trigger] s[i]) is Ok
            &&& seq_from_spec::<T>(s)->Ok_0[i] == T::from_v8_spec(s[i])->Ok_0
        } by {
            if i == 0 {
                assert(all[0] == T::from_v8_spec(s.first())->Ok_0);
            } else {
                assert(s.drop_first()[i - 1] == s[i]);
                assert(all[i] == rest[i - 1]);
            }
        }
    }
}

/// Round trip for sequences of 32-bit immediates, element level: every
/// sequence of `Smi<i32>` values converts outbound without failure, and
/// reading the resulting engine values back yields the original sequence
/// exactly.
pub proof fn lemma_seq_smi_i32_round_trip(s: Seq<Smi<i32>>)
    ensures
        seq_to_spec::<Smi<i32>>(s) is Ok,
        seq_from_spec::<Smi<i32>>(seq_to_spec::<Smi<i32>>(s)->Ok_0) == Ok::<
            Seq<Smi<i32>>,
            SpecErr,
        >(s),
    decreases s.len(),
{
    if s.len() == 0 {
        assert(s =~= Seq::<Smi<i32>>::empty());
        assert(seq_to_spec::<Smi<i32>>(s)->Ok_0 =~= Seq::<ValueSpec>::empty());
    } else {
        lemma_seq_smi_i32_round_trip(s.drop_first());
        let v0 = ValueSpec::Integer(s.first().0.as_i32_spec());
        let rest = seq_to_spec::<Smi<i32>>(s.drop_first())->Ok_0;
        let all = seq_to_spec::<Smi<i32>>(s)->Ok_0;
        assert(all == seq![v0].add(rest));
        assert(all.first() == v0);
        assert(all.drop_first() =~= rest);
        assert(seq_from_spec::<Smi<i32>>(all) == Ok::<Seq<Smi<i32>>, SpecErr>(
            seq![s.first()].add(s.drop_first()),
        ));
        assert(seq![s.first()].add(s.drop_first()) =~= s);
    }
}

/// Round trip for sequences of 32-bit immediates, adapter level: for any
/// native `Vec` of `Smi<i32>` values, inbound conversion of the outbound
/// result yields the original sequence.
pub proof fn lemma_vec_smi_i32_round_trip(v: Vec<Smi<i32>>)
    ensures
        v.to_v8_spec() is Ok,
        <Vec<Smi<i32>> as FromV8>::from_v8_spec(v.to_v8_spec()->Ok_0) == Ok::<
            Seq<Smi<i32>>,
            SpecErr,
        >(v.deep_view()),
{
    lemma_seq_smi_i32_round_trip(v@);
    assert(v.deep_view() =~= v@);
}

} // verus!
