//! A runtime-typed metric value: a closed tagged union over signed and
//! unsigned 32/64-bit integers, booleans and nested sequences, with checked
//! narrowing back into each native type.
use vstd::prelude::*;
use vstd::std_specs::cmp::PartialEqSpec;
use vstd::std_specs::convert::TryFromSpec;

verus! {

/// The tag of an `MPCMetricDType`: which of the six variants is active.
#[derive(Clone, Copy, Debug, PartialEq, Eq, Structural)]
pub enum DTypeKind {
    Int32,
    Int64,
    UInt32,
    UInt64,
    Bool,
    Vec,
}

/// The failure of a narrowing conversion: the requested native type does
/// not match the active tag of the value.
#[derive(Clone, Copy, Debug, PartialEq, Eq, Structural)]
pub struct TypeMismatch {
    /// The variant whose native type was asked for.
    pub requested: DTypeKind,
    /// The variant the value actually holds.
    pub actual: DTypeKind,
}

/// The type of data stored in a column.
#[derive(Debug)]
pub enum MPCMetricDType {
    MPCInt32(i32),
    MPCInt64(i64),
    MPCUInt32(u32),
    MPCUInt64(u64),
    MPCBool(bool),
    Vec(Vec<MPCMetricDType>),
}

impl MPCMetricDType {
    /// Takes the payload out of this value as a `T`, consuming the value.
    /// For each of the six native types this succeeds exactly when the tag
    /// belongs to `T`, and otherwise fails with a `TypeMismatch` naming both
    /// tags; no numeric coercion is ever made.
    pub fn take_inner_val<T>(self) -> (r: Result<T, <T as TryFrom<MPCMetricDType>>::Error>)
        where
            T: std::convert::TryFrom<MPCMetricDType>,
            <T as TryFrom<MPCMetricDType>>::Error: std::fmt::Debug,
        ensures
            T::obeys_try_from_spec() ==> r == T::try_from_spec(self),
    {
        T::try_from(self)
    }

    /// The tag of this value, as a spec function.
    pub open spec fn spec_kind(&self) -> DTypeKind {
        match self {
            MPCMetricDType::MPCInt32(_) => DTypeKind::Int32,
            MPCMetricDType::MPCInt64(_) => DTypeKind::Int64,
            MPCMetricDType::MPCUInt32(_) => DTypeKind::UInt32,
            MPCMetricDType::MPCUInt64(_) => DTypeKind::UInt64,
            MPCMetricDType::MPCBool(_) => DTypeKind::Bool,
            MPCMetricDType::Vec(_) => DTypeKind::Vec,
        }
    }

    /// The tag of this value.
    #[verifier::when_used_as_spec(spec_kind)]
    pub fn kind(&self) -> (r: DTypeKind)
        ensures
            r == self.spec_kind(),
    {
        match self {
            MPCMetricDType::MPCInt32(_) => DTypeKind::Int32,
            MPCMetricDType::MPCInt64(_) => DTypeKind::Int64,
            MPCMetricDType::MPCUInt32(_) => DTypeKind::UInt32,
            MPCMetricDType::MPCUInt64(_) => DTypeKind::UInt64,
            MPCMetricDType::MPCBool(_) => DTypeKind::Bool,
            MPCMetricDType::Vec(_) => DTypeKind::Vec,
        }
    }
}

/// Structural equality: the tags agree and so do the payloads; two
/// sequences agree when they have the same length and agree element by
/// element, in order.
pub open spec fn values_match(a: MPCMetricDType, b: MPCMetricDType) -> bool
    decreases a,
{
    match a {
        MPCMetricDType::MPCInt32(x) => b matches MPCMetricDType::MPCInt32(y) && x == y,
        MPCMetricDType::MPCInt64(x) => b matches MPCMetricDType::MPCInt64(y) && x == y,
        MPCMetricDType::MPCUInt32(x) => b matches MPCMetricDType::MPCUInt32(y) && x == y,
        MPCMetricDType::MPCUInt64(x) => b matches MPCMetricDType::MPCUInt64(y) && x == y,
        MPCMetricDType::MPCBool(x) => b matches MPCMetricDType::MPCBool(y) && x == y,
        MPCMetricDType::Vec(xs) => b matches MPCMetricDType::Vec(ys) && xs@.len() == ys@.len()
            && forall|i: int| 0 <= i < xs@.len() ==> values_match(#[trigger] xs@[i], ys@[i]),
    }
}

fn values_equal(a: &MPCMetricDType, b: &MPCMetricDType) -> (r: bool)
    ensures
        r == values_match(*a, *b),
    decreases *a,
{
    match (a, b) {
        (MPCMetricDType::MPCInt32(x), MPCMetricDType::MPCInt32(y)) => *x == *y,
        (MPCMetricDType::MPCInt64(x), MPCMetricDType::MPCInt64(y)) => *x == *y,
        (MPCMetricDType::MPCUInt32(x), MPCMetricDType::MPCUInt32(y)) => *x == *y,
        (MPCMetricDType::MPCUInt64(x), MPCMetricDType::MPCUInt64(y)) => *x == *y,
        (MPCMetricDType::MPCBool(x), MPCMetricDType::MPCBool(y)) => *x == *y,
        (MPCMetricDType::Vec(xs), MPCMetricDType::Vec(ys)) => {
            if xs.len() != ys.len() {
                return false;
            }
            let mut i: usize = 0;
            while i < xs.len()
                invariant
                    *a == MPCMetricDType::Vec(*xs),
                    *b == MPCMetricDType::Vec(*ys),
                    xs@.len() == ys@.len(),
                    0 <= i <= xs@.len(),
                    forall|j: int| 0 <= j < i ==> values_match(#[trigger] xs@[j], ys@[j]),
                decreases xs@.len() - i,
            {
                proof {
                    broadcast use vstd::std_specs::vec::axiom_vec_decreases_to_view;

                    assert(decreases_to!(*a => (*a)->Vec_0));
                    assert(decreases_to!(*xs => xs@));
                    assert(decreases_to!(xs@ => xs@[i as int]));
                }
                if !values_equal(&xs[i], &ys[i]) {
                    assert(!values_match(xs@[i as int], ys@[i as int]));
                    return false;
                }
                i = i + 1;
            }
            true
        },
        _ => false,
    }
}

impl PartialEq for MPCMetricDType {
    fn eq(&self, other: &MPCMetricDType) -> (r: bool)
        ensures
            r == values_match(*self, *other),
    {
        values_equal(self, other)
    }
}

impl vstd::std_specs::cmp::PartialEqSpecImpl for MPCMetricDType {
    open spec fn obeys_eq_spec() -> bool {
        true
    }

    open spec fn eq_spec(&self, other: &MPCMetricDType) -> bool {
        values_match(*self, *other)
    }
}

fn clone_value(v: &MPCMetricDType) -> (r: MPCMetricDType)
    ensures
        values_match(*v, r),
    decreases *v,
{
    match v {
        MPCMetricDType::MPCInt32(x) => MPCMetricDType::MPCInt32(*x),
        MPCMetricDType::MPCInt64(x) => MPCMetricDType::MPCInt64(*x),
        MPCMetricDType::MPCUInt32(x) => MPCMetricDType::MPCUInt32(*x),
        MPCMetricDType::MPCUInt64(x) => MPCMetricDType::MPCUInt64(*x),
        MPCMetricDType::MPCBool(x) => MPCMetricDType::MPCBool(*x),
        MPCMetricDType::Vec(xs) => {
            let mut ys: Vec<MPCMetricDType> = Vec::new();
            let mut i: usize = 0;
            while i < xs.len()
                invariant
                    *v == MPCMetricDType::Vec(*xs),
                    0 <= i <= xs@.len(),
                    ys@.len() == i,
                    forall|j: int| 0 <= j < i ==> values_match(#[trigger] xs@[j], ys@[j]),
                decreases xs@.len() - i,
            {
                proof {
                    broadcast use vstd::std_specs::vec::axiom_vec_decreases_to_view;

                    assert(decreases_to!(*v => (*v)->Vec_0));
                    assert(decreases_to!(*xs => xs@));
                    assert(decreases_to!(xs@ => xs@[i as int]));
                }
                let c = clone_value(&xs[i]);
                ys.push(c);
                i = i + 1;
            }
            MPCMetricDType::Vec(ys)
        },
    }
}

impl Clone for MPCMetricDType {
    fn clone(&self) -> (r: MPCMetricDType)
        ensures
            values_match(*self, r),
    {
        clone_value(self)
    }
}

impl TryFrom<MPCMetricDType> for i32 {
    type Error = TypeMismatch;

    fn try_from(v: MPCMetricDType) -> (r: Result<i32, TypeMismatch>) {
        match v {
            MPCMetricDType::MPCInt32(x) => Ok(x),
            _ => Err(TypeMismatch { requested: DTypeKind::Int32, actual: v.kind() }),
        }
    }
}

impl vstd::std_specs::convert::TryFromSpecImpl<MPCMetricDType> for i32 {
    open spec fn obeys_try_from_spec() -> bool {
        true
    }

    open spec fn try_from_spec(v: MPCMetricDType) -> Result<i32, TypeMismatch> {
        match v {
            MPCMetricDType::MPCInt32(x) => Ok(x),
            _ => Err(TypeMismatch { requested: DTypeKind::Int32, actual: v.spec_kind() }),
        }
    }
}

impl TryFrom<MPCMetricDType> for i64 {
    type Error = TypeMismatch;

    fn try_from(v: MPCMetricDType) -> (r: Result<i64, TypeMismatch>) {
        match v {
            MPCMetricDType::MPCInt64(x) => Ok(x),
            _ => Err(TypeMismatch { requested: DTypeKind::Int64, actual: v.kind() }),
        }
    }
}

impl vstd::std_specs::convert::TryFromSpecImpl<MPCMetricDType> for i64 {
    open spec fn obeys_try_from_spec() -> bool {
        true
    }

    open spec fn try_from_spec(v: MPCMetricDType) -> Result<i64, TypeMismatch> {
        match v {
            MPCMetricDType::MPCInt64(x) => Ok(x),
            _ => Err(TypeMismatch { requested: DTypeKind::Int64, actual: v.spec_kind() }),
        }
    }
}

impl TryFrom<MPCMetricDType> for u32 {
    type Error = TypeMismatch;

    fn try_from(v: MPCMetricDType) -> (r: Result<u32, TypeMismatch>) {
        match v {
            MPCMetricDType::MPCUInt32(x) => Ok(x),
            _ => Err(TypeMismatch { requested: DTypeKind::UInt32, actual: v.kind() }),
        }
    }
}

impl vstd::std_specs::convert::TryFromSpecImpl<MPCMetricDType> for u32 {
    open spec fn obeys_try_from_spec() -> bool {
        true
    }

    open spec fn try_from_spec(v: MPCMetricDType) -> Result<u32, TypeMismatch> {
        match v {
            MPCMetricDType::MPCUInt32(x) => Ok(x),
            _ => Err(TypeMismatch { requested: DTypeKind::UInt32, actual: v.spec_kind() }),
        }
    }
}

impl TryFrom<MPCMetricDType> for u64 {
    type Error = TypeMismatch;

    fn try_from(v: MPCMetricDType) -> (r: Result<u64, TypeMismatch>) {
        match v {
            MPCMetricDType::MPCUInt64(x) => Ok(x),
            _ => Err(TypeMismatch { requested: DTypeKind::UInt64, actual: v.kind() }),
        }
    }
}

impl vstd::std_specs::convert::TryFromSpecImpl<MPCMetricDType> for u64 {
    open spec fn obeys_try_from_spec() -> bool {
        true
    }

    open spec fn try_from_spec(v: MPCMetricDType) -> Result<u64, TypeMismatch> {
        match v {
            MPCMetricDType::MPCUInt64(x) => Ok(x),
            _ => Err(TypeMismatch { requested: DTypeKind::UInt64, actual: v.spec_kind() }),
        }
    }
}

impl TryFrom<MPCMetricDType> for bool {
    type Error = TypeMismatch;

    fn try_from(v: MPCMetricDType) -> (r: Result<bool, TypeMismatch>) {
        match v {
            MPCMetricDType::MPCBool(x) => Ok(x),
            _ => Err(TypeMismatch { requested: DTypeKind::Bool, actual: v.kind() }),
        }
    }
}

impl vstd::std_specs::convert::TryFromSpecImpl<MPCMetricDType> for bool {
    open spec fn obeys_try_from_spec() -> bool {
        true
    }

    open spec fn try_from_spec(v: MPCMetricDType) -> Result<bool, TypeMismatch> {
        match v {
            MPCMetricDType::MPCBool(x) => Ok(x),
            _ => Err(TypeMismatch { requested: DTypeKind::Bool, actual: v.spec_kind() }),
        }
    }
}

impl TryFrom<MPCMetricDType> for Vec<MPCMetricDType> {
    type Error = TypeMismatch;

    fn try_from(v: MPCMetricDType) -> (r: Result<Vec<MPCMetricDType>, TypeMismatch>) {
        match v {
            MPCMetricDType::Vec(x) => Ok(x),
            _ => Err(TypeMismatch { requested: DTypeKind::Vec, actual: v.kind() }),
        }
    }
}

impl vstd::std_specs::convert::TryFromSpecImpl<MPCMetricDType> for Vec<MPCMetricDType> {
    open spec fn obeys_try_from_spec() -> bool {
        true
    }

    open spec fn try_from_spec(v: MPCMetricDType) -> Result<Vec<MPCMetricDType>, TypeMismatch> {
        match v {
            MPCMetricDType::Vec(x) => Ok(x),
            _ => Err(TypeMismatch { requested: DTypeKind::Vec, actual: v.spec_kind() }),
        }
    }
}

proof fn lemma_values_match_reflexive(a: MPCMetricDType)
    ensures
        values_match(a, a),
    decreases a,
{
    if let MPCMetricDType::Vec(xs) = a {
        assert forall|i: int| 0 <= i < xs@.len() implies values_match(
            #[trigger] xs@[i],
            xs@[i],
        ) by {
            broadcast use vstd::std_specs::vec::axiom_vec_decreases_to_view;

            assert(decreases_to!(a => a->Vec_0));
            assert(decreases_to!(xs => xs@));
            assert(decreases_to!(xs@ => xs@[i]));
            lemma_values_match_reflexive(xs@[i]);
        }
    }
}

/// Wrapping a native value in its variant and narrowing back to the same
/// native type always succeeds and gives that value back, for every variant.
pub proof fn lemma_round_trip(a: i32, b: i64, c: u32, d: u64, e: bool, s: Vec<MPCMetricDType>)
    ensures
        <i32 as TryFromSpec<MPCMetricDType>>::obeys_try_from_spec(),
        <i64 as TryFromSpec<MPCMetricDType>>::obeys_try_from_spec(),
        <u32 as TryFromSpec<MPCMetricDType>>::obeys_try_from_spec(),
        <u64 as TryFromSpec<MPCMetricDType>>::obeys_try_from_spec(),
        <bool as TryFromSpec<MPCMetricDType>>::obeys_try_from_spec(),
        <Vec<MPCMetricDType> as TryFromSpec<MPCMetricDType>>::obeys_try_from_spec(),
        <i32 as TryFromSpec<MPCMetricDType>>::try_from_spec(MPCMetricDType::MPCInt32(a))
            == Ok::<i32, TypeMismatch>(a),
        <i64 as TryFromSpec<MPCMetricDType>>::try_from_spec(MPCMetricDType::MPCInt64(b))
            == Ok::<i64, TypeMismatch>(b),
        <u32 as TryFromSpec<MPCMetricDType>>::try_from_spec(MPCMetricDType::MPCUInt32(c))
            == Ok::<u32, TypeMismatch>(c),
        <u64 as TryFromSpec<MPCMetricDType>>::try_from_spec(MPCMetricDType::MPCUInt64(d))
            == Ok::<u64, TypeMismatch>(d),
        <bool as TryFromSpec<MPCMetricDType>>::try_from_spec(MPCMetricDType::MPCBool(e))
            == Ok::<bool, TypeMismatch>(e),
        <Vec<MPCMetricDType> as TryFromSpec<MPCMetricDType>>::try_from_spec(
            MPCMetricDType::Vec(s),
        ) == Ok::<Vec<MPCMetricDType>, TypeMismatch>(s),
{
}

/// Narrowing a value to a native type other than that of its own tag fails
/// with a `TypeMismatch` that names the requested and the actual tag; no
/// numeric coercion is made.
pub proof fn lemma_tag_mismatch(v: MPCMetricDType)
    ensures
        v.spec_kind() != DTypeKind::Int32 ==> <i32 as TryFromSpec<MPCMetricDType>>::try_from_spec(v)
            == Err::<i32, TypeMismatch>((TypeMismatch { requested: DTypeKind::Int32, actual: v.spec_kind() })),
        v.spec_kind() != DTypeKind::Int64 ==> <i64 as TryFromSpec<MPCMetricDType>>::try_from_spec(v)
            == Err::<i64, TypeMismatch>((TypeMismatch { requested: DTypeKind::Int64, actual: v.spec_kind() })),
        v.spec_kind() != DTypeKind::UInt32 ==> <u32 as TryFromSpec<MPCMetricDType>>::try_from_spec(v)
            == Err::<u32, TypeMismatch>((TypeMismatch { requested: DTypeKind::UInt32, actual: v.spec_kind() })),
        v.spec_kind() != DTypeKind::UInt64 ==> <u64 as TryFromSpec<MPCMetricDType>>::try_from_spec(v)
            == Err::<u64, TypeMismatch>((TypeMismatch { requested: DTypeKind::UInt64, actual: v.spec_kind() })),
        v.spec_kind() != DTypeKind::Bool ==> <bool as TryFromSpec<MPCMetricDType>>::try_from_spec(v)
            == Err::<bool, TypeMismatch>((TypeMismatch { requested: DTypeKind::Bool, actual: v.spec_kind() })),
        v.spec_kind() != DTypeKind::Vec ==> <Vec<MPCMetricDType> as TryFromSpec<MPCMetricDType>>::try_from_spec(v)
            == Err::<Vec<MPCMetricDType>, TypeMismatch>((TypeMismatch { requested: DTypeKind::Vec, actual: v.spec_kind() })),
{
}

/// A sequence of values, of any mix of variants, wrapped and narrowed back
/// comes out as an equal sequence, in the same order.
pub proof fn lemma_sequence_round_trip(s: Vec<MPCMetricDType>)
    ensures
        <Vec<MPCMetricDType> as TryFromSpec<MPCMetricDType>>::try_from_spec(MPCMetricDType::Vec(s))
            matches Ok(r) && r@.len() == s@.len() && (forall|i: int|
            0 <= i < s@.len() ==> (#[trigger] r@[i]).eq_spec(&s@[i])),
{
    assert forall|i: int| 0 <= i < s@.len() implies (#[trigger] s@[i]).eq_spec(&s@[i]) by {
        lemma_values_match_reflexive(s@[i]);
    }
}

/// Equality never holds across tags, whatever the payloads; a value is
/// equal to itself, so equal constructions compare equal.
pub proof fn lemma_equality_tag_aware(a: MPCMetricDType, b: MPCMetricDType)
    ensures
        a.spec_kind() != b.spec_kind() ==> !a.eq_spec(&b),
        a.eq_spec(&a),
{
    lemma_values_match_reflexive(a);
}

} // verus!
