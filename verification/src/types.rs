//! The dynamic values the evaluator computes, their type signatures, and the
//! least-common-supertype relation used by the equality native.

use vstd::prelude::*;

verus! {

use crate::representations::{ClarityName, ContractName};
use crate::errors::CheckErrors;

/// Largest admissible buffer payload, in bytes.
pub const MAX_VALUE_SIZE: u32 = 1048576;

// ---------------------------------------------------------------------------
// Values.
// ---------------------------------------------------------------------------
/// A byte buffer payload.
#[derive(Debug, Clone, PartialEq, Eq)]
pub struct BuffData {
    pub data: Vec<u8>,
}

/// An optional payload.
#[derive(Debug, PartialEq, Eq)]
pub struct OptionalData {
    pub data: Option<Box<Value>>,
}

/// A response payload: committed on `ok`, not committed on `err`.
#[derive(Debug, PartialEq, Eq)]
pub struct ResponseData {
    pub committed: bool,
    pub data: Box<Value>,
}

/// A user identity: a version byte and a twenty-byte key hash.
#[derive(Debug, Clone, PartialEq, Eq)]
pub struct StandardPrincipalData {
    pub version: u8,
    pub bytes: Vec<u8>,
}

/// A contract identity: issuing principal plus contract name.
#[derive(Debug, PartialEq, Eq)]
pub struct QualifiedContractIdentifier {
    pub issuer: StandardPrincipalData,
    pub name: ContractName,
}

/// An identity usable as actor or owner.
#[derive(Debug, PartialEq, Eq)]
pub enum PrincipalData {
    Standard(StandardPrincipalData),
    Contract(QualifiedContractIdentifier),
}

/// A dynamic value of the evaluated language.
#[derive(Debug, PartialEq, Eq)]
pub enum Value {
    Int(i128),
    UInt(u128),
    Bool(bool),
    Buffer(BuffData),
    Principal(PrincipalData),
    Optional(OptionalData),
    Response(ResponseData),
}

// ---------------------------------------------------------------------------
// Mathematical models.
// ---------------------------------------------------------------------------
/// Model of a user identity.
pub struct StandardPrincipalView {
    pub version: u8,
    pub bytes: Seq<u8>,
}

/// Model of a contract identity.
pub struct ContractIdView {
    pub issuer: StandardPrincipalView,
    pub name: Seq<char>,
}

/// Model of a principal.
pub enum PrincipalView {
    Standard(StandardPrincipalView),
    Contract(ContractIdView),
}

/// Model of a dynamic value.
pub enum ValueView {
    Int(i128),
    UInt(u128),
    Bool(bool),
    Buff(Seq<u8>),
    Principal(PrincipalView),
    Optional(Option<Box<ValueView>>),
    Response(bool, Box<ValueView>),
}

/// Model of a user identity value.
pub open spec fn standard_principal_view(p: StandardPrincipalData) -> StandardPrincipalView {
    StandardPrincipalView { version: p.version, bytes: p.bytes@ }
}

/// Model of a contract identity value.
pub open spec fn contract_id_view(c: QualifiedContractIdentifier) -> ContractIdView {
    ContractIdView { issuer: standard_principal_view(c.issuer), name: c.name@ }
}

/// Model of a principal value.
pub open spec fn principal_view(p: PrincipalData) -> PrincipalView {
    match p {
        PrincipalData::Standard(s) => PrincipalView::Standard(standard_principal_view(s)),
        PrincipalData::Contract(c) => PrincipalView::Contract(contract_id_view(c)),
    }
}

/// Model of a dynamic value.
pub open spec fn value_view(v: Value) -> ValueView
    decreases v,
{
    match v {
        Value::Int(x) => ValueView::Int(x),
        Value::UInt(x) => ValueView::UInt(x),
        Value::Bool(x) => ValueView::Bool(x),
        Value::Buffer(b) => ValueView::Buff(b.data@),
        Value::Principal(p) => ValueView::Principal(principal_view(p)),
        Value::Optional(o) => match o.data {
            Option::None => ValueView::Optional(Option::None),
            Option::Some(inner) => ValueView::Optional(
                Option::Some(Box::new(value_view(*inner))),
            ),
        },
        Value::Response(r) => ValueView::Response(r.committed, Box::new(value_view(*r.data))),
    }
}

impl View for Value {
    type V = ValueView;

    open spec fn view(&self) -> ValueView {
        value_view(*self)
    }
}

impl View for PrincipalData {
    type V = PrincipalView;

    open spec fn view(&self) -> PrincipalView {
        principal_view(*self)
    }
}

impl View for QualifiedContractIdentifier {
    type V = ContractIdView;

    open spec fn view(&self) -> ContractIdView {
        contract_id_view(*self)
    }
}

// ---------------------------------------------------------------------------
// Type signatures.
// ---------------------------------------------------------------------------
/// The closed set of type tags the evaluation core distinguishes.
#[derive(Debug, PartialEq, Eq)]
pub enum TypeSignature {
    NoType,
    IntType,
    UIntType,
    BoolType,
    BufferType(u32),
    PrincipalType,
    OptionalType(Box<TypeSignature>),
    ResponseType(Box<TypeSignature>, Box<TypeSignature>),
}

impl TypeSignature {
    /// The widest buffer type.
    pub fn max_buffer() -> (r: TypeSignature)
        ensures
            r == TypeSignature::BufferType(MAX_VALUE_SIZE),
    {
        TypeSignature::BufferType(MAX_VALUE_SIZE)
    }

    /// The type of a value model.
    pub open spec fn spec_type_of(v: ValueView) -> TypeSignature
        decreases v,
    {
        match v {
            ValueView::Int(_) => TypeSignature::IntType,
            ValueView::UInt(_) => TypeSignature::UIntType,
            ValueView::Bool(_) => TypeSignature::BoolType,
            ValueView::Buff(s) => TypeSignature::BufferType(s.len() as u32),
            ValueView::Principal(_) => TypeSignature::PrincipalType,
            ValueView::Optional(o) => match o {
                Option::None => TypeSignature::OptionalType(Box::new(TypeSignature::NoType)),
                Option::Some(inner) => TypeSignature::OptionalType(
                    Box::new(Self::spec_type_of(*inner)),
                ),
            },
            ValueView::Response(committed, d) => if committed {
                TypeSignature::ResponseType(
                    Box::new(Self::spec_type_of(*d)),
                    Box::new(TypeSignature::NoType),
                )
            } else {
                TypeSignature::ResponseType(
                    Box::new(TypeSignature::NoType),
                    Box::new(Self::spec_type_of(*d)),
                )
            },
        }
    }

    /// Computes the type of a value.
    pub fn type_of(v: &Value) -> (r: TypeSignature)
        ensures
            r == Self::spec_type_of(v@),
        decreases *v,
    {
        match v {
            Value::Int(_) => TypeSignature::IntType,
            Value::UInt(_) => TypeSignature::UIntType,
            Value::Bool(_) => TypeSignature::BoolType,
            Value::Buffer(b) => TypeSignature::BufferType(#[verifier::truncate] (b.data.len() as u32)),
            Value::Principal(_) => TypeSignature::PrincipalType,
            Value::Optional(o) => match &o.data {
                Option::None => TypeSignature::OptionalType(Box::new(TypeSignature::NoType)),
                Option::Some(inner) => TypeSignature::OptionalType(
                    Box::new(Self::type_of(inner)),
                ),
            },
            Value::Response(r) => if r.committed {
                TypeSignature::ResponseType(
                    Box::new(Self::type_of(&r.data)),
                    Box::new(TypeSignature::NoType),
                )
            } else {
                TypeSignature::ResponseType(
                    Box::new(TypeSignature::NoType),
                    Box::new(Self::type_of(&r.data)),
                )
            },
        }
    }

    /// The least common supertype of two type tags, where it exists; the
    /// empty type is below every type, buffers widen to the longer bound, and
    /// optionals and responses unify componentwise.
    pub open spec fn spec_least_supertype(a: TypeSignature, b: TypeSignature) -> Result<
        TypeSignature,
        crate::errors::CheckErrorView,
    >
        decreases a,
    {
        if a == TypeSignature::NoType {
            Ok(b)
        } else if b == TypeSignature::NoType {
            Ok(a)
        } else {
            match (a, b) {
                (TypeSignature::IntType, TypeSignature::IntType) => Ok(TypeSignature::IntType),
                (TypeSignature::UIntType, TypeSignature::UIntType) => Ok(TypeSignature::UIntType),
                (TypeSignature::BoolType, TypeSignature::BoolType) => Ok(TypeSignature::BoolType),
                (TypeSignature::BufferType(m), TypeSignature::BufferType(n)) => Ok(
                    TypeSignature::BufferType(if m >= n { m } else { n }),
                ),
                (TypeSignature::PrincipalType, TypeSignature::PrincipalType) => Ok(
                    TypeSignature::PrincipalType,
                ),
                (TypeSignature::OptionalType(x), TypeSignature::OptionalType(y)) => match Self::spec_least_supertype(
                    *x,
                    *y,
                ) {
                    Ok(t) => Ok(TypeSignature::OptionalType(Box::new(t))),
                    Err(e) => Err(e),
                },
                (
                    TypeSignature::ResponseType(a1, a2),
                    TypeSignature::ResponseType(b1, b2),
                ) => match (Self::spec_least_supertype(*a1, *b1), Self::spec_least_supertype(
                    *a2,
                    *b2,
                )) {
                    (Ok(t1), Ok(t2)) => Ok(
                        TypeSignature::ResponseType(Box::new(t1), Box::new(t2)),
                    ),
                    (Err(e), _) => Err(e),
                    (_, Err(e)) => Err(e),
                },
                (x, y) => Err(crate::errors::CheckErrorView::UnionTypeError(x, y)),
            }
        }
    }

    /// Structural copy with an exact contract.
    pub fn clone_type(&self) -> (r: TypeSignature)
        ensures
            r == *self,
        decreases *self,
    {
        match self {
            TypeSignature::NoType => TypeSignature::NoType,
            TypeSignature::IntType => TypeSignature::IntType,
            TypeSignature::UIntType => TypeSignature::UIntType,
            TypeSignature::BoolType => TypeSignature::BoolType,
            TypeSignature::BufferType(m) => TypeSignature::BufferType(*m),
            TypeSignature::PrincipalType => TypeSignature::PrincipalType,
            TypeSignature::OptionalType(x) => TypeSignature::OptionalType(
                Box::new(x.clone_type()),
            ),
            TypeSignature::ResponseType(x, y) => TypeSignature::ResponseType(
                Box::new(x.clone_type()),
                Box::new(y.clone_type()),
            ),
        }
    }

    /// Decides structural equality of two type tags.
    pub fn eq_type(&self, other: &TypeSignature) -> (r: bool)
        ensures
            r == (*self == *other),
        decreases *self,
    {
        match (self, other) {
            (TypeSignature::NoType, TypeSignature::NoType) => true,
            (TypeSignature::IntType, TypeSignature::IntType) => true,
            (TypeSignature::UIntType, TypeSignature::UIntType) => true,
            (TypeSignature::BoolType, TypeSignature::BoolType) => true,
            (TypeSignature::BufferType(m), TypeSignature::BufferType(n)) => m == n,
            (TypeSignature::PrincipalType, TypeSignature::PrincipalType) => true,
            (TypeSignature::OptionalType(x), TypeSignature::OptionalType(y)) => x.eq_type(y),
            (TypeSignature::ResponseType(x1, x2), TypeSignature::ResponseType(y1, y2)) => x1
                .eq_type(y1) && x2.eq_type(y2),
            _ => false,
        }
    }

    /// Computes the least common supertype, or the union-type error naming
    /// the two incompatible tags.
    pub fn least_supertype(a: &TypeSignature, b: &TypeSignature) -> (r: Result<
        TypeSignature,
        CheckErrors,
    >)
        ensures
            match r {
                Ok(t) => Self::spec_least_supertype(*a, *b) == Ok::<
                    TypeSignature,
                    crate::errors::CheckErrorView,
                >(t),
                Err(e) => Self::spec_least_supertype(*a, *b) == Err::<
                    TypeSignature,
                    crate::errors::CheckErrorView,
                >(e@),
            },
        decreases *a,
    {
        if a.eq_type(&TypeSignature::NoType) {
            Ok(b.clone_type())
        } else if b.eq_type(&TypeSignature::NoType) {
            Ok(a.clone_type())
        } else {
            match (a, b) {
                (TypeSignature::IntType, TypeSignature::IntType) => Ok(TypeSignature::IntType),
                (TypeSignature::UIntType, TypeSignature::UIntType) => Ok(TypeSignature::UIntType),
                (TypeSignature::BoolType, TypeSignature::BoolType) => Ok(TypeSignature::BoolType),
                (TypeSignature::BufferType(m), TypeSignature::BufferType(n)) => Ok(
                    TypeSignature::BufferType(if *m >= *n { *m } else { *n }),
                ),
                (TypeSignature::PrincipalType, TypeSignature::PrincipalType) => Ok(
                    TypeSignature::PrincipalType,
                ),
                (TypeSignature::OptionalType(x), TypeSignature::OptionalType(y)) => match Self::least_supertype(
                    x,
                    y,
                ) {
                    Ok(t) => Ok(TypeSignature::OptionalType(Box::new(t))),
                    Err(e) => Err(e),
                },
                (
                    TypeSignature::ResponseType(a1, a2),
                    TypeSignature::ResponseType(b1, b2),
                ) => match Self::least_supertype(a1, b1) {
                    Err(e) => Err(e),
                    Ok(t1) => match Self::least_supertype(a2, b2) {
                        Err(e) => Err(e),
                        Ok(t2) => Ok(
                            TypeSignature::ResponseType(Box::new(t1), Box::new(t2)),
                        ),
                    },
                },
                (x, y) => Err(CheckErrors::UnionTypeError(x.clone_type(), y.clone_type())),
            }
        }
    }
}

// ---------------------------------------------------------------------------
// Executable helpers over values.
// ---------------------------------------------------------------------------
/// Copies a byte vector, element for element.
pub fn copy_bytes(v: &Vec<u8>) -> (r: Vec<u8>)
    ensures
        r@ == v@,
{
    let mut out: Vec<u8> = Vec::new();
    let mut i: usize = 0;
    while i < v.len()
        invariant
            i <= v@.len(),
            out@ == v@.subrange(0, i as int),
        decreases v@.len() - i,
    {
        out.push(v[i]);
        proof {
            assert(out@ =~= v@.subrange(0, i + 1 as int));
        }
        i += 1;
    }
    proof {
        assert(out@ =~= v@);
    }
    out
}

/// Decides equality of two byte vectors at the view level.
pub fn bytes_equal(a: &Vec<u8>, b: &Vec<u8>) -> (r: bool)
    ensures
        r == (a@ == b@),
{
    if a.len() != b.len() {
        return false;
    }
    let mut i: usize = 0;
    while i < a.len()
        invariant
            a@.len() == b@.len(),
            i <= a@.len(),
            forall|j: int| 0 <= j < i ==> a@[j] == b@[j],
        decreases a@.len() - i,
    {
        if a[i] != b[i] {
            return false;
        }
        i += 1;
    }
    proof {
        assert(a@ =~= b@);
    }
    true
}

/// Decides equality of two principals at the view level.
pub fn principals_equal(a: &PrincipalData, b: &PrincipalData) -> (r: bool)
    ensures
        r == (a@ == b@),
{
    match (a, b) {
        (PrincipalData::Standard(x), PrincipalData::Standard(y)) => x.version == y.version
            && bytes_equal(&x.bytes, &y.bytes),
        (PrincipalData::Contract(x), PrincipalData::Contract(y)) => x.issuer.version
            == y.issuer.version && bytes_equal(&x.issuer.bytes, &y.issuer.bytes) && x.name.eq_name(
            &y.name,
        ),
        _ => false,
    }
}

/// Decides equality of two values at the view level: the raw-value
/// comparison the equality native performs.
pub fn values_equal(a: &Value, b: &Value) -> (r: bool)
    ensures
        r == (a@ == b@),
    decreases *a,
{
    match (a, b) {
        (Value::Int(x), Value::Int(y)) => x == y,
        (Value::UInt(x), Value::UInt(y)) => x == y,
        (Value::Bool(x), Value::Bool(y)) => x == y,
        (Value::Buffer(x), Value::Buffer(y)) => bytes_equal(&x.data, &y.data),
        (Value::Principal(x), Value::Principal(y)) => principals_equal(x, y),
        (Value::Optional(x), Value::Optional(y)) => match (&x.data, &y.data) {
            (Option::None, Option::None) => true,
            (Option::Some(xi), Option::Some(yi)) => values_equal(xi, yi),
            _ => false,
        },
        (Value::Response(x), Value::Response(y)) => x.committed == y.committed && values_equal(
            &x.data,
            &y.data,
        ),
        _ => false,
    }
}

/// Copies a principal with an exact view contract.
pub fn clone_principal(p: &PrincipalData) -> (r: PrincipalData)
    ensures
        r@ == p@,
{
    match p {
        PrincipalData::Standard(s) => PrincipalData::Standard(
            StandardPrincipalData { version: s.version, bytes: copy_bytes(&s.bytes) },
        ),
        PrincipalData::Contract(c) => PrincipalData::Contract(
            QualifiedContractIdentifier {
                issuer: StandardPrincipalData {
                    version: c.issuer.version,
                    bytes: copy_bytes(&c.issuer.bytes),
                },
                name: c.name.clone_name(),
            },
        ),
    }
}

/// Copies a value with an exact view contract.
pub fn clone_value(v: &Value) -> (r: Value)
    ensures
        r@ == v@,
    decreases *v,
{
    match v {
        Value::Int(x) => Value::Int(*x),
        Value::UInt(x) => Value::UInt(*x),
        Value::Bool(x) => Value::Bool(*x),
        Value::Buffer(b) => Value::Buffer(BuffData { data: copy_bytes(&b.data) }),
        Value::Principal(p) => Value::Principal(clone_principal(p)),
        Value::Optional(o) => match &o.data {
            Option::None => Value::Optional(OptionalData { data: Option::None }),
            Option::Some(inner) => Value::Optional(
                OptionalData { data: Option::Some(Box::new(clone_value(inner))) },
            ),
        },
        Value::Response(r) => Value::Response(
            ResponseData { committed: r.committed, data: Box::new(clone_value(&r.data)) },
        ),
    }
}

impl Value {
    /// The missing optional value.
    pub fn none() -> (r: Value)
        ensures
            r@ == ValueView::Optional(Option::<Box<ValueView>>::None),
    {
        Value::Optional(OptionalData { data: Option::None })
    }

    /// Wraps a value as a present optional.
    pub fn some(data: Value) -> (r: Value)
        ensures
            r@ == ValueView::Optional(Option::Some(Box::new(data@))),
    {
        Value::Optional(OptionalData { data: Option::Some(Box::new(data)) })
    }

    /// Wraps a value as a committed response.
    pub fn okay(data: Value) -> (r: Value)
        ensures
            r@ == ValueView::Response(true, Box::new(data@)),
    {
        Value::Response(ResponseData { committed: true, data: Box::new(data) })
    }

    /// Wraps a value as an uncommitted response.
    pub fn error(data: Value) -> (r: Value)
        ensures
            r@ == ValueView::Response(false, Box::new(data@)),
    {
        Value::Response(ResponseData { committed: false, data: Box::new(data) })
    }

    /// Builds a buffer value, rejecting payloads over the size bound.
    pub fn buff_from(data: Vec<u8>) -> (r: Result<Value, CheckErrors>)
        ensures
            match r {
                Ok(v) => data@.len() <= MAX_VALUE_SIZE && v@ == ValueView::Buff(data@),
                Err(e) => data@.len() > MAX_VALUE_SIZE && e@
                    == crate::errors::CheckErrorView::ValueTooLarge,
            },
    {
        if data.len() > MAX_VALUE_SIZE as usize {
            Err(CheckErrors::ValueTooLarge)
        } else {
            Ok(Value::Buffer(BuffData { data }))
        }
    }
}


/// Model of a sequence of values.
pub open spec fn vals_view(s: Seq<Value>) -> Seq<ValueView> {
    s.map_values(|v: Value| value_view(v))
}

} // verus!
