//! Classification of declarations: asynchronous types, behavioral versus
//! structural interfaces, and the raw-value type of an enum.

use vstd::prelude::*;

use crate::ast::{
    EnumDeclaration, EnumMember, Initializer, InterfaceDeclaration, Signature, TypeExpr,
};
use crate::text::{contains, contains_text, str_equals};

verus! {

broadcast use vstd::std_specs::vec::group_vec_axioms;

// ---------------------------------------------------------------------------
// Asynchronous types
// ---------------------------------------------------------------------------

/// A reference to a type spelled `Promise`; the check is by name only.
pub open spec fn is_promise(t: TypeExpr) -> bool {
    t matches TypeExpr::Reference(r) && r.name@ == "Promise"@
}

/// An annotation present and asynchronous.
pub open spec fn is_async_annotation(o: Option<TypeExpr>) -> bool {
    o matches Some(t) && is_promise(t)
}

/// Whether a type is `Promise<...>`.
pub fn type_is_async(t: &TypeExpr) -> (r: bool)
    ensures
        r == is_promise(*t),
{
    match t {
        TypeExpr::Reference(r) => str_equals(r.name.as_str(), "Promise"),
        _ => false,
    }
}

/// Whether an optional annotation is present and `Promise<...>`.
pub fn annotation_is_async(o: &Option<TypeExpr>) -> (r: bool)
    ensures
        r == is_async_annotation(*o),
{
    match o {
        Some(t) => type_is_async(t),
        None => false,
    }
}

// ---------------------------------------------------------------------------
// Behavioral and structural interfaces
// ---------------------------------------------------------------------------

/// An annotation that is a function type.
pub open spec fn is_function_annotation(o: Option<TypeExpr>) -> bool {
    o matches Some(TypeExpr::Function(_))
}

/// A member that makes its interface behavioral: a method, or a property of
/// function type.
pub open spec fn is_callable_member(s: Signature) -> bool {
    match s {
        Signature::Method(_) => true,
        Signature::Property(p) => is_function_annotation(p.type_annotation),
        Signature::Unsupported => false,
    }
}

/// An interface is behavioral when one of its members is callable.
pub open spec fn is_behavioral(i: InterfaceDeclaration) -> bool {
    exists|k: int| 0 <= k < i.body@.len() && is_callable_member(#[trigger] i.body@[k])
}

/// Whether a member is a method or a property of function type.
pub fn signature_is_callable(s: &Signature) -> (r: bool)
    ensures
        r == is_callable_member(*s),
{
    match s {
        Signature::Method(_) => true,
        Signature::Property(p) => match &p.type_annotation {
            Some(TypeExpr::Function(_)) => true,
            _ => false,
        },
        Signature::Unsupported => false,
    }
}

/// Decides whether an interface becomes a protocol / interface (behavioral)
/// or a struct / data class (structural).
pub fn interface_is_behavioral(i: &InterfaceDeclaration) -> (r: bool)
    ensures
        r == is_behavioral(*i),
{
    let mut k: usize = 0;
    while k < i.body.len()
        invariant
            k <= i.body@.len(),
            forall|j: int| 0 <= j < k ==> !is_callable_member(#[trigger] i.body@[j]),
        decreases i.body.len() - k,
    {
        if signature_is_callable(&i.body[k]) {
            return true;
        }
        k = k + 1;
    }
    false
}

// ---------------------------------------------------------------------------
// Enum raw-value types
// ---------------------------------------------------------------------------

/// The single type that backs every case of a raw-value enum.
#[derive(PartialEq, Eq, Structural, Clone, Copy, Debug)]
pub enum EnumRawType {
    Str,
    Int,
    Double,
}

/// The outcome of enum classification.
#[derive(PartialEq, Eq, Structural, Clone, Copy, Debug)]
pub enum EnumKind {
    /// Every member carries a literal of one kind; the enum is backed by it.
    Uniform(EnumRawType),
    /// Initializers are mixed or missing; the enum is ordinal.
    NonUniform,
}

/// A member initialized with a string literal.
pub open spec fn has_string_literal(m: EnumMember) -> bool {
    m.initializer matches Some(Initializer::StringLiteral(_))
}

/// A member initialized with a numeric literal.
pub open spec fn has_numeric_literal(m: EnumMember) -> bool {
    m.initializer matches Some(Initializer::NumericLiteral(_))
}

/// A numeric literal whose text holds a decimal point.
pub open spec fn has_decimal_literal(m: EnumMember) -> bool {
    m.initializer matches Some(Initializer::NumericLiteral(t)) && contains(t@, "."@)
}

/// Every member initialized with a string literal.
pub open spec fn all_string_literals(ms: Seq<EnumMember>) -> bool {
    forall|k: int| 0 <= k < ms.len() ==> has_string_literal(#[trigger] ms[k])
}

/// Every member initialized with a numeric literal.
pub open spec fn all_numeric_literals(ms: Seq<EnumMember>) -> bool {
    forall|k: int| 0 <= k < ms.len() ==> has_numeric_literal(#[trigger] ms[k])
}

/// Every member initialized with a numeric literal that has a decimal point.
pub open spec fn all_decimal_literals(ms: Seq<EnumMember>) -> bool {
    forall|k: int| 0 <= k < ms.len() ==> has_decimal_literal(#[trigger] ms[k])
}

/// No member initialized with a numeric literal that has a decimal point.
pub open spec fn no_decimal_literals(ms: Seq<EnumMember>) -> bool {
    forall|k: int| 0 <= k < ms.len() ==> !has_decimal_literal(#[trigger] ms[k])
}

/// Numeric literals that agree on having a decimal point: all of them, or
/// none of them.
pub open spec fn same_decimal_form(ms: Seq<EnumMember>) -> bool {
    all_decimal_literals(ms) || no_decimal_literals(ms)
}

/// String literals throughout give a String enum; numeric literals
/// throughout give a Double enum when each has a decimal point and an Int
/// enum when none has; anything else (mixed kinds, a missing initializer,
/// numbers that disagree on the decimal point) is ordinal.
pub open spec fn enum_kind(e: EnumDeclaration) -> EnumKind {
    let ms = e.members@;
    if all_string_literals(ms) {
        EnumKind::Uniform(EnumRawType::Str)
    } else if all_numeric_literals(ms) && all_decimal_literals(ms) {
        EnumKind::Uniform(EnumRawType::Double)
    } else if all_numeric_literals(ms) && no_decimal_literals(ms) {
        EnumKind::Uniform(EnumRawType::Int)
    } else {
        EnumKind::NonUniform
    }
}

fn member_has_string_literal(m: &EnumMember) -> (r: bool)
    ensures
        r == has_string_literal(*m),
{
    match &m.initializer {
        Some(Initializer::StringLiteral(_)) => true,
        _ => false,
    }
}

fn member_has_numeric_literal(m: &EnumMember) -> (r: bool)
    ensures
        r == has_numeric_literal(*m),
{
    match &m.initializer {
        Some(Initializer::NumericLiteral(_)) => true,
        _ => false,
    }
}

fn member_has_decimal_literal(m: &EnumMember) -> (r: bool)
    ensures
        r == has_decimal_literal(*m),
{
    match &m.initializer {
        Some(Initializer::NumericLiteral(t)) => contains_text(t.as_str(), "."),
        _ => false,
    }
}

fn all_members_string(ms: &Vec<EnumMember>) -> (r: bool)
    ensures
        r == all_string_literals(ms@),
{
    let mut k: usize = 0;
    while k < ms.len()
        invariant
            k <= ms@.len(),
            forall|j: int| 0 <= j < k ==> has_string_literal(#[trigger] ms@[j]),
        decreases ms.len() - k,
    {
        if !member_has_string_literal(&ms[k]) {
            return false;
        }
        k = k + 1;
    }
    true
}

fn all_members_numeric(ms: &Vec<EnumMember>) -> (r: bool)
    ensures
        r == all_numeric_literals(ms@),
{
    let mut k: usize = 0;
    while k < ms.len()
        invariant
            k <= ms@.len(),
            forall|j: int| 0 <= j < k ==> has_numeric_literal(#[trigger] ms@[j]),
        decreases ms.len() - k,
    {
        if !member_has_numeric_literal(&ms[k]) {
            return false;
        }
        k = k + 1;
    }
    true
}

fn all_members_decimal(ms: &Vec<EnumMember>) -> (r: bool)
    ensures
        r == all_decimal_literals(ms@),
{
    let mut k: usize = 0;
    while k < ms.len()
        invariant
            k <= ms@.len(),
            forall|j: int| 0 <= j < k ==> has_decimal_literal(#[trigger] ms@[j]),
        decreases ms.len() - k,
    {
        if !member_has_decimal_literal(&ms[k]) {
            return false;
        }
        k = k + 1;
    }
    true
}

fn no_members_decimal(ms: &Vec<EnumMember>) -> (r: bool)
    ensures
        r == no_decimal_literals(ms@),
{
    let mut k: usize = 0;
    while k < ms.len()
        invariant
            k <= ms@.len(),
            forall|j: int| 0 <= j < k ==> !has_decimal_literal(#[trigger] ms@[j]),
        decreases ms.len() - k,
    {
        if member_has_decimal_literal(&ms[k]) {
            return false;
        }
        k = k + 1;
    }
    true
}

/// Classifies an enum by the initializers of its members.
pub fn classify_enum(e: &EnumDeclaration) -> (r: EnumKind)
    ensures
        r == enum_kind(*e),
{
    if all_members_string(&e.members) {
        EnumKind::Uniform(EnumRawType::Str)
    } else if all_members_numeric(&e.members) {
        if all_members_decimal(&e.members) {
            EnumKind::Uniform(EnumRawType::Double)
        } else if no_members_decimal(&e.members) {
            EnumKind::Uniform(EnumRawType::Int)
        } else {
            EnumKind::NonUniform
        }
    } else {
        EnumKind::NonUniform
    }
}

} // verus!
