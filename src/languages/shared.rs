//! Classifier traits shared by the back ends.

use vstd::prelude::*;

use crate::ast::{
    EnumDeclaration, Initializer, MethodSignature, PropertySignature, TypeExpr, TypeReference,
};
use crate::languages::blocks::{raw_type_string, raw_type_text};
use crate::languages::classify::{
    annotation_is_async, classify_enum, enum_kind, is_async_annotation, is_promise,
    type_is_async, EnumKind,
};
use crate::languages::members::{initializer_string, initializer_text};
use crate::text::str_equals;

verus! {

/// The raw type named in an enum's header: the classified kind of a
/// raw-value enum; an ordinal enum names none, so empty.
pub open spec fn display_type_text(e: EnumDeclaration) -> Seq<char> {
    match enum_kind(e) {
        EnumKind::Uniform(k) => raw_type_text(k),
        EnumKind::NonUniform => Seq::empty(),
    }
}

/// Renders the raw type named in an enum's header.
pub fn display_type_string(e: &EnumDeclaration) -> (r: String)
    ensures
        r@ == display_type_text(*e),
{
    match classify_enum(e) {
        EnumKind::Uniform(k) => raw_type_string(k),
        EnumKind::NonUniform => String::new(),
    }
}

/// Classification of an enum by its initializers.
pub trait IsEnumWithInitializerType {
    spec fn has_uniform_initializers(&self) -> bool;

    spec fn display_type(&self) -> Seq<char>;

    /// Whether every member carries a literal of one kind.
    fn is_enum_with_initializer_type(&self) -> (r: bool)
        ensures
            r == self.has_uniform_initializers(),
    ;

    /// The raw type of the enum's cases.
    fn get_enum_display_type(&self) -> (r: String)
        ensures
            r@ == self.display_type(),
    ;
}

impl IsEnumWithInitializerType for EnumDeclaration {
    open spec fn has_uniform_initializers(&self) -> bool {
        enum_kind(*self) is Uniform
    }

    open spec fn display_type(&self) -> Seq<char> {
        display_type_text(*self)
    }

    fn is_enum_with_initializer_type(&self) -> (r: bool) {
        match classify_enum(self) {
            EnumKind::Uniform(_) => true,
            EnumKind::NonUniform => false,
        }
    }

    fn get_enum_display_type(&self) -> (r: String) {
        display_type_string(self)
    }
}

/// The literal that an enum case is written with.
pub trait GetEnumDisplayValue {
    spec fn display_value(&self) -> Seq<char>;

    fn get_enum_display_value(&self) -> (r: String)
        ensures
            r@ == self.display_value(),
    ;
}

impl GetEnumDisplayValue for Initializer {
    open spec fn display_value(&self) -> Seq<char> {
        initializer_text(*self)
    }

    fn get_enum_display_value(&self) -> (r: String) {
        initializer_string(self)
    }
}

/// Whether a node stands for an asynchronous result (`Promise<T>`).
pub trait IsAsyncType {
    spec fn is_async(&self) -> bool;

    fn is_async_type(&self) -> (r: bool)
        ensures
            r == self.is_async(),
    ;
}

impl IsAsyncType for TypeReference {
    open spec fn is_async(&self) -> bool {
        self.name@ == "Promise"@
    }

    fn is_async_type(&self) -> (r: bool) {
        str_equals(self.name.as_str(), "Promise")
    }
}

impl IsAsyncType for TypeExpr {
    open spec fn is_async(&self) -> bool {
        is_promise(*self)
    }

    fn is_async_type(&self) -> (r: bool) {
        type_is_async(self)
    }
}

impl IsAsyncType for PropertySignature {
    open spec fn is_async(&self) -> bool {
        is_async_annotation(self.type_annotation)
    }

    fn is_async_type(&self) -> (r: bool) {
        annotation_is_async(&self.type_annotation)
    }
}

impl IsAsyncType for MethodSignature {
    open spec fn is_async(&self) -> bool {
        is_async_annotation(self.return_type)
    }

    fn is_async_type(&self) -> (r: bool) {
        annotation_is_async(&self.return_type)
    }
}

} // verus!
