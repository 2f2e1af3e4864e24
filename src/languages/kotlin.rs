//! The Kotlin back end.

use vstd::prelude::*;

use crate::ast::{
    BindingPattern, Declaration, EnumDeclaration, EnumMember, ExportNamedDeclaration,
    FormalParameters, FunctionType, InterfaceDeclaration, Program, PropertyKey, Signature,
    Statement, TypeExpr, TypeReference,
};
use crate::languages::blocks::{
    declaration_block, declaration_text, enum_block, enum_text, export_block, export_text,
    interface_block, interface_text, program_string, program_text, statement_block,
    statement_text,
};
use crate::languages::classify::{interface_is_behavioral, is_behavioral};
use crate::languages::language_factory::LanguageType;
use crate::languages::members::{key_string, key_text, member_line, member_text};
use crate::languages::shared::{display_type_string, display_type_text};
use crate::languages::render::{
    binding_string, binding_text, function_text, map_function_type, map_params, map_reference,
    map_type, params_text, reference_type_text, type_text,
};

verus! {

/// Kotlin text for a syntax node.
pub trait KotlinType {
    spec fn kotlin_text(&self) -> Seq<char>;

    fn to_kotlin_type(&self) -> (r: String)
        ensures
            r@ == self.kotlin_text(),
    ;
}

/// Whether an interface stays a Kotlin interface rather than a data class.
pub trait KotlinIsInterfaceType {
    spec fn is_interface(&self) -> bool;

    fn is_kotlin_interface_type(&self) -> (r: bool)
        ensures
            r == self.is_interface(),
    ;
}

/// The type of the `value` that backs a Kotlin enum class.
pub trait KotlinEnumDisplayType {
    spec fn kotlin_display_type(&self) -> Seq<char>;

    fn to_kotlin_enum_display_type(&self) -> (r: String)
        ensures
            r@ == self.kotlin_display_type(),
    ;
}

impl KotlinType for PropertyKey {
    open spec fn kotlin_text(&self) -> Seq<char> {
        key_text(*self)
    }

    fn to_kotlin_type(&self) -> (r: String) {
        key_string(self)
    }
}

impl KotlinType for BindingPattern {
    open spec fn kotlin_text(&self) -> Seq<char> {
        binding_text(*self)
    }

    fn to_kotlin_type(&self) -> (r: String) {
        binding_string(self)
    }
}

impl KotlinType for TypeReference {
    open spec fn kotlin_text(&self) -> Seq<char> {
        reference_type_text(*self, LanguageType::Kotlin)
    }

    fn to_kotlin_type(&self) -> (r: String) {
        map_reference(self, LanguageType::Kotlin)
    }
}

impl KotlinType for FunctionType {
    open spec fn kotlin_text(&self) -> Seq<char> {
        function_text(*self, LanguageType::Kotlin)
    }

    fn to_kotlin_type(&self) -> (r: String) {
        map_function_type(self, LanguageType::Kotlin)
    }
}

impl KotlinType for TypeExpr {
    open spec fn kotlin_text(&self) -> Seq<char> {
        type_text(*self, LanguageType::Kotlin)
    }

    fn to_kotlin_type(&self) -> (r: String) {
        map_type(self, LanguageType::Kotlin)
    }
}

impl KotlinType for FormalParameters {
    open spec fn kotlin_text(&self) -> Seq<char> {
        params_text(self.items@, LanguageType::Kotlin)
    }

    fn to_kotlin_type(&self) -> (r: String) {
        map_params(&self.items, LanguageType::Kotlin)
    }
}

impl KotlinType for Signature {
    open spec fn kotlin_text(&self) -> Seq<char> {
        member_text(*self, LanguageType::Kotlin)
    }

    fn to_kotlin_type(&self) -> (r: String) {
        member_line(self, LanguageType::Kotlin)
    }
}

impl KotlinType for InterfaceDeclaration {
    open spec fn kotlin_text(&self) -> Seq<char> {
        interface_text(*self, LanguageType::Kotlin)
    }

    fn to_kotlin_type(&self) -> (r: String) {
        interface_block(self, LanguageType::Kotlin)
    }
}

impl KotlinType for Declaration {
    open spec fn kotlin_text(&self) -> Seq<char> {
        declaration_text(*self, LanguageType::Kotlin)
    }

    fn to_kotlin_type(&self) -> (r: String) {
        declaration_block(self, LanguageType::Kotlin)
    }
}

impl KotlinType for ExportNamedDeclaration {
    open spec fn kotlin_text(&self) -> Seq<char> {
        export_text(*self, LanguageType::Kotlin)
    }

    fn to_kotlin_type(&self) -> (r: String) {
        export_block(self, LanguageType::Kotlin)
    }
}

impl KotlinType for EnumMember {
    open spec fn kotlin_text(&self) -> Seq<char> {
        self.name@
    }

    fn to_kotlin_type(&self) -> (r: String) {
        self.name.clone()
    }
}

impl KotlinType for EnumDeclaration {
    open spec fn kotlin_text(&self) -> Seq<char> {
        enum_text(*self, LanguageType::Kotlin)
    }

    fn to_kotlin_type(&self) -> (r: String) {
        enum_block(self, LanguageType::Kotlin)
    }
}

impl KotlinType for Statement {
    open spec fn kotlin_text(&self) -> Seq<char> {
        statement_text(*self, LanguageType::Kotlin)
    }

    fn to_kotlin_type(&self) -> (r: String) {
        statement_block(self, LanguageType::Kotlin)
    }
}

impl KotlinIsInterfaceType for InterfaceDeclaration {
    open spec fn is_interface(&self) -> bool {
        is_behavioral(*self)
    }

    fn is_kotlin_interface_type(&self) -> (r: bool) {
        interface_is_behavioral(self)
    }
}

impl KotlinEnumDisplayType for EnumDeclaration {
    open spec fn kotlin_display_type(&self) -> Seq<char> {
        display_type_text(*self)
    }

    fn to_kotlin_enum_display_type(&self) -> (r: String) {
        display_type_string(self)
    }
}

/// Generates Kotlin declarations.
pub struct KotlinTransformer;

impl KotlinTransformer {
    /// The Kotlin declarations of a program, in source order, after the
    /// coroutine import when they need it.
    pub fn transform(ast_program: &Program) -> (r: String)
        ensures
            r@ == program_text(*ast_program, LanguageType::Kotlin),
    {
        program_string(ast_program, LanguageType::Kotlin)
    }
}

} // verus!
