//! The Swift back end.

use vstd::prelude::*;

use crate::ast::{
    BindingPattern, Declaration, EnumDeclaration, EnumMember, ExportNamedDeclaration,
    FormalParameters, FunctionType, InterfaceDeclaration, Program, PropertyKey, Signature,
    Statement, TypeExpr, TypeReference,
};
use crate::languages::blocks::{
    declaration_block, declaration_text, enum_block, enum_text, export_block, export_text,
    interface_block, interface_text, program_string, program_text, statement_block,
    statement_text,
};
use crate::languages::classify::{interface_is_behavioral, is_behavioral};
use crate::languages::language_factory::LanguageType;
use crate::languages::members::{
    field_line, field_text, key_string, key_text, member_line, member_text, swift_return_string,
    swift_return_text,
};
use crate::languages::render::{
    binding_string, binding_text, function_text, map_function_type, map_params, map_reference,
    map_type, params_text, reference_type_text, type_text,
};

verus! {

/// Swift text for a syntax node.
pub trait SwiftType {
    spec fn swift_text(&self) -> Seq<char>;

    fn to_swift_type(&self) -> (r: String)
        ensures
            r@ == self.swift_text(),
    ;
}

/// The return clause of a Swift function: ` -> R`, or ` async throws -> R`
/// for a `Promise<R>`.
pub trait SwiftFunctionReturnType {
    spec fn swift_return_text(&self) -> Seq<char>;

    fn to_swift_fn_return_type(&self) -> (r: String)
        ensures
            r@ == self.swift_return_text(),
    ;
}

/// Whether an interface becomes a Swift protocol rather than a struct.
pub trait SwiftIsProtoclType {
    spec fn is_protocol(&self) -> bool;

    fn is_swift_protocol_type(&self) -> (r: bool)
        ensures
            r == self.is_protocol(),
    ;
}

/// A member rendered as an immutable stored field of a Swift struct.
pub trait SwiftStructType {
    spec fn swift_field_text(&self) -> Seq<char>;

    fn to_swift_struct_type(&self) -> (r: String)
        ensures
            r@ == self.swift_field_text(),
    ;
}

impl SwiftType for PropertyKey {
    open spec fn swift_text(&self) -> Seq<char> {
        key_text(*self)
    }

    fn to_swift_type(&self) -> (r: String) {
        key_string(self)
    }
}

impl SwiftType for BindingPattern {
    open spec fn swift_text(&self) -> Seq<char> {
        binding_text(*self)
    }

    fn to_swift_type(&self) -> (r: String) {
        binding_string(self)
    }
}

impl SwiftType for TypeReference {
    open spec fn swift_text(&self) -> Seq<char> {
        reference_type_text(*self, LanguageType::Swift)
    }

    fn to_swift_type(&self) -> (r: String) {
        map_reference(self, LanguageType::Swift)
    }
}

impl SwiftType for FunctionType {
    open spec fn swift_text(&self) -> Seq<char> {
        function_text(*self, LanguageType::Swift)
    }

    fn to_swift_type(&self) -> (r: String) {
        map_function_type(self, LanguageType::Swift)
    }
}

impl SwiftType for TypeExpr {
    open spec fn swift_text(&self) -> Seq<char> {
        type_text(*self, LanguageType::Swift)
    }

    fn to_swift_type(&self) -> (r: String) {
        map_type(self, LanguageType::Swift)
    }
}

impl SwiftType for FormalParameters {
    open spec fn swift_text(&self) -> Seq<char> {
        params_text(self.items@, LanguageType::Swift)
    }

    fn to_swift_type(&self) -> (r: String) {
        map_params(&self.items, LanguageType::Swift)
    }
}

impl SwiftType for Signature {
    open spec fn swift_text(&self) -> Seq<char> {
        member_text(*self, LanguageType::Swift)
    }

    fn to_swift_type(&self) -> (r: String) {
        member_line(self, LanguageType::Swift)
    }
}

impl SwiftType for InterfaceDeclaration {
    open spec fn swift_text(&self) -> Seq<char> {
        interface_text(*self, LanguageType::Swift)
    }

    fn to_swift_type(&self) -> (r: String) {
        interface_block(self, LanguageType::Swift)
    }
}

impl SwiftType for Declaration {
    open spec fn swift_text(&self) -> Seq<char> {
        declaration_text(*self, LanguageType::Swift)
    }

    fn to_swift_type(&self) -> (r: String) {
        declaration_block(self, LanguageType::Swift)
    }
}

impl SwiftType for ExportNamedDeclaration {
    open spec fn swift_text(&self) -> Seq<char> {
        export_text(*self, LanguageType::Swift)
    }

    fn to_swift_type(&self) -> (r: String) {
        export_block(self, LanguageType::Swift)
    }
}

impl SwiftType for EnumMember {
    open spec fn swift_text(&self) -> Seq<char> {
        self.name@
    }

    fn to_swift_type(&self) -> (r: String) {
        self.name.clone()
    }
}

impl SwiftType for EnumDeclaration {
    open spec fn swift_text(&self) -> Seq<char> {
        enum_text(*self, LanguageType::Swift)
    }

    fn to_swift_type(&self) -> (r: String) {
        enum_block(self, LanguageType::Swift)
    }
}

impl SwiftType for Statement {
    open spec fn swift_text(&self) -> Seq<char> {
        statement_text(*self, LanguageType::Swift)
    }

    fn to_swift_type(&self) -> (r: String) {
        statement_block(self, LanguageType::Swift)
    }
}

impl SwiftFunctionReturnType for TypeExpr {
    open spec fn swift_return_text(&self) -> Seq<char> {
        swift_return_text(*self)
    }

    fn to_swift_fn_return_type(&self) -> (r: String) {
        swift_return_string(self)
    }
}

impl SwiftIsProtoclType for InterfaceDeclaration {
    open spec fn is_protocol(&self) -> bool {
        is_behavioral(*self)
    }

    fn is_swift_protocol_type(&self) -> (r: bool) {
        interface_is_behavioral(self)
    }
}

impl SwiftStructType for Signature {
    open spec fn swift_field_text(&self) -> Seq<char> {
        field_text(*self, LanguageType::Swift)
    }

    fn to_swift_struct_type(&self) -> (r: String) {
        field_line(self, LanguageType::Swift)
    }
}

/// Generates Swift declarations.
pub struct SwiftTransformer;

impl SwiftTransformer {
    /// The Swift declarations of a program, in source order.
    pub fn transform(ast_program: &Program) -> (r: String)
        ensures
            r@ == program_text(*ast_program, LanguageType::Swift),
    {
        program_string(ast_program, LanguageType::Swift)
    }
}

} // verus!
