//! The TypeScript declarations that the generator reads.
//!
//! These types hold what a parser reports of a program's interfaces and enums;
//! anything the generator does not render is kept as an `Unsupported` or
//! `Other` variant so that it can still be reported in the output.

use vstd::prelude::*;

verus! {

/// The name of an interface member.
pub enum PropertyKey {
    Identifier(String),
    Unsupported,
}

/// The name of a function parameter.
pub enum BindingPattern {
    Identifier(String),
    Unsupported,
}

/// A reference to a named type, with its generic arguments in order.
pub struct TypeReference {
    pub name: String,
    pub type_arguments: Vec<TypeExpr>,
}

/// One parameter of a function or method.
pub struct FormalParameter {
    pub pattern: BindingPattern,
    pub type_annotation: Option<TypeExpr>,
}

/// A parameter list.
pub struct FormalParameters {
    pub items: Vec<FormalParameter>,
}

/// A function type `(params) => R`.
pub struct FunctionType {
    pub params: FormalParameters,
    pub return_type: Box<TypeExpr>,
}

/// A TypeScript type expression.
pub enum TypeExpr {
    StringKeyword,
    NumberKeyword,
    BooleanKeyword,
    VoidKeyword,
    ObjectKeyword,
    Reference(TypeReference),
    Function(FunctionType),
    /// `T[]`
    Array(Box<TypeExpr>),
    /// A type under a type operator such as `readonly T`.
    Operator(Box<TypeExpr>),
    Unsupported,
}

/// A property member `readonly name?: T`.
pub struct PropertySignature {
    pub key: PropertyKey,
    pub type_annotation: Option<TypeExpr>,
    pub readonly: bool,
    pub optional: bool,
}

/// A method member `name(params): R`.
pub struct MethodSignature {
    pub key: PropertyKey,
    pub params: FormalParameters,
    pub return_type: Option<TypeExpr>,
}

/// A member of an interface body.
pub enum Signature {
    Property(PropertySignature),
    Method(MethodSignature),
    /// Call, construct and index signatures.
    Unsupported,
}

/// `interface Name { ... }`
pub struct InterfaceDeclaration {
    pub name: String,
    pub body: Vec<Signature>,
}

/// The initializer of an enum member.
pub enum Initializer {
    StringLiteral(String),
    /// A numeric literal, as the text of its value.
    NumericLiteral(String),
    /// Any other expression.
    Other,
}

/// One member `Name = initializer` of an enum.
pub struct EnumMember {
    pub name: String,
    pub initializer: Option<Initializer>,
}

/// `enum Name { ... }`
pub struct EnumDeclaration {
    pub name: String,
    pub members: Vec<EnumMember>,
}

/// A declaration that an export statement may carry.
pub enum Declaration {
    Interface(InterfaceDeclaration),
    Enum(EnumDeclaration),
    Other,
}

/// `export <declaration>`; an export list without a declaration holds `None`.
pub struct ExportNamedDeclaration {
    pub declaration: Option<Declaration>,
}

/// A top-level statement.
pub enum Statement {
    Export(ExportNamedDeclaration),
    Interface(InterfaceDeclaration),
    Enum(EnumDeclaration),
    Other,
}

/// A parsed program: its top-level statements in source order.
pub struct Program {
    pub body: Vec<Statement>,
}

} // verus!
