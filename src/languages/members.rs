//! One line of target text per interface member or enum case.

use vstd::prelude::*;
use vstd::string::StringExecFns;

use crate::ast::{
    EnumMember, FunctionType, Initializer, MethodSignature, PropertyKey, PropertySignature,
    Signature, TypeExpr,
};
use crate::languages::classify::{annotation_is_async, is_async_annotation, is_promise, type_is_async};
use crate::languages::language_factory::LanguageType;
use crate::languages::render::{
    function_type_string, function_type_text, map_params, map_type, params_text, type_text,
};

verus! {

// ---------------------------------------------------------------------------
// Pieces
// ---------------------------------------------------------------------------

/// The indentation of a member inside its block.
pub open spec fn indent_text(lang: LanguageType) -> Seq<char> {
    match lang {
        LanguageType::Swift => "  "@,
        LanguageType::Kotlin => "    "@,
    }
}

/// Renders the indentation of a member.
pub fn indent_string(lang: LanguageType) -> (r: String)
    ensures
        r@ == indent_text(lang),
{
    match lang {
        LanguageType::Swift => String::from_str("  "),
        LanguageType::Kotlin => String::from_str("    "),
    }
}

/// The name of a member.
pub open spec fn key_text(k: PropertyKey) -> Seq<char> {
    match k {
        PropertyKey::Identifier(n) => n@,
        PropertyKey::Unsupported => "unknown-PropertyKey"@,
    }
}

/// Renders the name of a member.
pub fn key_string(k: &PropertyKey) -> (r: String)
    ensures
        r@ == key_text(*k),
{
    match k {
        PropertyKey::Identifier(n) => n.clone(),
        PropertyKey::Unsupported => String::from_str("unknown-PropertyKey"),
    }
}

/// The mapped type of a property; empty where the property has no annotation.
pub open spec fn annotation_text(o: Option<TypeExpr>, lang: LanguageType) -> Seq<char> {
    match o {
        Some(t) => type_text(t, lang),
        None => Seq::empty(),
    }
}

fn annotation_string(o: &Option<TypeExpr>, lang: LanguageType) -> (r: String)
    ensures
        r@ == annotation_text(*o, lang),
{
    match o {
        Some(t) => map_type(t, lang),
        None => String::new(),
    }
}

/// The optional marker `?`.
pub open spec fn optional_text(optional: bool) -> Seq<char> {
    if optional {
        "?"@
    } else {
        Seq::empty()
    }
}

fn append_optional(s: &mut String, optional: bool)
    ensures
        final(s)@ == old(s)@ + optional_text(optional),
{
    if optional {
        s.append("?");
    } else {
        assert(old(s)@ + Seq::<char>::empty() =~= old(s)@);
    }
}

/// Kotlin's read-only or mutable property keyword.
pub open spec fn kotlin_mutability_text(readonly: bool) -> Seq<char> {
    if readonly {
        "val"@
    } else {
        "var"@
    }
}

/// A Swift return clause: asynchronous when the type is a `Promise`, whose
/// payload is then the declared return type.
pub open spec fn swift_return_text(t: TypeExpr) -> Seq<char> {
    if is_promise(t) {
        " async throws -> "@ + type_text(t, LanguageType::Swift)
    } else {
        " -> "@ + type_text(t, LanguageType::Swift)
    }
}

/// Renders a Swift return clause.
pub fn swift_return_string(t: &TypeExpr) -> (r: String)
    ensures
        r@ == swift_return_text(*t),
{
    let mut s = if type_is_async(t) {
        String::from_str(" async throws -> ")
    } else {
        String::from_str(" -> ")
    };
    let ty = map_type(t, LanguageType::Swift);
    s.append(ty.as_str());
    s
}

// ---------------------------------------------------------------------------
// Methods
// ---------------------------------------------------------------------------

/// What stands between the indentation and a method's name.
pub open spec fn method_keyword_text(ret: Option<TypeExpr>, lang: LanguageType) -> Seq<char> {
    match lang {
        LanguageType::Swift => "func "@,
        LanguageType::Kotlin => if is_async_annotation(ret) {
            "suspend fun "@
        } else {
            "fun "@
        },
    }
}

/// What follows a method's parameter list; nothing without a return type.
pub open spec fn return_clause_text(ret: Option<TypeExpr>, lang: LanguageType) -> Seq<char> {
    match ret {
        None => Seq::empty(),
        Some(t) => match lang {
            LanguageType::Swift => swift_return_text(t),
            LanguageType::Kotlin => ": "@ + type_text(t, LanguageType::Kotlin),
        },
    }
}

/// `func name(params) -> R` / `fun name(params): R`, with the asynchronous
/// marker when the return type is a `Promise`.
pub open spec fn method_text(m: MethodSignature, lang: LanguageType) -> Seq<char> {
    indent_text(lang) + method_keyword_text(m.return_type, lang) + key_text(m.key) + "("@
        + params_text(m.params.items@, lang) + ")"@ + return_clause_text(m.return_type, lang)
}

fn method_keyword_string(ret: &Option<TypeExpr>, lang: LanguageType) -> (r: String)
    ensures
        r@ == method_keyword_text(*ret, lang),
{
    match lang {
        LanguageType::Swift => String::from_str("func "),
        LanguageType::Kotlin => if annotation_is_async(ret) {
            String::from_str("suspend fun ")
        } else {
            String::from_str("fun ")
        },
    }
}

fn return_clause_string(ret: &Option<TypeExpr>, lang: LanguageType) -> (r: String)
    ensures
        r@ == return_clause_text(*ret, lang),
{
    match ret {
        None => String::new(),
        Some(t) => match lang {
            LanguageType::Swift => swift_return_string(t),
            LanguageType::Kotlin => {
                let mut s = String::from_str(": ");
                let ty = map_type(t, LanguageType::Kotlin);
                s.append(ty.as_str());
                s
            },
        },
    }
}

/// Renders a method of a behavioral declaration.
pub fn method_line(m: &MethodSignature, lang: LanguageType) -> (r: String)
    ensures
        r@ == method_text(*m, lang),
{
    let mut s = indent_string(lang);
    let keyword = method_keyword_string(&m.return_type, lang);
    s.append(keyword.as_str());
    let name = key_string(&m.key);
    s.append(name.as_str());
    s.append("(");
    let params = map_params(&m.params.items, lang);
    s.append(params.as_str());
    s.append(")");
    let ret = return_clause_string(&m.return_type, lang);
    s.append(ret.as_str());
    s
}

// ---------------------------------------------------------------------------
// Properties
// ---------------------------------------------------------------------------

/// A property of function type, rendered in the shape of a method.
pub open spec fn function_property_text(
    p: PropertySignature,
    f: FunctionType,
    lang: LanguageType,
) -> Seq<char> {
    let params = params_text(f.params.items@, lang);
    match lang {
        LanguageType::Swift => indent_text(lang) + "func "@ + key_text(p.key) + "("@ + params
            + ")"@ + swift_return_text(*f.return_type) + optional_text(p.optional),
        LanguageType::Kotlin => indent_text(lang) + kotlin_mutability_text(p.readonly) + " "@
            + key_text(p.key) + ": "@ + (if is_promise(*f.return_type) {
            "suspend "@
        } else {
            Seq::empty()
        }) + function_type_text(params, type_text(*f.return_type, lang), lang),
    }
}

/// Swift's accessor stanza: `get` for read-only or asynchronous properties,
/// `get set` otherwise, and the asynchronous marker for a `Promise`.
pub open spec fn swift_accessor_text(readonly: bool, is_async: bool) -> Seq<char> {
    if is_async {
        " { get async throws }"@
    } else if readonly {
        " { get }"@
    } else {
        " { get set }"@
    }
}

/// A property of a behavioral declaration, not of function type.
pub open spec fn stored_property_text(p: PropertySignature, lang: LanguageType) -> Seq<char> {
    let ty = annotation_text(p.type_annotation, lang);
    let is_async = is_async_annotation(p.type_annotation);
    match lang {
        LanguageType::Swift => indent_text(lang) + "var "@ + key_text(p.key) + ": "@ + ty
            + optional_text(p.optional) + swift_accessor_text(p.readonly, is_async),
        LanguageType::Kotlin => indent_text(lang) + kotlin_mutability_text(p.readonly) + " "@
            + key_text(p.key) + ": "@ + (if is_async {
            "Deferred<"@ + ty + ">"@
        } else {
            ty
        }) + optional_text(p.optional),
    }
}

/// A property of a behavioral declaration.
pub open spec fn property_text(p: PropertySignature, lang: LanguageType) -> Seq<char> {
    match p.type_annotation {
        Some(TypeExpr::Function(f)) => function_property_text(p, f, lang),
        _ => stored_property_text(p, lang),
    }
}

fn kotlin_mutability_string(readonly: bool) -> (r: String)
    ensures
        r@ == kotlin_mutability_text(readonly),
{
    if readonly {
        String::from_str("val")
    } else {
        String::from_str("var")
    }
}

fn function_property_line(p: &PropertySignature, f: &FunctionType, lang: LanguageType) -> (r:
    String)
    ensures
        r@ == function_property_text(*p, *f, lang),
{
    let params = map_params(&f.params.items, lang);
    let name = key_string(&p.key);
    let mut s = indent_string(lang);
    match lang {
        LanguageType::Swift => {
            s.append("func ");
            s.append(name.as_str());
            s.append("(");
            s.append(params.as_str());
            s.append(")");
            let ret = swift_return_string(&f.return_type);
            s.append(ret.as_str());
            append_optional(&mut s, p.optional);
        },
        LanguageType::Kotlin => {
            let keyword = kotlin_mutability_string(p.readonly);
            s.append(keyword.as_str());
            s.append(" ");
            s.append(name.as_str());
            s.append(": ");
            let marker = if type_is_async(&f.return_type) {
                String::from_str("suspend ")
            } else {
                String::new()
            };
            s.append(marker.as_str());
            let ret = map_type(&f.return_type, lang);
            let fn_type = function_type_string(params.as_str(), ret.as_str(), lang);
            s.append(fn_type.as_str());
        },
    }
    s
}

fn stored_property_line(p: &PropertySignature, lang: LanguageType) -> (r: String)
    ensures
        r@ == stored_property_text(*p, lang),
{
    let ty = annotation_string(&p.type_annotation, lang);
    let is_async = annotation_is_async(&p.type_annotation);
    let name = key_string(&p.key);
    let mut s = indent_string(lang);
    match lang {
        LanguageType::Swift => {
            s.append("var ");
            s.append(name.as_str());
            s.append(": ");
            s.append(ty.as_str());
            append_optional(&mut s, p.optional);
            let accessor = if is_async {
                String::from_str(" { get async throws }")
            } else if p.readonly {
                String::from_str(" { get }")
            } else {
                String::from_str(" { get set }")
            };
            s.append(accessor.as_str());
        },
        LanguageType::Kotlin => {
            let keyword = kotlin_mutability_string(p.readonly);
            s.append(keyword.as_str());
            s.append(" ");
            s.append(name.as_str());
            s.append(": ");
            let shown = if is_async {
                let mut d = String::from_str("Deferred<");
                d.append(ty.as_str());
                d.append(">");
                d
            } else {
                ty
            };
            s.append(shown.as_str());
            append_optional(&mut s, p.optional);
        },
    }
    s
}

/// Renders a property of a behavioral declaration.
pub fn property_line(p: &PropertySignature, lang: LanguageType) -> (r: String)
    ensures
        r@ == property_text(*p, lang),
{
    match &p.type_annotation {
        Some(TypeExpr::Function(f)) => function_property_line(p, f, lang),
        _ => stored_property_line(p, lang),
    }
}

// ---------------------------------------------------------------------------
// Members of behavioral and structural declarations
// ---------------------------------------------------------------------------

/// The marker left for a member kind that is not rendered.
pub open spec fn unknown_signature_text() -> Seq<char> {
    "// unknown-signature"@
}

/// A member of a behavioral declaration.
pub open spec fn member_text(s: Signature, lang: LanguageType) -> Seq<char> {
    match s {
        Signature::Property(p) => property_text(p, lang),
        Signature::Method(m) => method_text(m, lang),
        Signature::Unsupported => unknown_signature_text(),
    }
}

/// Renders a member of a behavioral declaration.
pub fn member_line(s: &Signature, lang: LanguageType) -> (r: String)
    ensures
        r@ == member_text(*s, lang),
{
    match s {
        Signature::Property(p) => property_line(p, lang),
        Signature::Method(m) => method_line(m, lang),
        Signature::Unsupported => String::from_str("// unknown-signature"),
    }
}

/// The keyword of an immutable stored field.
pub open spec fn field_keyword_text(lang: LanguageType) -> Seq<char> {
    match lang {
        LanguageType::Swift => "let "@,
        LanguageType::Kotlin => "val "@,
    }
}

/// A member of a structural declaration: an immutable stored field whatever
/// the property's own mutability.
pub open spec fn field_text(s: Signature, lang: LanguageType) -> Seq<char> {
    match s {
        Signature::Property(p) => indent_text(lang) + field_keyword_text(lang) + key_text(p.key)
            + ": "@ + annotation_text(p.type_annotation, lang) + optional_text(p.optional),
        _ => unknown_signature_text(),
    }
}

/// Renders a member of a structural declaration.
pub fn field_line(s: &Signature, lang: LanguageType) -> (r: String)
    ensures
        r@ == field_text(*s, lang),
{
    match s {
        Signature::Property(p) => {
            let mut line = indent_string(lang);
            match lang {
                LanguageType::Swift => line.append("let "),
                LanguageType::Kotlin => line.append("val "),
            }
            let name = key_string(&p.key);
            line.append(name.as_str());
            line.append(": ");
            let ty = annotation_string(&p.type_annotation, lang);
            line.append(ty.as_str());
            append_optional(&mut line, p.optional);
            line
        },
        _ => String::from_str("// unknown-signature"),
    }
}

// ---------------------------------------------------------------------------
// Enum cases
// ---------------------------------------------------------------------------

/// The literal of an initializer: a string quoted, a number as written.
pub open spec fn initializer_text(i: Initializer) -> Seq<char> {
    match i {
        Initializer::StringLiteral(v) => "\""@ + v@ + "\""@,
        Initializer::NumericLiteral(t) => t@,
        Initializer::Other => "UNKNOWN"@,
    }
}

/// Renders the literal of an initializer.
pub fn initializer_string(i: &Initializer) -> (r: String)
    ensures
        r@ == initializer_text(*i),
{
    match i {
        Initializer::StringLiteral(v) => {
            let mut s = String::from_str("\"");
            s.append(v.as_str());
            s.append("\"");
            s
        },
        Initializer::NumericLiteral(t) => t.clone(),
        Initializer::Other => String::from_str("UNKNOWN"),
    }
}

/// The literal of an enum case.
pub open spec fn value_text(o: Option<Initializer>) -> Seq<char> {
    match o {
        Some(i) => initializer_text(i),
        None => "UNKNOWN"@,
    }
}

fn value_string(o: &Option<Initializer>) -> (r: String)
    ensures
        r@ == value_text(*o),
{
    match o {
        Some(i) => initializer_string(i),
        None => String::from_str("UNKNOWN"),
    }
}

/// A case that carries its literal.
pub open spec fn case_text(m: EnumMember, lang: LanguageType) -> Seq<char> {
    match lang {
        LanguageType::Swift => indent_text(lang) + "case "@ + m.name@ + " = "@ + value_text(
            m.initializer,
        ),
        LanguageType::Kotlin => indent_text(lang) + m.name@ + "("@ + value_text(m.initializer)
            + ")"@,
    }
}

/// A bare case of an ordinal enum.
pub open spec fn bare_case_text(m: EnumMember, lang: LanguageType) -> Seq<char> {
    match lang {
        LanguageType::Swift => indent_text(lang) + "case "@ + m.name@,
        LanguageType::Kotlin => indent_text(lang) + m.name@,
    }
}

/// Renders a case of a raw-value enum.
pub fn case_line(m: &EnumMember, lang: LanguageType) -> (r: String)
    ensures
        r@ == case_text(*m, lang),
{
    let mut s = indent_string(lang);
    let value = value_string(&m.initializer);
    match lang {
        LanguageType::Swift => {
            s.append("case ");
            s.append(m.name.as_str());
            s.append(" = ");
            s.append(value.as_str());
        },
        LanguageType::Kotlin => {
            s.append(m.name.as_str());
            s.append("(");
            s.append(value.as_str());
            s.append(")");
        },
    }
    s
}

/// Renders a case of an ordinal enum.
pub fn bare_case_line(m: &EnumMember, lang: LanguageType) -> (r: String)
    ensures
        r@ == bare_case_text(*m, lang),
{
    let mut s = indent_string(lang);
    if lang == LanguageType::Swift {
        s.append("case ");
    }
    s.append(m.name.as_str());
    s
}

} // verus!
