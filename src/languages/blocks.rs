//! Whole declarations, statements and programs.

use vstd::prelude::*;
use vstd::string::StringExecFns;

use crate::ast::{
    Declaration, EnumDeclaration, EnumMember, ExportNamedDeclaration, InterfaceDeclaration,
    Program, Signature, Statement,
};
use crate::languages::classify::{
    classify_enum, enum_kind, interface_is_behavioral, is_behavioral, EnumKind, EnumRawType,
};
use crate::languages::language_factory::LanguageType;
use crate::languages::members::{
    bare_case_line, bare_case_text, case_line, case_text, field_line, field_text, member_line,
    member_text,
};
use crate::text::{contains, contains_text, join, join_strings, views};

verus! {

// ---------------------------------------------------------------------------
// Interfaces
// ---------------------------------------------------------------------------

/// One line per member of a behavioral declaration, in source order.
pub open spec fn member_lines(body: Seq<Signature>, lang: LanguageType) -> Seq<Seq<char>> {
    Seq::new(body.len(), |k: int| member_text(body[k], lang))
}

/// One line per member of a structural declaration, in source order.
pub open spec fn field_lines(body: Seq<Signature>, lang: LanguageType) -> Seq<Seq<char>> {
    Seq::new(body.len(), |k: int| field_text(body[k], lang))
}

/// The separator between the fields of a structural declaration.
pub open spec fn field_separator(lang: LanguageType) -> Seq<char> {
    match lang {
        LanguageType::Swift => "\n"@,
        LanguageType::Kotlin => ",\n"@,
    }
}

/// A protocol (Swift) or interface (Kotlin) block around its lines.
pub open spec fn behavioral_block(name: Seq<char>, body: Seq<char>, lang: LanguageType) -> Seq<
    char,
> {
    match lang {
        LanguageType::Swift => "protocol "@ + name + " {\n"@ + body + "\n}\n\n"@,
        LanguageType::Kotlin => "interface "@ + name + " {\n"@ + body + "\n}\n\n"@,
    }
}

/// A struct (Swift) or data class (Kotlin) block around its fields.
pub open spec fn structural_block(name: Seq<char>, body: Seq<char>, lang: LanguageType) -> Seq<
    char,
> {
    match lang {
        LanguageType::Swift => "struct "@ + name + " {\n"@ + body + "\n}\n\n"@,
        LanguageType::Kotlin => "data class "@ + name + " (\n"@ + body + "\n)\n\n"@,
    }
}

/// The behavioral block of an interface.
pub open spec fn behavioral_text(i: InterfaceDeclaration, lang: LanguageType) -> Seq<char> {
    behavioral_block(i.name@, join(member_lines(i.body@, lang), "\n"@), lang)
}

/// The structural block of an interface.
pub open spec fn structural_text(i: InterfaceDeclaration, lang: LanguageType) -> Seq<char> {
    structural_block(i.name@, join(field_lines(i.body@, lang), field_separator(lang)), lang)
}

/// An interface: behavioral when a member is callable, structural otherwise.
pub open spec fn interface_text(i: InterfaceDeclaration, lang: LanguageType) -> Seq<char> {
    if is_behavioral(i) {
        behavioral_text(i, lang)
    } else {
        structural_text(i, lang)
    }
}

fn member_strings(body: &Vec<Signature>, lang: LanguageType) -> (r: Vec<String>)
    ensures
        views(r@) == member_lines(body@, lang),
{
    let mut lines: Vec<String> = Vec::new();
    let mut k: usize = 0;
    while k < body.len()
        invariant
            k <= body@.len(),
            views(lines@) == member_lines(body@, lang).take(k as int),
        decreases body.len() - k,
    {
        let line = member_line(&body[k], lang);
        proof {
            assert(views(lines@.push(line)) =~= views(lines@).push(line@));
            assert(member_lines(body@, lang).take(k + 1) =~= member_lines(body@, lang).take(
                k as int,
            ).push(member_text(body@[k as int], lang)));
        }
        lines.push(line);
        k = k + 1;
    }
    assert(member_lines(body@, lang).take(k as int) =~= member_lines(body@, lang));
    lines
}

fn field_strings(body: &Vec<Signature>, lang: LanguageType) -> (r: Vec<String>)
    ensures
        views(r@) == field_lines(body@, lang),
{
    let mut lines: Vec<String> = Vec::new();
    let mut k: usize = 0;
    while k < body.len()
        invariant
            k <= body@.len(),
            views(lines@) == field_lines(body@, lang).take(k as int),
        decreases body.len() - k,
    {
        let line = field_line(&body[k], lang);
        proof {
            assert(views(lines@.push(line)) =~= views(lines@).push(line@));
            assert(field_lines(body@, lang).take(k + 1) =~= field_lines(body@, lang).take(
                k as int,
            ).push(field_text(body@[k as int], lang)));
        }
        lines.push(line);
        k = k + 1;
    }
    assert(field_lines(body@, lang).take(k as int) =~= field_lines(body@, lang));
    lines
}

/// Renders an interface as a behavioral or a structural block.
pub fn interface_block(i: &InterfaceDeclaration, lang: LanguageType) -> (r: String)
    ensures
        r@ == interface_text(*i, lang),
{
    if interface_is_behavioral(i) {
        let lines = member_strings(&i.body, lang);
        let body = join_strings(&lines, "\n");
        let mut s = match lang {
            LanguageType::Swift => String::from_str("protocol "),
            LanguageType::Kotlin => String::from_str("interface "),
        };
        s.append(i.name.as_str());
        s.append(" {\n");
        s.append(body.as_str());
        s.append("\n}\n\n");
        s
    } else {
        let lines = field_strings(&i.body, lang);
        match lang {
            LanguageType::Swift => {
                let body = join_strings(&lines, "\n");
                let mut s = String::from_str("struct ");
                s.append(i.name.as_str());
                s.append(" {\n");
                s.append(body.as_str());
                s.append("\n}\n\n");
                s
            },
            LanguageType::Kotlin => {
                let body = join_strings(&lines, ",\n");
                let mut s = String::from_str("data class ");
                s.append(i.name.as_str());
                s.append(" (\n");
                s.append(body.as_str());
                s.append("\n)\n\n");
                s
            },
        }
    }
}

// ---------------------------------------------------------------------------
// Enums
// ---------------------------------------------------------------------------

/// One case per member, each with its literal, in source order.
pub open spec fn case_lines(members: Seq<EnumMember>, lang: LanguageType) -> Seq<Seq<char>> {
    Seq::new(members.len(), |k: int| case_text(members[k], lang))
}

/// One bare case per member, in source order.
pub open spec fn bare_case_lines(members: Seq<EnumMember>, lang: LanguageType) -> Seq<Seq<char>> {
    Seq::new(members.len(), |k: int| bare_case_text(members[k], lang))
}

/// The separator between enum cases; Kotlin enum entries take commas.
pub open spec fn case_separator(lang: LanguageType) -> Seq<char> {
    match lang {
        LanguageType::Swift => "\n"@,
        LanguageType::Kotlin => ",\n"@,
    }
}

/// The name of a raw-value type.
pub open spec fn raw_type_text(k: EnumRawType) -> Seq<char> {
    match k {
        EnumRawType::Str => "String"@,
        EnumRawType::Int => "Int"@,
        EnumRawType::Double => "Double"@,
    }
}

/// Renders the name of a raw-value type.
pub fn raw_type_string(k: EnumRawType) -> (r: String)
    ensures
        r@ == raw_type_text(k),
{
    match k {
        EnumRawType::Str => String::from_str("String"),
        EnumRawType::Int => String::from_str("Int"),
        EnumRawType::Double => String::from_str("Double"),
    }
}

/// A raw-value enum: its header names the raw type.
pub open spec fn raw_enum_block(
    name: Seq<char>,
    raw: Seq<char>,
    body: Seq<char>,
    lang: LanguageType,
) -> Seq<char> {
    match lang {
        LanguageType::Swift => "enum "@ + name + ": "@ + raw + ", CaseIterable { \n"@ + body
            + "\n}\n"@,
        LanguageType::Kotlin => "enum class "@ + name + "(val value: "@ + raw + ") { \n"@ + body
            + "\n}\n"@,
    }
}

/// An ordinal enum: no raw type in its header.
pub open spec fn ordinal_enum_block(name: Seq<char>, body: Seq<char>, lang: LanguageType) -> Seq<
    char,
> {
    match lang {
        LanguageType::Swift => "enum "@ + name + ": CaseIterable { \n"@ + body + "\n}\n"@,
        LanguageType::Kotlin => "enum class "@ + name + " { \n"@ + body + "\n}\n"@,
    }
}

/// An enum, raw-value backed when its members' literals agree in kind.
pub open spec fn enum_text(e: EnumDeclaration, lang: LanguageType) -> Seq<char> {
    match enum_kind(e) {
        EnumKind::Uniform(k) => raw_enum_block(
            e.name@,
            raw_type_text(k),
            join(case_lines(e.members@, lang), case_separator(lang)),
            lang,
        ),
        EnumKind::NonUniform => ordinal_enum_block(
            e.name@,
            join(bare_case_lines(e.members@, lang), case_separator(lang)),
            lang,
        ),
    }
}

fn case_strings(members: &Vec<EnumMember>, lang: LanguageType) -> (r: Vec<String>)
    ensures
        views(r@) == case_lines(members@, lang),
{
    let mut lines: Vec<String> = Vec::new();
    let mut k: usize = 0;
    while k < members.len()
        invariant
            k <= members@.len(),
            views(lines@) == case_lines(members@, lang).take(k as int),
        decreases members.len() - k,
    {
        let line = case_line(&members[k], lang);
        proof {
            assert(views(lines@.push(line)) =~= views(lines@).push(line@));
            assert(case_lines(members@, lang).take(k + 1) =~= case_lines(members@, lang).take(
                k as int,
            ).push(case_text(members@[k as int], lang)));
        }
        lines.push(line);
        k = k + 1;
    }
    assert(case_lines(members@, lang).take(k as int) =~= case_lines(members@, lang));
    lines
}

fn bare_case_strings(members: &Vec<EnumMember>, lang: LanguageType) -> (r: Vec<String>)
    ensures
        views(r@) == bare_case_lines(members@, lang),
{
    let mut lines: Vec<String> = Vec::new();
    let mut k: usize = 0;
    while k < members.len()
        invariant
            k <= members@.len(),
            views(lines@) == bare_case_lines(members@, lang).take(k as int),
        decreases members.len() - k,
    {
        let line = bare_case_line(&members[k], lang);
        proof {
            assert(views(lines@.push(line)) =~= views(lines@).push(line@));
            assert(bare_case_lines(members@, lang).take(k + 1) =~= bare_case_lines(
                members@,
                lang,
            ).take(k as int).push(bare_case_text(members@[k as int], lang)));
        }
        lines.push(line);
        k = k + 1;
    }
    assert(bare_case_lines(members@, lang).take(k as int) =~= bare_case_lines(members@, lang));
    lines
}

/// Renders an enum as a raw-value or an ordinal enum.
pub fn enum_block(e: &EnumDeclaration, lang: LanguageType) -> (r: String)
    ensures
        r@ == enum_text(*e, lang),
{
    let separator = match lang {
        LanguageType::Swift => "\n",
        LanguageType::Kotlin => ",\n",
    };
    match classify_enum(e) {
        EnumKind::Uniform(k) => {
            let lines = case_strings(&e.members, lang);
            let body = join_strings(&lines, separator);
            let raw = raw_type_string(k);
            let mut s = match lang {
                LanguageType::Swift => String::from_str("enum "),
                LanguageType::Kotlin => String::from_str("enum class "),
            };
            s.append(e.name.as_str());
            match lang {
                LanguageType::Swift => s.append(": "),
                LanguageType::Kotlin => s.append("(val value: "),
            }
            s.append(raw.as_str());
            match lang {
                LanguageType::Swift => s.append(", CaseIterable { \n"),
                LanguageType::Kotlin => s.append(") { \n"),
            }
            s.append(body.as_str());
            s.append("\n}\n");
            s
        },
        EnumKind::NonUniform => {
            let lines = bare_case_strings(&e.members, lang);
            let body = join_strings(&lines, separator);
            let mut s = match lang {
                LanguageType::Swift => String::from_str("enum "),
                LanguageType::Kotlin => String::from_str("enum class "),
            };
            s.append(e.name.as_str());
            match lang {
                LanguageType::Swift => s.append(": CaseIterable { \n"),
                LanguageType::Kotlin => s.append(" { \n"),
            }
            s.append(body.as_str());
            s.append("\n}\n");
            s
        },
    }
}

// ---------------------------------------------------------------------------
// Declarations, statements, programs
// ---------------------------------------------------------------------------

/// A declaration; one of another kind leaves a comment line.
pub open spec fn declaration_text(d: Declaration, lang: LanguageType) -> Seq<char> {
    match d {
        Declaration::Interface(i) => interface_text(i, lang),
        Declaration::Enum(e) => enum_text(e, lang),
        Declaration::Other => "// unknown-declaration\n\n"@,
    }
}

/// Renders an exportable declaration.
pub fn declaration_block(d: &Declaration, lang: LanguageType) -> (r: String)
    ensures
        r@ == declaration_text(*d, lang),
{
    match d {
        Declaration::Interface(i) => interface_block(i, lang),
        Declaration::Enum(e) => enum_block(e, lang),
        Declaration::Other => String::from_str("// unknown-declaration\n\n"),
    }
}

/// An exported declaration: the rendered declaration behind the `public`
/// keyword, which marks its first line only.
pub open spec fn export_text(x: ExportNamedDeclaration, lang: LanguageType) -> Seq<char> {
    match x.declaration {
        None => "// unknown-export-named-declaration\n\n"@,
        Some(Declaration::Other) => declaration_text(Declaration::Other, lang),
        Some(d) => "public "@ + declaration_text(d, lang),
    }
}

/// Renders an exported declaration.
pub fn export_block(x: &ExportNamedDeclaration, lang: LanguageType) -> (r: String)
    ensures
        r@ == export_text(*x, lang),
{
    match &x.declaration {
        None => String::from_str("// unknown-export-named-declaration\n\n"),
        Some(Declaration::Other) => declaration_block(&Declaration::Other, lang),
        Some(d) => {
            let mut s = String::from_str("public ");
            let text = declaration_block(d, lang);
            s.append(text.as_str());
            s
        },
    }
}

/// A top-level statement; one of another kind leaves a comment line.
pub open spec fn statement_text(s: Statement, lang: LanguageType) -> Seq<char> {
    match s {
        Statement::Export(x) => export_text(x, lang),
        Statement::Interface(i) => interface_text(i, lang),
        Statement::Enum(e) => enum_text(e, lang),
        Statement::Other => "// unknown-statement\n\n"@,
    }
}

/// Renders a top-level statement.
pub fn statement_block(s: &Statement, lang: LanguageType) -> (r: String)
    ensures
        r@ == statement_text(*s, lang),
{
    match s {
        Statement::Export(x) => export_block(x, lang),
        Statement::Interface(i) => interface_block(i, lang),
        Statement::Enum(e) => enum_block(e, lang),
        Statement::Other => String::from_str("// unknown-statement\n\n"),
    }
}

/// The text of each statement, in source order.
pub open spec fn statement_texts(body: Seq<Statement>, lang: LanguageType) -> Seq<Seq<char>> {
    Seq::new(body.len(), |k: int| statement_text(body[k], lang))
}

/// The statements' texts written one after another.
pub open spec fn declarations_text(p: Program, lang: LanguageType) -> Seq<char> {
    join(statement_texts(p.body@, lang), ""@)
}

/// Kotlin's import of `Deferred`, needed once the declarations use
/// coroutines.
pub open spec fn kotlin_imports_text(declarations: Seq<char>) -> Seq<char> {
    if contains(declarations, "suspend "@) || contains(declarations, "Deferred"@) {
        "import kotlinx.coroutines.Deferred\n"@
    } else {
        Seq::empty()
    }
}

/// The generated file's content for a program.
pub open spec fn program_text(p: Program, lang: LanguageType) -> Seq<char> {
    match lang {
        LanguageType::Swift => declarations_text(p, lang),
        LanguageType::Kotlin => kotlin_imports_text(declarations_text(p, lang)) + "\n"@
            + declarations_text(p, lang),
    }
}

fn statement_strings(body: &Vec<Statement>, lang: LanguageType) -> (r: Vec<String>)
    ensures
        views(r@) == statement_texts(body@, lang),
{
    let mut parts: Vec<String> = Vec::new();
    let mut k: usize = 0;
    while k < body.len()
        invariant
            k <= body@.len(),
            views(parts@) == statement_texts(body@, lang).take(k as int),
        decreases body.len() - k,
    {
        let part = statement_block(&body[k], lang);
        proof {
            assert(views(parts@.push(part)) =~= views(parts@).push(part@));
            assert(statement_texts(body@, lang).take(k + 1) =~= statement_texts(body@, lang).take(
                k as int,
            ).push(statement_text(body@[k as int], lang)));
        }
        parts.push(part);
        k = k + 1;
    }
    assert(statement_texts(body@, lang).take(k as int) =~= statement_texts(body@, lang));
    parts
}

/// Renders a whole program in one pass over its statements.
pub fn program_string(p: &Program, lang: LanguageType) -> (r: String)
    ensures
        r@ == program_text(*p, lang),
{
    let parts = statement_strings(&p.body, lang);
    let output = join_strings(&parts, "");
    match lang {
        LanguageType::Swift => output,
        LanguageType::Kotlin => {
            let mut s = if contains_text(output.as_str(), "suspend ") || contains_text(
                output.as_str(),
                "Deferred",
            ) {
                String::from_str("import kotlinx.coroutines.Deferred\n")
            } else {
                String::new()
            };
            s.append("\n");
            s.append(output.as_str());
            s
        },
    }
}

} // verus!
