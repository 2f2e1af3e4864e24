//! Facts about the generated text that hold for every input.

use vstd::prelude::*;

use crate::ast::{EnumDeclaration, Initializer, InterfaceDeclaration, Program, Signature};
use crate::languages::blocks::{
    bare_case_lines, behavioral_block, behavioral_text, case_lines, case_separator, enum_text,
    field_lines, field_separator, interface_text, member_lines, ordinal_enum_block, program_text,
    raw_enum_block, raw_type_text, structural_block, structural_text,
};
use crate::languages::classify::{
    all_decimal_literals, all_numeric_literals, all_string_literals, enum_kind,
    has_decimal_literal, has_numeric_literal, has_string_literal, is_behavioral, same_decimal_form,
    is_callable_member, is_function_annotation, EnumKind, EnumRawType,
};
use crate::languages::language_factory::LanguageType;
use crate::languages::members::{
    bare_case_text, case_text, field_text, indent_text, member_text,
};
use crate::text::{contains, join, occurs_at};

verus! {

/// The first character of a structural block differs from that of a
/// behavioral one (`struct`/`protocol`, `data class`/`interface`).
proof fn lemma_blocks_differ(
    name: Seq<char>,
    body: Seq<char>,
    other_body: Seq<char>,
    lang: LanguageType,
)
    ensures
        structural_block(name, body, lang) != behavioral_block(name, other_body, lang),
{
    reveal_strlit("struct ");
    reveal_strlit("protocol ");
    reveal_strlit("data class ");
    reveal_strlit("interface ");
    let s = structural_block(name, body, lang);
    let b = behavioral_block(name, other_body, lang);
    assert(s[0] != b[0]);
}

/// An interface with no method and no property of function type becomes a
/// structural block (struct / data class), never a behavioral one.
pub proof fn lemma_data_interface_is_structural(i: InterfaceDeclaration, lang: LanguageType)
    requires
        forall|k: int|
            0 <= k < i.body@.len() ==> !(#[trigger] i.body@[k] is Method) && !(i.body@[k] matches Signature::Property(
                p,
            ) && is_function_annotation(p.type_annotation)),
    ensures
        !is_behavioral(i),
        interface_text(i, lang) == structural_text(i, lang),
        interface_text(i, lang) != behavioral_text(i, lang),
{
    assert forall|k: int| 0 <= k < i.body@.len() implies !is_callable_member(
        #[trigger] i.body@[k],
    ) by {
        assert(!(i.body@[k] is Method));
    }
    lemma_blocks_differ(
        i.name@,
        join(field_lines(i.body@, lang), field_separator(lang)),
        join(member_lines(i.body@, lang), "\n"@),
        lang,
    );
}

/// An interface with at least one method becomes a behavioral block
/// (protocol / interface).
pub proof fn lemma_method_makes_behavioral(i: InterfaceDeclaration, lang: LanguageType)
    requires
        exists|k: int| 0 <= k < i.body@.len() && #[trigger] i.body@[k] is Method,
    ensures
        is_behavioral(i),
        interface_text(i, lang) == behavioral_text(i, lang),
{
    let k = choose|k: int| 0 <= k < i.body@.len() && #[trigger] i.body@[k] is Method;
    assert(is_callable_member(i.body@[k]));
}

/// An enum whose members all carry string literals is String-backed, and
/// each case line holds its member's literal in quotes.
pub proof fn lemma_string_enum(e: EnumDeclaration, lang: LanguageType)
    requires
        all_string_literals(e.members@),
    ensures
        enum_kind(e) == EnumKind::Uniform(EnumRawType::Str),
        enum_text(e, lang) == raw_enum_block(
            e.name@,
            "String"@,
            join(case_lines(e.members@, lang), case_separator(lang)),
            lang,
        ),
        forall|k: int|
            0 <= k < e.members@.len() ==> ((#[trigger] e.members@[k]).initializer matches Some(
                Initializer::StringLiteral(v),
            ) && contains(case_lines(e.members@, lang)[k], "\""@ + v@ + "\""@)),
{
    let ms = e.members@;
    assert forall|k: int| 0 <= k < ms.len() implies ((#[trigger] ms[k]).initializer matches Some(
        Initializer::StringLiteral(v),
    ) && contains(case_lines(ms, lang)[k], "\""@ + v@ + "\""@)) by {
        assert(has_string_literal(ms[k]));
        let v = ms[k].initializer->Some_0->StringLiteral_0;
        let quoted = "\""@ + v@ + "\""@;
        let line = case_lines(ms, lang)[k];
        let start = match lang {
            LanguageType::Swift => indent_text(lang) + "case "@ + ms[k].name@ + " = "@,
            LanguageType::Kotlin => indent_text(lang) + ms[k].name@ + "("@,
        };
        assert(line.subrange(start.len() as int, start.len() + quoted.len() as int) =~= quoted);
        assert(occurs_at(line, quoted, start.len() as int));
    }
}

/// An enum whose members all carry numeric literals without a decimal point
/// is Int-backed.
pub proof fn lemma_integer_enum(e: EnumDeclaration, lang: LanguageType)
    requires
        e.members@.len() > 0,
        all_numeric_literals(e.members@),
        forall|k: int| 0 <= k < e.members@.len() ==> !has_decimal_literal(#[trigger] e.members@[k]),
    ensures
        enum_kind(e) == EnumKind::Uniform(EnumRawType::Int),
        enum_text(e, lang) == raw_enum_block(
            e.name@,
            "Int"@,
            join(case_lines(e.members@, lang), case_separator(lang)),
            lang,
        ),
{
    let ms = e.members@;
    assert(has_numeric_literal(ms[0]));
    assert(!has_string_literal(ms[0]));
    assert(!has_decimal_literal(ms[0]));
}

/// An enum whose members all carry numeric literals with a decimal point is
/// Double-backed. (Numeric literals that disagree on the decimal point make
/// an ordinal enum: see `lemma_mixed_enum_is_ordinal`.)
pub proof fn lemma_decimal_enum(e: EnumDeclaration, lang: LanguageType)
    requires
        e.members@.len() > 0,
        all_numeric_literals(e.members@),
        all_decimal_literals(e.members@),
    ensures
        enum_kind(e) == EnumKind::Uniform(EnumRawType::Double),
        enum_text(e, lang) == raw_enum_block(
            e.name@,
            "Double"@,
            join(case_lines(e.members@, lang), case_separator(lang)),
            lang,
        ),
{
    let ms = e.members@;
    assert(has_numeric_literal(ms[0]));
    assert(!has_string_literal(ms[0]));
}

/// An enum whose initializers are inconsistent is ordinal: no raw type in
/// its header, and bare cases in source order. Inconsistent means neither
/// all string literals nor all numeric literals that agree on having a
/// decimal point (kinds mixed, an initializer missing, or `1` beside `2.5`).
pub proof fn lemma_mixed_enum_is_ordinal(e: EnumDeclaration, lang: LanguageType)
    requires
        !all_string_literals(e.members@),
        !(all_numeric_literals(e.members@) && same_decimal_form(e.members@)),
    ensures
        enum_kind(e) == EnumKind::NonUniform,
        enum_text(e, lang) == ordinal_enum_block(
            e.name@,
            join(bare_case_lines(e.members@, lang), case_separator(lang)),
            lang,
        ),
        bare_case_lines(e.members@, lang).len() == e.members@.len(),
        forall|k: int|
            0 <= k < e.members@.len() ==> bare_case_lines(e.members@, lang)[k] == bare_case_text(
                #[trigger] e.members@[k],
                lang,
            ),
{
}

/// An interface's block lists one line per member, the k-th line rendering
/// the k-th member.
pub proof fn lemma_interface_member_order(i: InterfaceDeclaration, lang: LanguageType)
    ensures
        interface_text(i, lang) == if is_behavioral(i) {
            behavioral_block(i.name@, join(member_lines(i.body@, lang), "\n"@), lang)
        } else {
            structural_block(
                i.name@,
                join(field_lines(i.body@, lang), field_separator(lang)),
                lang,
            )
        },
        member_lines(i.body@, lang).len() == i.body@.len(),
        field_lines(i.body@, lang).len() == i.body@.len(),
        forall|k: int|
            0 <= k < i.body@.len() ==> member_lines(i.body@, lang)[k]
                == member_text(#[trigger] i.body@[k], lang) && field_lines(i.body@, lang)[k]
                == field_text(i.body@[k], lang),
{
}

/// An enum lists one case per member, the k-th case rendering the k-th
/// member.
pub proof fn lemma_enum_case_order(e: EnumDeclaration, lang: LanguageType)
    ensures
        case_lines(e.members@, lang).len() == e.members@.len(),
        bare_case_lines(e.members@, lang).len() == e.members@.len(),
        forall|k: int|
            0 <= k < e.members@.len() ==> case_lines(e.members@, lang)[k] == case_text(
                #[trigger] e.members@[k],
                lang,
            ) && bare_case_lines(e.members@, lang)[k] == bare_case_text(e.members@[k], lang),
        enum_text(e, lang) == match enum_kind(e) {
            EnumKind::Uniform(_) => raw_enum_block(
                e.name@,
                raw_type_text(enum_kind(e)->Uniform_0),
                join(case_lines(e.members@, lang), case_separator(lang)),
                lang,
            ),
            EnumKind::NonUniform => ordinal_enum_block(
                e.name@,
                join(bare_case_lines(e.members@, lang), case_separator(lang)),
                lang,
            ),
        },
{
}

/// Generation is a function of the program and the language: two runs on
/// the same program give the same text.
pub proof fn lemma_transform_is_deterministic(
    p: Program,
    lang: LanguageType,
    first: Seq<char>,
    second: Seq<char>,
)
    requires
        first == program_text(p, lang),
        second == program_text(p, lang),
    ensures
        first == second,
{
}

} // verus!
