//! The shared renderer: type mapping, member lines and declaration blocks for
//! every target language, with the spelling of each construct looked up in a
//! small per-language table.

use vstd::prelude::*;
use vstd::string::StringExecFns;

use crate::ast::{BindingPattern, FormalParameter, FunctionType, TypeExpr, TypeReference};
use crate::languages::language_factory::LanguageType;
use crate::text::{join, lemma_join_push, str_equals};

verus! {

broadcast use vstd::std_specs::vec::group_vec_axioms, vstd::seq::group_seq_axioms;

// ---------------------------------------------------------------------------
// The per-language table
// ---------------------------------------------------------------------------

/// The universal top type, used wherever a type is missing or not recognised.
pub open spec fn top_text() -> Seq<char> {
    "Any"@
}

/// The boolean type.
pub open spec fn boolean_text(lang: LanguageType) -> Seq<char> {
    match lang {
        LanguageType::Swift => "Bool"@,
        LanguageType::Kotlin => "Boolean"@,
    }
}

/// The type of no value.
pub open spec fn void_text(lang: LanguageType) -> Seq<char> {
    match lang {
        LanguageType::Swift => "Void"@,
        LanguageType::Kotlin => "Unit"@,
    }
}

/// The string-keyed map that stands for `object`.
pub open spec fn object_text(lang: LanguageType) -> Seq<char> {
    match lang {
        LanguageType::Swift => "[String: Any]"@,
        LanguageType::Kotlin => "Map<String, Any>"@,
    }
}

/// An ordered sequence of `element`.
pub open spec fn list_text(element: Seq<char>, lang: LanguageType) -> Seq<char> {
    match lang {
        LanguageType::Swift => "["@ + element + "]"@,
        LanguageType::Kotlin => "List<"@ + element + ">"@,
    }
}

/// A map from `key` to `value`.
pub open spec fn dictionary_text(key: Seq<char>, value: Seq<char>, lang: LanguageType) -> Seq<
    char,
> {
    match lang {
        LanguageType::Swift => "["@ + key + ": "@ + value + "]"@,
        LanguageType::Kotlin => "Map<"@ + key + ", "@ + value + ">"@,
    }
}

/// A set of `element`.
pub open spec fn set_text(element: Seq<char>) -> Seq<char> {
    "Set<"@ + element + ">"@
}

/// A function type. Swift function types take no argument labels, so a
/// non-empty Swift parameter list opens with `_ `.
pub open spec fn function_type_text(params: Seq<char>, ret: Seq<char>, lang: LanguageType) -> Seq<
    char,
> {
    match lang {
        LanguageType::Swift => if params.len() > 0 {
            "(_ "@ + params + ") -> "@ + ret
        } else {
            "("@ + params + ") -> "@ + ret
        },
        LanguageType::Kotlin => "("@ + params + ") -> "@ + ret,
    }
}

fn list_string(element: &str, lang: LanguageType) -> (r: String)
    ensures
        r@ == list_text(element@, lang),
{
    let mut s = match lang {
        LanguageType::Swift => String::from_str("["),
        LanguageType::Kotlin => String::from_str("List<"),
    };
    s.append(element);
    match lang {
        LanguageType::Swift => s.append("]"),
        LanguageType::Kotlin => s.append(">"),
    }
    s
}

fn dictionary_string(key: &str, value: &str, lang: LanguageType) -> (r: String)
    ensures
        r@ == dictionary_text(key@, value@, lang),
{
    let mut s = match lang {
        LanguageType::Swift => String::from_str("["),
        LanguageType::Kotlin => String::from_str("Map<"),
    };
    s.append(key);
    match lang {
        LanguageType::Swift => s.append(": "),
        LanguageType::Kotlin => s.append(", "),
    }
    s.append(value);
    match lang {
        LanguageType::Swift => s.append("]"),
        LanguageType::Kotlin => s.append(">"),
    }
    s
}

/// Renders a function type from its rendered parameters and return type.
pub fn function_type_string(params: &str, ret: &str, lang: LanguageType) -> (r: String)
    ensures
        r@ == function_type_text(params@, ret@, lang),
{
    let mut s = String::from_str("(");
    if lang == LanguageType::Swift && params.unicode_len() > 0 {
        s.append("_ ");
        assert(s@ == "(_ "@) by {
            reveal_strlit("(");
            reveal_strlit("_ ");
            reveal_strlit("(_ ");
        }
    }
    s.append(params);
    s.append(") -> ");
    s.append(ret);
    s
}

// ---------------------------------------------------------------------------
// Type mapping
// ---------------------------------------------------------------------------

/// How a named type reference is rendered, decided by its name alone.
#[derive(PartialEq, Eq, Structural, Clone, Copy, Debug)]
pub enum ReferenceKind {
    /// `Promise<T>`: the payload `T`; asynchrony is marked elsewhere.
    Promise,
    /// `Array<T>`, `ReadonlyArray<T>`
    List,
    /// `Record<K, V>`, `Map<K, V>`, `ReadonlyMap<K, V>`
    Dictionary,
    /// `Set<T>`
    SetOf,
    /// Any other name, passed through as a sibling generated type.
    Named,
}

/// The rendering rule for a referenced type name.
pub open spec fn reference_kind(name: Seq<char>) -> ReferenceKind {
    if name == "Promise"@ {
        ReferenceKind::Promise
    } else if name == "Array"@ || name == "ReadonlyArray"@ {
        ReferenceKind::List
    } else if name == "Record"@ || name == "Map"@ || name == "ReadonlyMap"@ {
        ReferenceKind::Dictionary
    } else if name == "Set"@ {
        ReferenceKind::SetOf
    } else {
        ReferenceKind::Named
    }
}

/// Classifies a referenced type name.
pub fn classify_reference(name: &str) -> (r: ReferenceKind)
    ensures
        r == reference_kind(name@),
{
    if str_equals(name, "Promise") {
        ReferenceKind::Promise
    } else if str_equals(name, "Array") || str_equals(name, "ReadonlyArray") {
        ReferenceKind::List
    } else if str_equals(name, "Record") || str_equals(name, "Map") || str_equals(
        name,
        "ReadonlyMap",
    ) {
        ReferenceKind::Dictionary
    } else if str_equals(name, "Set") {
        ReferenceKind::SetOf
    } else {
        ReferenceKind::Named
    }
}

/// A reference rendered from its name and its first two mapped arguments.
pub open spec fn reference_text(
    name: Seq<char>,
    first: Seq<char>,
    second: Seq<char>,
    lang: LanguageType,
) -> Seq<char> {
    match reference_kind(name) {
        ReferenceKind::Promise => first,
        ReferenceKind::List => list_text(first, lang),
        ReferenceKind::Dictionary => dictionary_text(first, second, lang),
        ReferenceKind::SetOf => set_text(first),
        ReferenceKind::Named => name,
    }
}

/// The name of a parameter.
pub open spec fn binding_text(b: BindingPattern) -> Seq<char> {
    match b {
        BindingPattern::Identifier(n) => n@,
        BindingPattern::Unsupported => "unknown-BindingPatternKind"@,
    }
}

/// Renders the name of a parameter.
pub fn binding_string(b: &BindingPattern) -> (r: String)
    ensures
        r@ == binding_text(*b),
{
    match b {
        BindingPattern::Identifier(n) => n.clone(),
        BindingPattern::Unsupported => String::from_str("unknown-BindingPatternKind"),
    }
}

/// The target type of a TypeScript type expression.
pub open spec fn type_text(t: TypeExpr, lang: LanguageType) -> Seq<char>
    decreases t,
{
    match t {
        TypeExpr::StringKeyword => "String"@,
        TypeExpr::NumberKeyword => "Double"@,
        TypeExpr::BooleanKeyword => boolean_text(lang),
        TypeExpr::VoidKeyword => void_text(lang),
        TypeExpr::ObjectKeyword => object_text(lang),
        TypeExpr::Reference(r) => reference_type_text(r, lang),
        TypeExpr::Function(f) => function_text(f, lang),
        TypeExpr::Array(e) => list_text(type_text(*e, lang), lang),
        TypeExpr::Operator(e) => type_text(*e, lang),
        TypeExpr::Unsupported => top_text(),
    }
}

/// A named reference: its first argument is the element or key, its second
/// the value; a missing argument is the top type.
pub open spec fn reference_type_text(r: TypeReference, lang: LanguageType) -> Seq<char>
    decreases r,
{
    let args = r.type_arguments@;
    let first = if args.len() > 0 {
        type_text(args[0], lang)
    } else {
        top_text()
    };
    let second = if args.len() > 1 {
        type_text(args[1], lang)
    } else {
        top_text()
    };
    reference_text(r.name@, first, second, lang)
}

/// A function type, its parameters and return type mapped.
pub open spec fn function_text(f: FunctionType, lang: LanguageType) -> Seq<char>
    decreases f,
{
    function_type_text(
        join(param_texts(f.params.items@, lang), ", "@),
        type_text(*f.return_type, lang),
        lang,
    )
}

/// One `name: Type` entry per parameter, in order; an untyped parameter gets
/// the top type.
pub open spec fn param_texts(ps: Seq<FormalParameter>, lang: LanguageType) -> Seq<Seq<char>>
    decreases ps,
{
    if ps.len() == 0 {
        Seq::empty()
    } else {
        let p = ps.last();
        let ty = match p.type_annotation {
            Some(t) => type_text(t, lang),
            None => top_text(),
        };
        param_texts(ps.drop_last(), lang).push(binding_text(p.pattern) + ": "@ + ty)
    }
}

/// The parameter list `a: A, b: B`.
pub open spec fn params_text(ps: Seq<FormalParameter>, lang: LanguageType) -> Seq<char> {
    join(param_texts(ps, lang), ", "@)
}

/// Maps a TypeScript type expression to the target language's type.
pub fn map_type(t: &TypeExpr, lang: LanguageType) -> (r: String)
    ensures
        r@ == type_text(*t, lang),
    decreases t,
{
    match t {
        TypeExpr::StringKeyword => String::from_str("String"),
        TypeExpr::NumberKeyword => String::from_str("Double"),
        TypeExpr::BooleanKeyword => match lang {
            LanguageType::Swift => String::from_str("Bool"),
            LanguageType::Kotlin => String::from_str("Boolean"),
        },
        TypeExpr::VoidKeyword => match lang {
            LanguageType::Swift => String::from_str("Void"),
            LanguageType::Kotlin => String::from_str("Unit"),
        },
        TypeExpr::ObjectKeyword => match lang {
            LanguageType::Swift => String::from_str("[String: Any]"),
            LanguageType::Kotlin => String::from_str("Map<String, Any>"),
        },
        TypeExpr::Reference(r) => map_reference(r, lang),
        TypeExpr::Function(f) => map_function_type(f, lang),
        TypeExpr::Array(e) => {
            let element = map_type(e, lang);
            list_string(element.as_str(), lang)
        },
        TypeExpr::Operator(e) => map_type(e, lang),
        TypeExpr::Unsupported => String::from_str("Any"),
    }
}

/// Maps a named type reference.
pub fn map_reference(r: &TypeReference, lang: LanguageType) -> (res: String)
    ensures
        res@ == reference_type_text(*r, lang),
    decreases r,
{
    let args = &r.type_arguments;
    let first = if args.len() > 0 {
        map_type(&args[0], lang)
    } else {
        String::from_str("Any")
    };
    match classify_reference(r.name.as_str()) {
        ReferenceKind::Promise => first,
        ReferenceKind::List => list_string(first.as_str(), lang),
        ReferenceKind::Dictionary => {
            let second = if args.len() > 1 {
                map_type(&args[1], lang)
            } else {
                String::from_str("Any")
            };
            dictionary_string(first.as_str(), second.as_str(), lang)
        },
        ReferenceKind::SetOf => {
            let mut s = String::from_str("Set<");
            s.append(first.as_str());
            s.append(">");
            s
        },
        ReferenceKind::Named => r.name.clone(),
    }
}

/// Maps a function type.
pub fn map_function_type(f: &FunctionType, lang: LanguageType) -> (r: String)
    ensures
        r@ == function_text(*f, lang),
    decreases f,
{
    let params = map_params(&f.params.items, lang);
    let ret = map_type(&f.return_type, lang);
    function_type_string(params.as_str(), ret.as_str(), lang)
}

/// Renders a parameter list as `a: A, b: B`.
pub fn map_params(ps: &Vec<FormalParameter>, lang: LanguageType) -> (r: String)
    ensures
        r@ == params_text(ps@, lang),
    decreases ps,
{
    let mut s = String::new();
    let mut i: usize = 0;
    while i < ps.len()
        invariant
            i <= ps.len(),
            s@ == join(param_texts(ps@.take(i as int), lang), ", "@),
        decreases ps.len() - i,
    {
        let p = &ps[i];
        let ty = match &p.type_annotation {
            Some(t) => map_type(t, lang),
            None => String::from_str("Any"),
        };
        let mut entry = binding_string(&p.pattern);
        entry.append(": ");
        entry.append(ty.as_str());
        proof {
            assert(ps@.take(i + 1).drop_last() =~= ps@.take(i as int));
            lemma_join_push(param_texts(ps@.take(i as int), lang), ", "@, entry@);
        }
        if i > 0 {
            s.append(", ");
        }
        s.append(entry.as_str());
        i = i + 1;
    }
    assert(ps@.take(i as int) =~= ps@);
    s
}

} // verus!
