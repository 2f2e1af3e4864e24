//! Choosing a back end by its language tag.

use vstd::prelude::*;

use crate::ast::Program;
use crate::languages::blocks::program_text;
use crate::languages::kotlin::KotlinTransformer;
use crate::languages::swift::SwiftTransformer;
use crate::text::str_equals;

verus! {

/// The target language of the generated code.
#[derive(PartialEq, Eq, Structural, Clone, Copy, Debug)]
pub enum LanguageType {
    Swift,
    Kotlin,
}

/// The language named by a tag: `swift`, or `kotlin`, `kt` and `kts`.
pub open spec fn language_of(tag: Seq<char>) -> Option<LanguageType> {
    if tag == "swift"@ {
        Some(LanguageType::Swift)
    } else if tag == "kotlin"@ || tag == "kt"@ || tag == "kts"@ {
        Some(LanguageType::Kotlin)
    } else {
        None
    }
}

/// The error for a tag that names no supported language.
pub const UNKNOWN_LANGUAGE: &'static str = "unknown language!";

/// What converting a tag gives.
pub open spec fn language_result(tag: Seq<char>) -> Result<LanguageType, &'static str> {
    match language_of(tag) {
        Some(l) => Ok(l),
        None => Err(UNKNOWN_LANGUAGE),
    }
}

impl LanguageType {
    /// Looks a language up by its tag.
    pub fn from_tag(tag: &str) -> (r: Option<LanguageType>)
        ensures
            r == language_of(tag@),
    {
        if str_equals(tag, "swift") {
            Some(LanguageType::Swift)
        } else if str_equals(tag, "kotlin") || str_equals(tag, "kt") || str_equals(tag, "kts") {
            Some(LanguageType::Kotlin)
        } else {
            None
        }
    }
}

impl TryFrom<String> for LanguageType {
    type Error = &'static str;

    fn try_from(value: String) -> (r: Result<LanguageType, &'static str>) {
        match LanguageType::from_tag(value.as_str()) {
            Some(l) => Ok(l),
            None => Err(UNKNOWN_LANGUAGE),
        }
    }
}

impl vstd::std_specs::convert::TryFromSpecImpl<String> for LanguageType {
    open spec fn obeys_try_from_spec() -> bool {
        true
    }

    open spec fn try_from_spec(value: String) -> Result<LanguageType, &'static str> {
        language_result(value@)
    }
}

/// Runs the back end of the chosen language.
pub struct LanguageFactory;

impl LanguageFactory {
    /// Generates the declarations of `ast_program` in `target_language`.
    pub fn transform(target_language: LanguageType, ast_program: &Program) -> (r: String)
        ensures
            r@ == program_text(*ast_program, target_language),
    {
        match target_language {
            LanguageType::Swift => SwiftTransformer::transform(ast_program),
            LanguageType::Kotlin => KotlinTransformer::transform(ast_program),
        }
    }
}

} // verus!
