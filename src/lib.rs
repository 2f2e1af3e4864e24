//! Generates Swift and Kotlin declarations from TypeScript interface and enum
//! declarations.
//!
//! The input is a TypeScript syntax tree given as the types of [`ast`]; the
//! output is declaration text in the selected target language.

pub mod ast;
pub mod languages;
pub mod text;
pub mod utils;
