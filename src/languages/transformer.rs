//! The back-end selection under the names `LanguageTransformFactory` and
//! `LanguageType`.

pub use crate::languages::language_factory::{
    LanguageFactory as LanguageTransformFactory, LanguageType,
};
