//! Language back ends: one shared renderer, selected by a [`language_factory::LanguageType`].

pub mod blocks;
pub mod classify;
pub mod kotlin;
pub mod language_factory;
pub mod lemmas;
pub mod members;
pub mod render;
pub mod shared;
pub mod swift;
pub mod transformer;
