//! Line counting for codebases: classification of every line of a source file as
//! code, comment or blank, driven by per-language syntax definitions.
pub mod cli;
pub mod display;
pub mod engine;
pub mod types;

use vstd::prelude::*;

use crate::engine::language::LanguageDef;
use crate::engine::language::name_language;
use crate::engine::language::names_table;

verus! {

/// All supported language display names: the names accepted by the types
/// filter and listed by `--languages`.
pub fn supported_languages() -> (r: Vec<&'static str>)
    ensures
        r@ == names_table(),
{
    LanguageDef::all_names()
}

/// Whether `name` names a supported language, without regard to ASCII case.
pub fn is_supported_language(name: &str) -> (r: bool)
    ensures
        r == name_language(name@).is_some(),
{
    LanguageDef::from_name(name).is_some()
}

} // verus!
