use tokount::engine::language::LanguageDef;
use tokount::is_supported_language;
use tokount::supported_languages;

#[test]
fn supported_languages_contains_rust() {
    let langs = supported_languages();
    assert!(langs.contains(&"Rust"));
    assert_eq!(langs.len(), 226);
    assert!(langs.contains(&"Ruby"));
}

#[test]
fn is_supported_language_ignores_ascii_case() {
    assert!(is_supported_language("rust"));
    assert!(is_supported_language("Rust"));
    assert!(is_supported_language("RUST"));
    assert!(!is_supported_language("DefinitelyNotALanguage"));
}

#[test]
fn from_extension_finds_rust() {
    let def = LanguageDef::from_extension("rs").expect("rs is Rust");
    assert_eq!(def.name, "Rust");
    assert!(LanguageDef::from_extension("RS").is_none());
    assert!(LanguageDef::from_extension("nope").is_none());
}

#[test]
fn from_filename_and_shebang() {
    assert_eq!(LanguageDef::from_filename("makefile").unwrap().name, "Makefile");
    assert!(LanguageDef::from_filename("Makefile").is_none());
    assert_eq!(LanguageDef::from_shebang("#!/usr/bin/env python3").unwrap().name, "Python");
    assert_eq!(LanguageDef::from_shebang("#!/bin/sh").unwrap().name, "Shell");
    assert_eq!(LanguageDef::from_shebang("#!/usr/bin/env ruby").unwrap().name, "Ruby");
    assert_eq!(LanguageDef::from_shebang("#!/usr/bin/ruby -w").unwrap().name, "Ruby");
    assert_eq!(LanguageDef::from_shebang("#!ruby").unwrap().name, "Ruby");
    assert!(LanguageDef::from_shebang("#!/usr/bin/env nosuch").is_none());
    assert!(LanguageDef::from_shebang("#!/usr/bin/env").is_none());
    assert!(LanguageDef::from_shebang("no shebang").is_none());
}

#[test]
fn from_name_and_all_names() {
    for name in LanguageDef::all_names() {
        assert_eq!(LanguageDef::from_name(name).unwrap().name, name);
        assert_eq!(LanguageDef::from_name(&name.to_uppercase()).unwrap().name, name);
    }
    assert_eq!(LanguageDef::from_name("cobol").unwrap().name, "COBOL");
    assert!(LanguageDef::from_name("notalanguage").is_none());
    let names = LanguageDef::all_names();
    let mut sorted = names.clone();
    sorted.sort();
    assert_eq!(names, sorted);
}
