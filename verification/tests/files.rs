use tokount::engine::analyze::summarize;
use tokount::engine::detect_language;
use tokount::engine::first_line_language;
use tokount::engine::git::git_info;
use tokount::engine::language::language;
use tokount::engine::plan_file;
use tokount::engine::reader::looks_binary;
use tokount::engine::reader::size_accepted;
use tokount::engine::reader::use_mmap;
use tokount::engine::stats::LangEntry;
use tokount::engine::type_selected;
use tokount::engine::walker::empty_walk_result;
use tokount::engine::walker::entry_action;
use tokount::engine::walker::finish_walk;
use tokount::engine::walker::ignore_line_pattern;
use tokount::engine::walker::ignore_patterns;
use tokount::engine::walker::keep_entry;
use tokount::engine::walker::EntryAction;
use tokount::engine::EngineConfig;
use tokount::engine::FilePlan;

fn name_of(id: Option<usize>) -> Option<&'static str> {
    id.map(|i| language(i).name)
}

fn id_of(name: &str) -> usize {
    tokount::engine::language::LanguageDef::all_names().iter().position(|n| *n == name).unwrap()
}

#[test]
fn detect_by_extension_then_name() {
    assert_eq!(name_of(detect_language("rs", "main.rs")), Some("Rust"));
    assert_eq!(name_of(detect_language("PY", "X.PY")), Some("Python"));
    assert_eq!(name_of(detect_language("", "Makefile")), Some("Makefile"));
    assert_eq!(name_of(detect_language("", "CMakeLists.txt")), Some("CMake"));
    assert_eq!(detect_language("xyz", "a.xyz"), None);
}

#[test]
fn plans() {
    assert!(plan_file(Some("rs"), "main.rs") == FilePlan::Count(id_of("Rust")));
    assert!(plan_file(None, "run") == FilePlan::ReadShebang);
    assert!(plan_file(Some("xyz"), "a.xyz") == FilePlan::Skip);
    assert!(plan_file(None, "Makefile") == FilePlan::Count(id_of("Makefile")));
    assert!(plan_file(None, "GNUmakefile") == FilePlan::ReadShebang);
}

#[test]
fn shebang_lines() {
    assert_eq!(name_of(first_line_language("#!/usr/bin/env python3\n")), Some("Python"));
    assert_eq!(name_of(first_line_language("#!/bin/sh   ")), Some("Shell"));
    assert_eq!(name_of(first_line_language("#!/bin/bash")), Some("BASH"));
    assert_eq!(name_of(first_line_language("#!/usr/bin/env ruby")), Some("Ruby"));
    assert_eq!(name_of(first_line_language("#!/usr/bin/env nosuchinterpreter")), None);
    assert_eq!(first_line_language("print(1)"), None);
}

#[test]
fn types_filter_selection() {
    assert!(type_selected(&None, id_of("Rust")));
    let t = Some(vec!["rust".to_string(), "Python".to_string()]);
    assert!(type_selected(&t, id_of("Rust")));
    assert!(type_selected(&t, id_of("Python")));
    assert!(!type_selected(&t, id_of("C")));
}

#[test]
fn reader_decisions() {
    assert!(!size_accepted(0));
    assert!(size_accepted(1));
    assert!(size_accepted(512 * 1024 * 1024));
    assert!(!size_accepted(512 * 1024 * 1024 + 1));
    assert!(!use_mmap(64 * 1024 - 1));
    assert!(use_mmap(64 * 1024));
    assert!(looks_binary(b"ab\0cd"));
    assert!(!looks_binary(b"plain text\n"));
    let mut late = vec![b'a'; 9000];
    late[8500] = 0;
    assert!(!looks_binary(&late));
    late[8000] = 0;
    assert!(looks_binary(&late));
}

#[test]
fn ignore_file_lines() {
    assert_eq!(ignore_line_pattern("  target/  "), Some("target/".to_string()));
    assert_eq!(ignore_line_pattern("# comment"), None);
    assert_eq!(ignore_line_pattern("   "), None);
    let lines = vec!["*.log".to_string(), "".to_string(), "  # x".to_string(), "build/\r".to_string()];
    assert_eq!(ignore_patterns(&lines), vec!["*.log".to_string(), "build/".to_string()]);
}

#[test]
fn walk_decisions() {
    let excluded = vec!["node_modules".to_string()];
    assert!(!keep_entry(true, "node_modules", &excluded));
    assert!(keep_entry(false, "node_modules", &excluded));
    assert!(keep_entry(true, "src", &excluded));
    // Excluding one more name leaves out that directory and keeps the rest.
    let more = vec!["node_modules".to_string(), "vendor".to_string()];
    assert!(keep_entry(true, "vendor", &excluded));
    assert!(!keep_entry(true, "vendor", &more));
    assert!(!keep_entry(true, "node_modules", &more));
    assert!(keep_entry(true, "src", &more));
    assert!(keep_entry(false, "vendor", &more));
    assert!(entry_action(true, false, ".git") == EntryAction::CountRepo);
    assert!(entry_action(true, false, "src") == EntryAction::Skip);
    assert!(entry_action(false, true, ".gitignore") == EntryAction::ReadIgnoreFile);
    assert!(entry_action(false, true, ".prettierignore") == EntryAction::ReadIgnoreFile);
    assert!(entry_action(false, true, "main.rs") == EntryAction::Send);
    assert!(entry_action(false, false, "link") == EntryAction::Skip);
}

#[test]
fn walk_results() {
    let e = empty_walk_result();
    assert_eq!((e.git_repos, e.gitignore_patterns.len()), (0, 0));
    let r = finish_walk(2, vec!["b".to_string(), "a".to_string(), "b".to_string()]);
    assert_eq!(r.git_repos, 2);
    assert_eq!(r.gitignore_patterns, vec!["a".to_string(), "b".to_string()]);
    let g = git_info(vec!["z".to_string(), "z".to_string(), "y".to_string()], 4);
    assert_eq!(g.repo_count, 4);
    assert_eq!(g.patterns, vec!["y".to_string(), "z".to_string()]);
}

#[test]
fn engine_config_default() {
    let c = EngineConfig::default();
    assert!(c.excluded.is_empty() && !c.follow_symlinks && !c.no_ignore && c.types_filter.is_none());
}

#[test]
fn summary_keeps_languages_with_code() {
    let langs = vec![
        ("Rust".to_string(), LangEntry { files: 2, code: 10, comment: 1, blank: 2 }),
        ("Text".to_string(), LangEntry { files: 1, code: 0, comment: 5, blank: 0 }),
        ("Python".to_string(), LangEntry { files: 1, code: 3, comment: 0, blank: 1 }),
    ];
    let out = summarize(&langs, 1, vec!["x".to_string()]);
    let names: Vec<&str> = out.languages.iter().map(|(n, _)| n.as_str()).collect();
    assert_eq!(names, vec!["Rust", "Python", "SUM"]);
    let sum = &out.languages[2].1;
    assert_eq!((sum.n_files, sum.code, sum.comment, sum.blank, sum.lines), (3, 13, 1, 3, 17));
    assert_eq!(out.git_repos, 1);
}
