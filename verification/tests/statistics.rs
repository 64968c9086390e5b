use tokount::engine::fsm::types::FileResult;
use tokount::engine::fsm::types::LineCounts;
use tokount::engine::stats::ThreadStats;
use tokount::types::LangStats;
use tokount::types::OutputStats;

use tokount::engine::language::MARKDOWN;
use tokount::engine::language::PYTHON;

fn rust() -> usize {
    tokount::engine::language::LanguageDef::all_names().iter().position(|n| *n == "Rust").unwrap()
}

fn lc(code: u32, comment: u32, blank: u32) -> LineCounts {
    LineCounts { code, comment, blank }
}

fn file(code: u32, comment: u32, blank: u32) -> FileResult {
    FileResult { counts: lc(code, comment, blank), children: vec![] }
}

fn row<'a>(out: &'a OutputStats, name: &str) -> Option<&'a LangStats> {
    out.languages.iter().find(|(n, _)| n == name).map(|(_, s)| s)
}

fn sample_a() -> ThreadStats {
    let mut s = ThreadStats::new();
    s.add(rust(), file(10, 2, 3));
    s.add(
        rust(),
        FileResult { counts: lc(5, 0, 1), children: vec![(MARKDOWN, lc(0, 4, 1))] },
    );
    s.gitignore_patterns = vec!["target/".to_string(), "*.log".to_string()];
    s.git_repos = 1;
    s
}

fn sample_b() -> ThreadStats {
    let mut s = ThreadStats::new();
    s.add(PYTHON, file(7, 1, 2));
    s.add(rust(), file(1, 1, 1));
    s.gitignore_patterns = vec!["*.log".to_string(), "build/".to_string()];
    s.git_repos = 2;
    s
}

#[test]
fn new_output_has_only_sum() {
    let out = ThreadStats::new().into_output();
    assert_eq!(out.languages.len(), 1);
    let sum = row(&out, "SUM").unwrap();
    assert_eq!((sum.n_files, sum.lines, sum.blank, sum.comment, sum.code), (0, 0, 0, 0, 0));
    assert!(out.gitignore_patterns.is_empty());
    assert_eq!(out.git_repos, 0);
}

#[test]
fn add_then_output_rows() {
    let out = sample_a().into_output();
    assert_eq!(out.languages.len(), 2);
    let rust = row(&out, "Rust").unwrap();
    assert_eq!((rust.n_files, rust.code, rust.comment, rust.blank, rust.lines), (2, 15, 2, 4, 21));
    assert_eq!(rust.children.len(), 1);
    let (child_name, child) = &rust.children[0];
    assert_eq!(child_name, "Markdown");
    assert_eq!((child.n_files, child.code, child.comment, child.blank, child.lines), (0, 0, 4, 1, 5));
    assert_eq!(out.languages.last().unwrap().0, "SUM");
}

#[test]
fn sum_row_is_total_of_rows() {
    let mut a = sample_a();
    a.merge(sample_b());
    let out = a.into_output();
    let sum = row(&out, "SUM").unwrap();
    let others: Vec<&LangStats> =
        out.languages.iter().filter(|(n, _)| n != "SUM").map(|(_, s)| s).collect();
    let with_children = |f: fn(&LangStats) -> usize| -> usize {
        others.iter().map(|s| f(s) + s.children.iter().map(|(_, c)| f(c)).sum::<usize>()).sum()
    };
    assert_eq!(sum.n_files, others.iter().map(|s| s.n_files).sum::<usize>());
    assert_eq!(sum.code, with_children(|s| s.code));
    assert_eq!(sum.comment, with_children(|s| s.comment));
    assert_eq!(sum.blank, with_children(|s| s.blank));
    assert_eq!(sum.lines, with_children(|s| s.lines));
    assert!(sum.children.is_empty());
    // The Markdown block embedded in a Rust file counts towards the total.
    assert_eq!((sum.n_files, sum.code, sum.comment, sum.blank, sum.lines), (4, 23, 8, 8, 39));
}

#[test]
fn lines_match_components() {
    let mut a = sample_a();
    a.merge(sample_b());
    let out = a.into_output();
    for (_, s) in &out.languages {
        assert_eq!(s.lines, s.code + s.comment + s.blank);
        for (_, c) in &s.children {
            assert_eq!(c.lines, c.code + c.comment + c.blank);
            assert_eq!(c.n_files, 0);
        }
    }
}

#[test]
fn merge_order_does_not_matter() {
    let mut ab = sample_a();
    ab.merge(sample_b());
    let mut ba = sample_b();
    ba.merge(sample_a());
    let x = ab.into_output();
    let y = ba.into_output();
    assert_eq!(x.languages.len(), y.languages.len());
    for ((n1, s1), (n2, s2)) in x.languages.iter().zip(y.languages.iter()) {
        assert_eq!(n1, n2);
        assert_eq!((s1.n_files, s1.lines, s1.code), (s2.n_files, s2.lines, s2.code));
    }
    assert_eq!(x.gitignore_patterns, y.gitignore_patterns);
    assert_eq!(x.gitignore_patterns, vec!["*.log", "build/", "target/"]);
    assert_eq!(x.git_repos, 3);
}

#[test]
fn merge_with_empty_is_identity() {
    let mut a = sample_a();
    a.merge(ThreadStats::new());
    let x = a.into_output();
    let y = sample_a().into_output();
    assert_eq!(x.languages.len(), y.languages.len());
    assert_eq!(row(&x, "SUM").unwrap().lines, row(&y, "SUM").unwrap().lines);
}

#[test]
fn empty_file_language_has_no_row() {
    let mut s = ThreadStats::new();
    s.add(PYTHON, file(0, 0, 0));
    let out = s.into_output();
    assert!(row(&out, "Python").is_none());
    assert_eq!(row(&out, "SUM").unwrap().n_files, 0);
}

#[test]
fn adding_a_file_grows_sum() {
    let before = sample_a().into_output();
    let mut s = sample_a();
    s.add(rust(), file(3, 2, 1));
    let after = s.into_output();
    let b = row(&before, "SUM").unwrap();
    let a = row(&after, "SUM").unwrap();
    assert_eq!(a.n_files, b.n_files + 1);
    assert_eq!(a.lines, b.lines + 6);
}

#[test]
fn merge_fits_and_output_fits() {
    let a = sample_a();
    let b = sample_b();
    assert!(a.can_merge(&b));
    assert!(a.can_output());
    let mut big = ThreadStats::new();
    big.git_repos = usize::MAX;
    assert!(!big.can_merge(&a));
}

fn sample_c() -> ThreadStats {
    let mut s = ThreadStats::new();
    s.add(MARKDOWN, file(0, 6, 2));
    s.gitignore_patterns = vec!["dist/".to_string()];
    s
}

#[test]
fn merge_is_associative() {
    let mut left = sample_a();
    left.merge(sample_b());
    left.merge(sample_c());
    let mut bc = sample_b();
    bc.merge(sample_c());
    let mut right = sample_a();
    right.merge(bc);
    assert_eq!(left.langs.len(), right.langs.len());
    for (x, y) in left.langs.iter().zip(right.langs.iter()) {
        assert_eq!((x.files, x.code, x.comment, x.blank), (y.files, y.code, y.comment, y.blank));
    }
    assert_eq!(left.gitignore_patterns, right.gitignore_patterns);
    assert_eq!(left.git_repos, right.git_repos);
}

#[test]
fn rows_are_the_languages_with_lines() {
    let mut a = sample_a();
    a.merge(sample_b());
    a.merge(sample_c());
    let out = a.into_output();
    let names: Vec<&str> = out.languages.iter().map(|(n, _)| n.as_str()).collect();
    assert_eq!(names, vec!["Markdown", "Python", "Rust", "SUM"]);
}
