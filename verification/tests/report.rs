use tokount::cli::SortColumn;
use tokount::display::csv_line;
use tokount::display::csv_lines;
use tokount::display::decimal_string;
use tokount::display::report_rows;
use tokount::display::row_style;
use tokount::display::sort_by_stats;
use tokount::display::total_lines;
use tokount::display::RowKind;
use tokount::display::CSV_HEADER;
use tokount::types::LangStats;
use tokount::types::OutputStats;

fn stats(n_files: usize, code: usize, comment: usize, blank: usize) -> LangStats {
    LangStats { n_files, lines: code + comment + blank, blank, comment, code, children: vec![] }
}

fn sample() -> OutputStats {
    let mut md = stats(2, 0, 10, 3);
    md.children = vec![
        ("Rust".to_string(), stats(0, 4, 0, 0)),
        ("Python".to_string(), stats(0, 9, 1, 0)),
    ];
    OutputStats {
        languages: vec![
            ("Rust".to_string(), stats(3, 100, 5, 10)),
            ("Markdown".to_string(), md),
            ("Python".to_string(), stats(5, 100, 1, 1)),
            ("SUM".to_string(), stats(10, 200, 16, 14)),
        ],
        git_repos: 1,
        gitignore_patterns: vec![],
    }
}

fn labels(rows: &[tokount::display::ReportRow]) -> Vec<String> {
    rows.iter().map(|r| r.label.clone()).collect()
}

#[test]
fn decimal_strings() {
    assert_eq!(decimal_string(0), "0");
    assert_eq!(decimal_string(7), "7");
    assert_eq!(decimal_string(10), "10");
    assert_eq!(decimal_string(1234567890), "1234567890");
    assert_eq!(decimal_string(u64::MAX as u128), "18446744073709551615");
}

#[test]
fn total_lines_adds() {
    assert_eq!(total_lines(1, 2, 3), 6);
}

#[test]
fn sort_by_code_descending_then_name() {
    let out = sample();
    let mut order = vec![0usize, 1, 2];
    sort_by_stats(&mut order, &out.languages, SortColumn::Code, false);
    assert_eq!(order, vec![2, 0, 1]);
}

#[test]
fn sort_reversed_by_files() {
    let out = sample();
    let mut order = vec![2usize, 1, 0];
    sort_by_stats(&mut order, &out.languages, SortColumn::Files, true);
    assert_eq!(order, vec![1, 0, 2]);
}

#[test]
fn sort_by_lines() {
    let out = sample();
    let mut order = vec![0usize, 1, 2];
    sort_by_stats(&mut order, &out.languages, SortColumn::Lines, false);
    assert_eq!(order, vec![0, 2, 1]);
}

#[test]
fn report_rows_order_children_and_sum() {
    let out = sample();
    let rows = report_rows(&out, SortColumn::Code, false, false);
    assert_eq!(
        labels(&rows),
        vec!["Python", "Rust", "Markdown", ">> Python", ">> Rust", "SUM"]
    );
    assert!(rows[3].kind == RowKind::Child);
    assert!(rows[5].kind == RowKind::Sum);
    assert_eq!(rows[0].lines, 102);
}

#[test]
fn report_rows_compact_drops_children() {
    let out = sample();
    let rows = report_rows(&out, SortColumn::Code, false, true);
    assert_eq!(labels(&rows), vec!["Python", "Rust", "Markdown", "SUM"]);
}

#[test]
fn csv_output_lines() {
    let out = sample();
    let rows = report_rows(&out, SortColumn::Code, false, false);
    let lines = csv_lines(&rows);
    assert_eq!(lines[0], "language,files,lines,blank,comment,code");
    assert_eq!(lines[0], CSV_HEADER);
    assert_eq!(lines[1], "Python,5,102,1,1,100");
    assert_eq!(lines[4], "\">> Python\",0,10,0,1,9");
    assert_eq!(lines[6], "SUM,10,230,14,16,200");
    assert_eq!(lines.len(), rows.len() + 1);
    assert_eq!(csv_line(&rows[1]), "Rust,3,115,10,5,100");
}

#[test]
fn row_styles() {
    let s = row_style(RowKind::Sum, true);
    assert!(s.bold && s.all_cyan && !s.name_green);
    let s = row_style(RowKind::Language, true);
    assert!(!s.bold && !s.all_cyan && s.name_green);
    let s = row_style(RowKind::Child, false);
    assert!(!s.bold && !s.all_cyan && !s.name_green);
}
