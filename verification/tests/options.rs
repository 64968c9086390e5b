use tokount::cli::Args;
use tokount::cli::OutputFormat;
use tokount::cli::SortColumn;

fn args() -> Args {
    Args {
        paths: vec![".".to_string()],
        exclude: None,
        follow_symlinks: false,
        output: None,
        sort: None,
        rsort: None,
        types: None,
        no_ignore: false,
        no_color: false,
        languages: false,
        compact: false,
        same_filesystem: false,
    }
}

#[test]
fn defaults() {
    let a = args();
    assert!(a.format() == OutputFormat::Table);
    assert!(a.sort_column() == SortColumn::Code);
    assert!(!a.sort_reverse());
    assert!(a.excluded_dirs().is_empty());
    assert!(a.types_filter().is_none());
    assert_eq!(a.unknown_type(), None);
}

#[test]
fn chosen_values() {
    let mut a = args();
    a.output = Some(OutputFormat::Csv);
    a.sort = Some(SortColumn::Files);
    a.exclude = Some(vec!["node_modules".to_string(), "vendor".to_string()]);
    a.types = Some(vec!["Rust".to_string(), "python".to_string()]);
    assert!(a.format() == OutputFormat::Csv);
    assert!(a.sort_column() == SortColumn::Files);
    assert!(!a.sort_reverse());
    assert_eq!(a.excluded_dirs(), vec!["node_modules", "vendor"]);
    assert_eq!(a.types_filter(), Some(vec!["Rust", "python"]));
    assert_eq!(a.unknown_type(), None);
}

#[test]
fn rsort_sorts_ascending() {
    let mut a = args();
    a.rsort = Some(SortColumn::Lines);
    assert!(a.sort_column() == SortColumn::Lines);
    assert!(a.sort_reverse());
}

#[test]
fn unknown_language_is_reported() {
    let mut a = args();
    a.types = Some(vec!["Rust".to_string(), "DefinitelyNotALanguage".to_string(), "Nope".to_string()]);
    assert_eq!(a.unknown_type(), Some(1));
}

#[test]
fn label_single_and_many_paths() {
    let mut a = args();
    a.paths = vec!["tokount/".to_string()];
    assert_eq!(a.label(), "tokount/");
    a.paths = vec!["a".to_string(), "b".to_string(), "c".to_string()];
    assert_eq!(a.label(), "3 paths");
}
