use tokount::engine::count_content;
use tokount::engine::fsm::notebook::count_jupyter_cells;
use tokount::engine::fsm::notebook::JupyterCell;
use tokount::engine::fsm::notebook::JupyterNotebook;
use tokount::engine::fsm::notebook::JupyterSource;
use tokount::engine::fsm::parser::count_file;
use tokount::engine::fsm::parser::helpers::leading_doc_child;
use tokount::engine::fsm::types::FileResult;
use tokount::engine::language::language;
use tokount::engine::language::LanguageDef;

const RUST_SAMPLE: &str = "// line comment \u{2014} this whole line is a comment

fn main() {
    let _raw = r##\"/* not a block comment */ // not a line comment\"##;
    let _str = \"contains /* fake block */ and // fake line\";
    // another comment
    let x = 5; // trailing comment does not make this a comment line

    /* block comment
       spanning two lines */
    let _nested = /* inline block */ 42;
}

/*
 * multi-line block comment
 * at top level
 */
fn foo() {}
";

fn count_as(content: &str, ext: &str) -> FileResult {
    let lang = LanguageDef::from_extension(ext).expect("known extension");
    count_file(content.as_bytes(), &lang)
}

fn triple(r: &FileResult) -> (u32, u32, u32) {
    (r.counts.code, r.counts.comment, r.counts.blank)
}

fn line_count(content: &str) -> u32 {
    let newlines = content.bytes().filter(|b| *b == b'\n').count() as u32;
    let tail = if !content.is_empty() && !content.ends_with('\n') { 1 } else { 0 };
    newlines + tail
}

#[test]
fn rust_sample_counts() {
    let r = count_as(RUST_SAMPLE, "rs");
    assert_eq!(triple(&r), (7, 8, 3));
    assert!(r.children.is_empty());
}

#[test]
fn rust_sample_lines_add_up() {
    let r = count_as(RUST_SAMPLE, "rs");
    let (code, comment, blank) = triple(&r);
    assert_eq!(code + comment + blank, line_count(RUST_SAMPLE));
}

#[test]
fn single_rust_fixture_counts() {
    let src = "fn greet(name: &str) -> String {\n\t// say hello\n\tformat!(\"Hello, {name}!\")\n}\n\nfn main() {\n\tprintln!(\"{}\", greet(\"world\"));\n}\n";
    let r = count_as(src, "rs");
    assert_eq!(triple(&r), (6, 1, 1));
}

#[test]
fn empty_content_counts_nothing() {
    let r = count_as("", "py");
    assert_eq!(triple(&r), (0, 0, 0));
}

#[test]
fn last_line_without_newline_is_counted() {
    let r = count_as("x = 1\n# note", "py");
    assert_eq!(triple(&r), (1, 1, 0));
    let r = count_as("x = 1\n   ", "py");
    assert_eq!(triple(&r), (1, 0, 1));
}

#[test]
fn python_strings_hide_comment_markers() {
    let src = "s = \"# not a comment\"\n\"\"\"doc\nstring\"\"\"\n# real\n";
    let r = count_as(src, "py");
    assert_eq!(triple(&r), (3, 1, 0));
}

#[test]
fn plain_languages_conserve_lines() {
    let samples = [
        ("c", "int main() {\n  /* a\n b */ return 0; // x\n}\n\n"),
        ("js", "let s = `a\nb`;\n// c\n\n/* d */\nx"),
        ("toml", "[a]\nb = '''x\ny'''\n# c\n"),
        ("yaml", "a: 'b # c'\n# d\n\n"),
        ("sh", "echo \"a\\\nb\"\n# c"),
        ("css", "a { color: red; } /* x\n y */\n"),
    ];
    for (ext, src) in samples {
        let r = count_as(src, ext);
        let (code, comment, blank) = triple(&r);
        assert_eq!(code + comment + blank, line_count(src), "{ext}");
        assert!(r.children.is_empty(), "{ext}");
    }
}

#[test]
fn markdown_fence_counts_child_block() {
    let src = "# Title\n\n```rust\nfn main() {}\n// c\n```\ntext\n";
    let r = count_as(src, "md");
    assert_eq!(r.children.len(), 1);
    let (child, counts) = r.children[0];
    assert_eq!(language(child).name, "Rust");
    assert_eq!((counts.code, counts.comment, counts.blank), (1, 1, 0));
    assert_eq!(triple(&r), (0, 4, 1));
}

#[test]
fn markdown_fixture_counts() {
    let src = "# Architecture\n\n## Overview\n\nThis monorepo contains three components:\n\n- **backend** \u{2014} Rust HTTP API\n- **frontend** \u{2014} TypeScript/React SPA\n- **infra** \u{2014} deployment scripts and Docker config\n\n## Data flow\n\n```text\nbrowser -> frontend -> backend -> database\n```\n\n## Notes\n\n- Backend exposes REST endpoints on port 8080\n- Frontend proxies API calls via Next.js rewrites\n";
    let r = count_as(src, "md");
    let (code, comment, blank) = triple(&r);
    let child_lines: u32 = r
        .children
        .iter()
        .map(|(_, c)| c.code + c.comment + c.blank)
        .sum();
    assert_eq!(code + comment + blank + child_lines, line_count(src));
}

#[test]
fn rust_leading_doc_is_markdown_child() {
    let src = "//! Crate docs\n//! more\nfn main() {}\n";
    let r = count_as(src, "rs");
    assert_eq!(r.children.len(), 1);
    let (child, counts) = r.children[0];
    assert_eq!(language(child).name, "Markdown");
    assert_eq!(counts.comment + counts.code + counts.blank, 2);
    assert_eq!(triple(&r), (1, 0, 0));
}

#[test]
fn html_script_is_javascript_child() {
    let src = "<html>\n<script>\nlet a = 1;\n// b\n</script>\n</html>\n";
    let r = count_as(src, "html");
    assert_eq!(r.children.len(), 1);
    let (child, counts) = r.children[0];
    assert_eq!(language(child).name, "JavaScript");
    assert_eq!((counts.code, counts.comment), (1, 1));
}

#[test]
fn jupyter_cells_are_counted_by_kind() {
    let nb = JupyterNotebook {
        cells: vec![
            JupyterCell {
                cell_type: "markdown".to_string(),
                source: Some(JupyterSource::Many(vec!["# Title\n".to_string(), "text".to_string()])),
            },
            JupyterCell {
                cell_type: "code".to_string(),
                source: Some(JupyterSource::Single("x = 1\n# c\n\ny = 2".to_string())),
            },
        ],
    };
    let r = count_jupyter_cells(Some(&nb));
    assert_eq!(triple(&r), (2, 3, 1));
    assert_eq!(r.children.len(), 2);
    let names: Vec<&str> = r.children.iter().map(|(l, _)| language(*l).name).collect();
    assert!(names.contains(&"Markdown"));
    assert!(names.contains(&"Python"));
    for (l, c) in &r.children {
        if language(*l).name == "Python" {
            assert_eq!((c.code, c.comment, c.blank), (2, 1, 1));
        } else {
            assert_eq!(c.code + c.comment + c.blank, 2);
        }
    }
}

#[test]
fn jupyter_not_a_notebook_counts_nothing() {
    let r = count_jupyter_cells(None);
    assert_eq!(triple(&r), (0, 0, 0));
    assert!(r.children.is_empty());
}

#[test]
fn count_content_records_one_file() {
    let rust = LanguageDef::all_names().iter().position(|n| *n == "Rust").unwrap();
    let stats = count_content(rust, RUST_SAMPLE.as_bytes());
    let e = stats.langs[rust];
    assert_eq!((e.files, e.code, e.comment, e.blank), (1, 7, 8, 3));
}

fn grand_total(r: &FileResult) -> u32 {
    r.counts.code
        + r.counts.comment
        + r.counts.blank
        + r.children.iter().map(|(_, c)| c.code + c.comment + c.blank).sum::<u32>()
}

#[test]
fn rust_doc_block_lines_add_up() {
    let src = "//! Crate docs\n//!\n//! more text\nfn main() {}\n// done";
    let r = count_as(src, "rs");
    assert_eq!(grand_total(&r), line_count(src));
    assert_eq!(r.children.len(), 1);
}

#[test]
fn markdown_without_fences_lines_add_up() {
    let src = "# T\n\nsome *text*\n  \n- item";
    let r = count_as(src, "md");
    assert!(r.children.is_empty());
    assert_eq!(grand_total(&r), line_count(src));
}

#[test]
fn fence_closed_mid_line_counts_that_line_twice() {
    let src = "```\nx```\n";
    let r = count_as(src, "md");
    assert_eq!(grand_total(&r), 3);
    assert_eq!(line_count(src), 2);
}

#[test]
fn plain_text_has_no_code() {
    let src = "Some notes\n\n  indented line\n\"quoted\" // not a comment marker\nlast";
    let r = count_as(src, "txt");
    assert_eq!(triple(&r), (0, 4, 1));
}


fn hand_made(prefixes: Vec<Vec<u8>>, interest: Vec<u8>) -> LanguageDef {
    LanguageDef {
        name: "Hand Made",
        regions: vec![],
        interest_bytes: interest,
        default_mode: tokount::engine::language::DefaultMode::Code,
        structured_format: tokount::engine::language::StructuredFormat::Text,
        leading_doc_prefixes: prefixes,
    }
}

#[test]
fn empty_doc_prefix_makes_whole_file_documentation() {
    let lang = hand_made(vec![vec![]], vec![10]);
    let r = count_file(b"a\nb", &lang);
    assert_eq!(triple(&r), (0, 0, 0));
    assert_eq!(r.children.len(), 1);
    let (child, counts) = r.children[0];
    assert_eq!(language(child).name, "Markdown");
    assert_eq!((counts.code, counts.comment, counts.blank), (0, 2, 0));
}

#[test]
fn doc_prefix_list_empty_or_matching_everything() {
    let (none, at) = leading_doc_child(b"x\ny\n", &vec![]);
    assert!(none.is_none());
    assert_eq!(at, 0);
    let (some, at) = leading_doc_child(b"x\ny", &vec![vec![]]);
    let c = some.unwrap();
    assert_eq!(c.code + c.comment + c.blank, 2);
    assert_eq!(at, 3);
}

