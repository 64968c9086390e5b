use std::path::Path;

use tokount::cli::Args;
use tokount::cli::SortColumn;
use tokount::display::csv_lines;
use tokount::display::report_rows;
use tokount::engine::count_content;
use tokount::engine::first_line_language;
use tokount::engine::plan_file;
use tokount::engine::stats::ThreadStats;
use tokount::engine::type_selected;
use tokount::engine::walker::keep_entry;
use tokount::engine::FilePlan;
use tokount::supported_languages;
use tokount::types::OutputStats;

const SINGLE_RUST: &[(&str, &str)] = &[(
    "src/main.rs",
    "fn greet(name: &str) -> String {\n\t// say hello\n\tformat!(\"Hello, {name}!\")\n}\n\nfn main() {\n\tprintln!(\"{}\", greet(\"world\"));\n}\n",
)];

const MONOREPO: &[(&str, &str)] = &[
    (
        "backend/src/db.rs",
        "use std::collections::HashMap;\n\n// in-memory store for demo purposes\npub struct Store {\n\tdata: HashMap<String, String>,\n}\n\nimpl Store {\n\tpub fn new() -> Self {\n\t\tSelf { data: HashMap::new() }\n\t}\n\n\tpub fn get(&self, key: &str) -> Option<&String> {\n\t\tself.data.get(key)\n\t}\n\n\tpub fn set(&mut self, key: String, val: String) {\n\t\tself.data.insert(key, val);\n\t}\n}\n",
    ),
    (
        "backend/src/main.rs",
        "mod db;\nmod routes;\n\nuse std::net::SocketAddr;\n\n/// Application entry point\nfn main() {\n\tlet addr: SocketAddr = \"0.0.0.0:8080\".parse().unwrap();\n\tprintln!(\"listening on {addr}\");\n}\n",
    ),
    (
        "backend/src/routes.rs",
        "/// GET /health\npub fn health() -> &'static str {\n\t\"ok\"\n}\n\n/// GET /version\npub fn version() -> &'static str {\n\tenv!(\"CARGO_PKG_VERSION\")\n}\n",
    ),
    (
        "docs/architecture.md",
        "# Architecture\n\n## Overview\n\nThis monorepo contains three components:\n\n- **backend** \u{2014} Rust HTTP API\n- **frontend** \u{2014} TypeScript/React SPA\n- **infra** \u{2014} deployment scripts and Docker config\n\n## Data flow\n\n```text\nbrowser -> frontend -> backend -> database\n```\n\n## Notes\n\n- Backend exposes REST endpoints on port 8080\n- Frontend proxies API calls via Next.js rewrites\n",
    ),
    (
        "frontend/package.json",
        "{\n  \"name\": \"frontend\",\n  \"private\": true\n}\n",
    ),
    (
        "frontend/src/api.ts",
        "// fetch helpers\nexport async function health(): Promise<string> {\n  const r = await fetch(\"/api/health\");\n  return r.text();\n}\n",
    ),
    (
        "frontend/src/App.tsx",
        "import { health } from \"./api\";\n\n/* root component */\nexport function App() {\n  return <div>{\"ok\"}</div>;\n}\n",
    ),
];

/// Count the files of a tree given as paths and contents, as a run would:
/// excluded directories left out, languages detected, the types filter applied.
fn run(files: &[(&str, &str)], excluded: &[&str], types: Option<Vec<String>>) -> OutputStats {
    let excluded: Vec<String> = excluded.iter().map(|s| s.to_string()).collect();
    let mut total = ThreadStats::new();
    for (path, content) in files {
        let p = Path::new(path);
        let dirs: Vec<&str> = p
            .parent()
            .map(|d| d.iter().filter_map(|c| c.to_str()).collect())
            .unwrap_or_default();
        if dirs.iter().any(|d| !keep_entry(true, d, &excluded)) {
            continue;
        }
        let ext = p.extension().map(|e| e.to_str().unwrap_or(""));
        let name = p.file_name().and_then(|n| n.to_str()).unwrap_or("");
        let lang = match plan_file(ext, name) {
            FilePlan::Count(l) => l,
            FilePlan::ReadShebang => match first_line_language(content.lines().next().unwrap_or("")) {
                Some(l) => l,
                None => continue,
            },
            FilePlan::Skip => continue,
        };
        if !type_selected(&types, lang) {
            continue;
        }
        let stats = count_content(lang, content.as_bytes());
        assert!(total.can_merge(&stats));
        total.merge(stats);
    }
    assert!(total.can_output());
    total.into_output()
}

fn get<'a>(out: &'a OutputStats, name: &str) -> Option<&'a tokount::types::LangStats> {
    out.languages.iter().find(|(n, _)| n == name).map(|(_, s)| s)
}

#[test]
fn flag_output_csv_starts_with_header() {
    let out = run(MONOREPO, &[], None);
    let text = csv_lines(&report_rows(&out, SortColumn::Code, false, false)).join("\n");
    assert!(
        text.starts_with("language,files,lines,blank,comment,code"),
        "CSV output did not start with expected header; got: {text:?}"
    );
}

#[test]
fn flag_sort_files_sum_matches_total() {
    let out = run(MONOREPO, &[], None);
    let sum_nfiles = get(&out, "SUM").expect("SUM.nFiles not found in JSON output").n_files;
    let total: usize = out
        .languages
        .iter()
        .filter(|(k, _)| k != "SUM" && k.chars().next().is_some_and(char::is_uppercase))
        .map(|(_, v)| v.n_files)
        .sum();
    assert_eq!(
        sum_nfiles, total,
        "SUM.nFiles ({sum_nfiles}) does not match sum of per-language nFiles ({total})"
    );
}

#[test]
fn flag_types_rust_only_rust_and_sum() {
    let out = run(SINGLE_RUST, &[], Some(vec!["Rust".to_string()]));
    for (key, _) in &out.languages {
        assert!(key == "Rust" || key == "SUM", "unexpected key in --types Rust output: {key}");
    }
    assert!(get(&out, "Rust").is_some(), "Rust key missing from output");
    assert!(get(&out, "SUM").is_some(), "SUM key missing from output");
}

#[test]
fn flag_languages_nonempty_and_contains_rust() {
    let text = supported_languages().join("\n");
    assert!(!text.is_empty(), "--languages produced no output");
    assert!(text.contains("Rust"), "--languages output did not contain 'Rust'; got: {text}");
}

#[test]
fn flag_json_lines_matches_components() {
    let out = run(MONOREPO, &[], None);
    for (name, row) in &out.languages {
        assert_eq!(
            row.lines,
            row.code + row.comment + row.blank,
            "{name}.lines ({}) did not match code+comment+blank ({})",
            row.lines,
            row.code + row.comment + row.blank
        );
    }
}

#[test]
fn flag_exclude_removes_targeted_subtree_languages() {
    let baseline = run(MONOREPO, &[], None);
    let excluded = run(MONOREPO, &["frontend"], None);
    let base_files = get(&baseline, "SUM").expect("baseline SUM.nFiles missing").n_files;
    let excluded_files = get(&excluded, "SUM").expect("excluded SUM.nFiles missing").n_files;
    assert!(
        excluded_files < base_files,
        "excluding frontend should reduce file count ({excluded_files} !< {base_files})"
    );
    assert!(get(&excluded, "TypeScript").is_none(), "TypeScript should disappear when frontend is excluded");
    assert!(get(&excluded, "TSX").is_none(), "TSX should disappear when frontend is excluded");
    assert!(get(&excluded, "JSON").is_none(), "JSON should disappear when frontend is excluded");
    assert!(get(&baseline, "TypeScript").is_some());
}

#[test]
fn flag_types_unknown_language_errors() {
    let args = Args {
        paths: vec!["single_rust".to_string()],
        exclude: None,
        follow_symlinks: false,
        output: None,
        sort: None,
        rsort: None,
        types: Some(vec!["DefinitelyNotALanguage".to_string()]),
        no_ignore: false,
        no_color: false,
        languages: false,
        compact: false,
        same_filesystem: false,
    };
    assert_eq!(args.unknown_type(), Some(0), "expected unknown --types to fail");
}
