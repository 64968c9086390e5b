# tokount

A line counter for codebases: every line of a source file is classified as
code, comment or blank, per language, and the totals are reported as a table,
JSON or CSV.

The library under `src/` is written in Verus and proved against its contracts:

- `engine/fsm` — the line classifier, a state machine over the bytes of a file
  (`model.rs` states its meaning as spec functions; `parser/` implements it;
  `lines.rs` proves that in languages without embedded regions every line is
  counted exactly once); `notebook.rs` counts Jupyter notebooks by cell.
- `engine/language.rs`, `engine/registry.rs` — the language definitions (226
  languages, with the extension, file-name and interpreter tables of tokei's
  language list) and their lookup by extension, file name, shebang and display
  name; `engine/fsm/line_languages.rs` proves that each of them is a line
  language.
- `engine/scanner.rs`, `engine/text.rs` — byte searches (through `memchr`) and
  character helpers.
- `engine/stats.rs` — per-worker statistics, their merge and the report rows,
  with the laws of the `SUM` row and of merging.
- `engine/walker.rs`, `engine/reader.rs`, `engine/git.rs`, `engine/analyze.rs`,
  `engine/mod.rs` — the decisions taken for each file and directory of a run.
- `cli.rs`, `display.rs` — the options, the order of the report's rows and the
  text of its CSV lines.

`app/` is the command-line program around the library: argument parsing with
clap, the parallel walk with `ignore`, reading files with `memmap2`, counting in
parallel with rayon, and printing with comfy-table, indicatif and serde_json.
