use build_tree_sitter::errors::BuildError;
use build_tree_sitter::layout::{SourceProbe, TreeSitterPaths};

fn probe(parser: bool, scanner_c: bool, scanner_cc: bool) -> SourceProbe {
    SourceProbe { parser_exists: parser, scanner_c_exists: scanner_c, scanner_cc_exists: scanner_cc }
}

#[test]
fn resolves_parser_only_layout() {
    let layout = TreeSitterPaths::new("/work/tree-sitter-json", &None, &probe(true, false, false))
        .unwrap();
    assert_eq!(layout.source, "/work/tree-sitter-json/src");
    assert_eq!(layout.parser, "/work/tree-sitter-json/src/parser.c");
    assert!(layout.scanner.is_none());
}

#[test]
fn resolves_relative_subpath() {
    let relative = Some(String::from("typescript"));
    let layout =
        TreeSitterPaths::new("/work/tree-sitter-typescript", &relative, &probe(true, false, false))
            .unwrap();
    assert_eq!(layout.source, "/work/tree-sitter-typescript/typescript/src");
    assert_eq!(layout.parser, "/work/tree-sitter-typescript/typescript/src/parser.c");
}

#[test]
fn missing_parser_is_a_hard_error() {
    let r = TreeSitterPaths::new("/work/tree-sitter-json", &None, &probe(false, true, false));
    assert!(matches!(r, Err(BuildError::MissingParserSource)));
}

#[test]
fn selects_c_scanner() {
    let layout =
        TreeSitterPaths::new("/work/g", &None, &probe(true, true, false)).unwrap();
    let scanner = layout.scanner.unwrap();
    assert_eq!(scanner.path, "/work/g/src/scanner.c");
    assert!(!scanner.cpp);
}

#[test]
fn selects_cpp_scanner() {
    let layout =
        TreeSitterPaths::new("/work/g", &None, &probe(true, false, true)).unwrap();
    let scanner = layout.scanner.unwrap();
    assert_eq!(scanner.path, "/work/g/src/scanner.cc");
    assert!(scanner.cpp);
}

#[test]
fn scanner_selection_is_deterministic_when_both_exist() {
    // Exactly one of the two candidates is selected, and the C scanner wins.
    let layout = TreeSitterPaths::new("/work/g", &None, &probe(true, true, true)).unwrap();
    let scanner = layout.scanner.unwrap();
    assert_eq!(scanner.path, "/work/g/src/scanner.c");
    assert!(!scanner.cpp);
}
