use build_tree_sitter::orchestrator::GrammarBuildSpec;
use build_tree_sitter::ordering::{sort_specs_by_name, str_lex_le};

fn grammar_spec(name: &str) -> GrammarBuildSpec {
    GrammarBuildSpec {
        name: String::from(name),
        checkout_path: String::from("/w"),
        relative_subpath: None,
        force_cpp: false,
        generate: false,
    }
}

#[test]
fn lexicographic_comparison() {
    assert!(str_lex_le("a", "b"));
    assert!(!str_lex_le("b", "a"));
    assert!(str_lex_le("a", "a"));
    assert!(str_lex_le("", "a"));
    assert!(!str_lex_le("a", ""));
    assert!(str_lex_le("a", "ab"));
    assert!(!str_lex_le("ab", "a"));
    assert!(str_lex_le("ab", "b"));
    assert!(str_lex_le("json", "rust"));
}

#[test]
fn sorts_the_batch_by_grammar_name() {
    let specs = vec![grammar_spec("rust"), grammar_spec("ada"), grammar_spec("json"), grammar_spec("c")];
    let sorted = sort_specs_by_name(specs);
    let names: Vec<&str> = sorted.iter().map(|s| s.name.as_str()).collect();
    assert_eq!(names, vec!["ada", "c", "json", "rust"]);
}

#[test]
fn sorting_keeps_duplicate_names() {
    let specs = vec![grammar_spec("b"), grammar_spec("a"), grammar_spec("b")];
    let sorted = sort_specs_by_name(specs);
    let names: Vec<&str> = sorted.iter().map(|s| s.name.as_str()).collect();
    assert_eq!(names, vec!["a", "b", "b"]);
}
