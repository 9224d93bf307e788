use build_tree_sitter::errors::BuildError;
use build_tree_sitter::layout::SourceProbe;
use build_tree_sitter::orchestrator::{
    artifact_path, build_grammar, complete_compile, grammar_checkout_path, plan_grammars,
    summarize, BuildResult, GrammarBuildSpec, GrammarFsView, GrammarPlan,
};
use build_tree_sitter::staleness::{SourceStamps, StampQuery};
use build_tree_sitter::toolchain::CompileCommand;

const TARGET: &str = "x86_64-unknown-linux-gnu";

fn grammar_spec(name: &str, checkout: &str) -> GrammarBuildSpec {
    GrammarBuildSpec {
        name: String::from(name),
        checkout_path: String::from(checkout),
        relative_subpath: None,
        force_cpp: false,
        generate: false,
    }
}

fn view(parser: bool, library: StampQuery, parser_stamp: StampQuery) -> GrammarFsView {
    GrammarFsView {
        probe: SourceProbe {
            parser_exists: parser,
            scanner_c_exists: false,
            scanner_cc_exists: false,
        },
        stamps: SourceStamps { library, parser: parser_stamp, scanner: StampQuery::Absent },
    }
}

#[test]
fn artifact_path_is_deterministic() {
    assert_eq!(artifact_path("/out", "", "json", "so"), "/out/json.so");
    assert_eq!(
        artifact_path("/out", "libtree-sitter-", "json", "so"),
        "/out/libtree-sitter-json.so"
    );
}

#[test]
fn checkout_path_follows_the_convention() {
    assert_eq!(grammar_checkout_path("/tmp/work", "json"), "/tmp/work/tree-sitter-json");
}

#[test]
fn json_grammar_end_to_end() {
    // First run: no artifact yet, so the grammar is planned for compilation
    // with its artifact at <output>/json.<ext>.
    let g = grammar_spec("json", "/tmp/work/tree-sitter-json");
    let first = view(true, StampQuery::Absent, StampQuery::Modified(100));
    let plan = build_grammar(&g, &first, "/out", "", "so", TARGET);
    let command = match plan {
        GrammarPlan::Compile { command, library_path, .. } => {
            assert_eq!(library_path, "/out/json.so");
            command
        },
        other => panic!("expected a compile plan, got {other:?}"),
    };
    assert!(command.args.iter().any(|a| a.as_str() == "/tmp/work/tree-sitter-json/src/parser.c"));
    assert!(command.args.iter().any(|a| a.as_str() == "/out/json.so"));
    let result = complete_compile(&command, true, String::new(), String::new());
    assert!(matches!(result, BuildResult::Rebuilt));

    // Second run with unchanged sources: the artifact now carries a stamp
    // at least as new as the parser's, and the grammar is skipped.
    let second = view(true, StampQuery::Modified(100), StampQuery::Modified(100));
    let plan = build_grammar(&g, &second, "/out", "", "so", TARGET);
    assert!(matches!(plan, GrammarPlan::Done(BuildResult::Skipped)));
}

#[test]
fn second_run_skips_every_grammar() {
    // Idempotence at the batch level: after a run that rebuilt everything,
    // an unchanged filesystem makes the next run skip every grammar.
    let specs = vec![grammar_spec("json", "/w/json"), grammar_spec("rust", "/w/rust")];
    let before = vec![
        view(true, StampQuery::Absent, StampQuery::Modified(50)),
        view(true, StampQuery::Modified(10), StampQuery::Modified(50)),
    ];
    let plans = plan_grammars(&specs, &before, "/out", "", "so", TARGET);
    assert!(plans.iter().all(|p| matches!(p, GrammarPlan::Compile { .. })));

    let after = vec![
        view(true, StampQuery::Modified(60), StampQuery::Modified(50)),
        view(true, StampQuery::Modified(60), StampQuery::Modified(50)),
    ];
    let plans = plan_grammars(&specs, &after, "/out", "", "so", TARGET);
    assert!(plans.iter().all(|p| matches!(p, GrammarPlan::Done(BuildResult::Skipped))));
}

#[test]
fn touching_one_parser_rebuilds_it_and_no_other() {
    let specs = vec![grammar_spec("a", "/w/a"), grammar_spec("b", "/w/b"), grammar_spec("c", "/w/c")];
    let fresh = view(true, StampQuery::Modified(60), StampQuery::Modified(50));
    let views = vec![fresh, fresh, fresh];
    let plans = plan_grammars(&specs, &views, "/out", "", "so", TARGET);
    assert!(plans.iter().all(|p| matches!(p, GrammarPlan::Done(BuildResult::Skipped))));

    // Touch b's parser.
    let touched = view(true, StampQuery::Modified(60), StampQuery::Modified(61));
    let views = vec![fresh, touched, fresh];
    let plans = plan_grammars(&specs, &views, "/out", "", "so", TARGET);
    assert!(matches!(plans[0], GrammarPlan::Done(BuildResult::Skipped)));
    assert!(matches!(plans[1], GrammarPlan::Compile { .. }));
    assert!(matches!(plans[2], GrammarPlan::Done(BuildResult::Skipped)));
}

#[test]
fn broken_grammar_does_not_abort_the_batch() {
    // Three grammars; the second has no parser.c. The run reports a failure
    // for it alone and still plans the other two.
    let specs = vec![grammar_spec("a", "/w/a"), grammar_spec("b", "/w/b"), grammar_spec("c", "/w/c")];
    let views = vec![
        view(true, StampQuery::Absent, StampQuery::Modified(50)),
        view(false, StampQuery::Absent, StampQuery::Modified(50)),
        view(true, StampQuery::Modified(60), StampQuery::Modified(50)),
    ];
    let plans = plan_grammars(&specs, &views, "/out", "", "so", TARGET);
    assert_eq!(plans.len(), 3);
    assert!(matches!(plans[0], GrammarPlan::Compile { .. }));
    assert!(matches!(
        plans[1],
        GrammarPlan::Done(BuildResult::Failed(BuildError::MissingParserSource))
    ));
    assert!(matches!(plans[2], GrammarPlan::Done(BuildResult::Skipped)));
}

#[test]
fn timestamp_errors_fail_only_that_grammar() {
    let g = grammar_spec("a", "/w/a");
    let v = view(true, StampQuery::Unreadable, StampQuery::Modified(50));
    let plan = build_grammar(&g, &v, "/out", "", "so", TARGET);
    assert!(matches!(
        plan,
        GrammarPlan::Done(BuildResult::Failed(BuildError::TimestampUnavailable))
    ));
}

#[test]
fn failed_compile_carries_the_command_and_output() {
    let cmd = CompileCommand {
        program: String::from("cc"),
        args: vec![String::from("a.c")],
    };
    let r = complete_compile(&cmd, false, String::from("out"), String::from("err"));
    match r {
        BuildResult::Failed(BuildError::CompileError { command, stdout, stderr }) => {
            assert_eq!(command, "cc a.c");
            assert_eq!(stdout, "out");
            assert_eq!(stderr, "err");
        },
        other => panic!("expected a compile error, got {other:?}"),
    }
}

#[test]
fn report_counts_each_outcome() {
    let results = vec![
        BuildResult::Skipped,
        BuildResult::Rebuilt,
        BuildResult::Rebuilt,
        BuildResult::Failed(BuildError::MissingParserSource),
    ];
    let report = summarize(&results);
    assert_eq!(report.skipped, 1);
    assert_eq!(report.rebuilt, 2);
    assert_eq!(report.failed, 1);
}
