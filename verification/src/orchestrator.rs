//! The build orchestrator: drive resolution, staleness checking and
//! toolchain invocation per grammar, isolating failures so one broken
//! grammar never aborts the batch, and aggregate the outcomes.
//!
//! The orchestrator is a planner over observations: the caller probes the
//! filesystem, hands the observations in, executes the planned compiler
//! invocation, and reports its exit back.

use vstd::prelude::*;
use vstd::string::StringExecFns;

use crate::errors::BuildError;
use crate::layout::{layout_model_of, scanner_choice, SourceProbe, TreeSitterPaths};
use crate::paths::{join_path, path_join};
use crate::staleness::{rebuild_decision, SourceStamps, StampQuery};
use crate::toolchain::{
    assemble_command, language_is_cpp, probe_compiler, rendered_command, source_dir_flag,
    CompileCommand, CompilerTool,
};

verus! {

/// One entry of the batch: a grammar to build, from validated
/// configuration. The checkout path is owned by the external source-sync
/// collaborator; the orchestrator only reads under it.
#[derive(Debug)]
pub struct GrammarBuildSpec {
    pub name: String,
    pub checkout_path: String,
    pub relative_subpath: Option<String>,
    pub force_cpp: bool,
    pub generate: bool,
}

/// Everything the orchestrator observes of one grammar's files: which
/// candidate sources exist, and the modification stamps of the artifact
/// and the sources.
#[derive(Debug, Clone, Copy, PartialEq, Eq, Structural)]
pub struct GrammarFsView {
    pub probe: SourceProbe,
    pub stamps: SourceStamps,
}

/// Per-grammar outcome of a run.
#[derive(Debug)]
pub enum BuildResult {
    /// The artifact was fresh; nothing was done.
    Skipped,
    /// The artifact was produced or updated.
    Rebuilt,
    /// This grammar could not be built; the batch went on.
    Failed(BuildError),
}

/// What the orchestrator decides for one grammar before any compiler
/// runs: a finished outcome, or a compiler invocation to execute.
#[derive(Debug)]
pub enum GrammarPlan {
    Done(BuildResult),
    Compile { tool: CompilerTool, command: CompileCommand, library_path: String },
}

/// The deterministic artifact location for one grammar:
/// `<outputDir>/<prefix><name>.<extension>`.
pub open spec fn artifact_path_spec(
    output_dir: Seq<char>,
    prefix: Seq<char>,
    name: Seq<char>,
    extension: Seq<char>,
) -> Seq<char> {
    path_join(output_dir, prefix + name + "."@ + extension)
}

/// Compute the artifact path for one grammar.
pub fn artifact_path(output_dir: &str, prefix: &str, name: &str, extension: &str) -> (r: String)
    ensures
        r@ == artifact_path_spec(output_dir@, prefix@, name@, extension@),
{
    let mut file_name = prefix.to_owned();
    file_name.append(name);
    file_name.append(".");
    file_name.append(extension);
    join_path(output_dir, file_name.as_str())
}

/// The conventional checkout directory for one grammar under a working
/// directory: `<workDir>/tree-sitter-<name>`.
pub open spec fn checkout_dir_spec(work_dir: Seq<char>, name: Seq<char>) -> Seq<char> {
    path_join(work_dir, "tree-sitter-"@ + name)
}

/// Compute the conventional checkout directory for one grammar.
pub fn grammar_checkout_path(work_dir: &str, name: &str) -> (r: String)
    ensures
        r@ == checkout_dir_spec(work_dir@, name@),
{
    let mut dir_name = "tree-sitter-".to_owned();
    dir_name.append(name);
    join_path(work_dir, dir_name.as_str())
}

/// The whole decision for one grammar, before the toolchain enters:
/// `Err` when resolution or the staleness check fails for it, `Ok(false)`
/// when its artifact is fresh, `Ok(true)` when it must be compiled.
pub open spec fn decision_spec(g: GrammarBuildSpec, fs: GrammarFsView) -> Result<
    bool,
    BuildError,
> {
    if !fs.probe.parser_exists {
        Err(BuildError::MissingParserSource)
    } else {
        rebuild_decision(scanner_choice(fs.probe) is Some, fs.stamps)
    }
}

/// What a correct plan for one grammar looks like. For a grammar that
/// must be compiled, the planned invocation carries whatever base
/// arguments the environment's compiler came with, followed exactly by
/// the platform suffix for this grammar's layout and artifact path; the
/// only other acceptable outcome there is that no compiler was found.
pub open spec fn plan_matches(
    r: GrammarPlan,
    g: GrammarBuildSpec,
    fs: GrammarFsView,
    output_dir: Seq<char>,
    prefix: Seq<char>,
    extension: Seq<char>,
) -> bool {
    match decision_spec(g, fs) {
        Err(e) => r == GrammarPlan::Done(BuildResult::Failed(e)),
        Ok(false) => r == GrammarPlan::Done(BuildResult::Skipped),
        Ok(true) => {
            ||| r == GrammarPlan::Done(BuildResult::Failed(BuildError::ToolchainUnavailable))
            ||| (r matches GrammarPlan::Compile { tool, command, library_path } && {
                let layout = layout_model_of(
                    g.checkout_path@,
                    g.relative_subpath.deep_view(),
                    fs.probe,
                );
                &&& library_path@ == artifact_path_spec(output_dir, prefix, g.name@, extension)
                &&& command.program@ == tool.program@
                &&& command.args.deep_view() == tool.args.deep_view()
                    + crate::toolchain::invocation_suffix(
                    tool.is_like_msvc,
                    layout,
                    library_path@,
                )
            })
        },
    }
}

/// Plan one grammar: resolve its layout, decide staleness, and when a
/// rebuild is due, locate a compiler and assemble the invocation. Every
/// per-grammar error becomes a `Failed` plan; nothing propagates.
pub fn build_grammar(
    g: &GrammarBuildSpec,
    fs: &GrammarFsView,
    output_dir: &str,
    prefix: &str,
    extension: &str,
    target: &str,
) -> (r: GrammarPlan)
    ensures
        plan_matches(r, *g, *fs, output_dir@, prefix@, extension@),
{
    let layout = match TreeSitterPaths::new(
        g.checkout_path.as_str(),
        &g.relative_subpath,
        &fs.probe,
    ) {
        Ok(l) => l,
        Err(e) => {
            return GrammarPlan::Done(BuildResult::Failed(e));
        },
    };
    assert(layout.scanner is Some <==> scanner_choice(fs.probe) is Some);
    let library_path = artifact_path(output_dir, prefix, g.name.as_str(), extension);
    let rebuild = match layout.should_recompile(&fs.stamps) {
        Ok(b) => b,
        Err(e) => {
            return GrammarPlan::Done(BuildResult::Failed(e));
        },
    };
    if !rebuild {
        return GrammarPlan::Done(BuildResult::Skipped);
    }
    let cpp = language_is_cpp(g.force_cpp, &layout);
    let search_flag = source_dir_flag(layout.source.as_str());
    let tool = match probe_compiler(cpp, search_flag.as_str(), target) {
        Some(t) => t,
        None => {
            return GrammarPlan::Done(BuildResult::Failed(BuildError::ToolchainUnavailable));
        },
    };
    let command = assemble_command(&tool, &layout, library_path.as_str());
    GrammarPlan::Compile { tool, command, library_path }
}

/// Plan a whole batch, one plan per spec, in the given (stable) order.
pub fn plan_grammars(
    specs: &Vec<GrammarBuildSpec>,
    views: &Vec<GrammarFsView>,
    output_dir: &str,
    prefix: &str,
    extension: &str,
    target: &str,
) -> (plans: Vec<GrammarPlan>)
    requires
        views@.len() == specs@.len(),
    ensures
        plans@.len() == specs@.len(),
        forall|i: int|
            0 <= i < specs@.len() ==> plan_matches(
                #[trigger] plans@[i],
                specs@[i],
                views@[i],
                output_dir@,
                prefix@,
                extension@,
            ),
{
    let mut plans: Vec<GrammarPlan> = Vec::new();
    let mut i: usize = 0;
    while i < specs.len()
        invariant
            i <= specs@.len(),
            views@.len() == specs@.len(),
            plans@.len() == i,
            forall|j: int|
                0 <= j < i ==> plan_matches(
                    #[trigger] plans@[j],
                    specs@[j],
                    views@[j],
                    output_dir@,
                    prefix@,
                    extension@,
                ),
        decreases specs@.len() - i,
    {
        let plan = build_grammar(&specs[i], &views[i], output_dir, prefix, extension, target);
        plans.push(plan);
        i = i + 1;
    }
    plans
}

/// Turn a finished compiler invocation into the grammar's outcome: a
/// success is `Rebuilt`; a non-zero exit carries the rendered command
/// line and both captured output streams, so failures are diagnosable
/// without re-running by hand.
pub fn complete_compile(cmd: &CompileCommand, success: bool, stdout: String, stderr: String) -> (r:
    BuildResult)
    ensures
        success ==> r == BuildResult::Rebuilt,
        !success ==> (r matches BuildResult::Failed(e) && (e matches BuildError::CompileError {
            command: c,
            stdout: so,
            stderr: se,
        } && c@ == rendered_command(cmd.program@, cmd.args.deep_view()) && so@ == stdout@ && se@
            == stderr@)),
{
    if success {
        BuildResult::Rebuilt
    } else {
        let command = crate::toolchain::render_command(cmd);
        BuildResult::Failed(BuildError::CompileError { command, stdout, stderr })
    }
}

/// How many results of a run were skipped.
pub open spec fn count_skipped(s: Seq<BuildResult>) -> nat
    decreases s.len(),
{
    if s.len() == 0 {
        0
    } else {
        count_skipped(s.drop_last()) + (if s.last() is Skipped {
            1nat
        } else {
            0nat
        })
    }
}

/// How many results of a run were rebuilt.
pub open spec fn count_rebuilt(s: Seq<BuildResult>) -> nat
    decreases s.len(),
{
    if s.len() == 0 {
        0
    } else {
        count_rebuilt(s.drop_last()) + (if s.last() is Rebuilt {
            1nat
        } else {
            0nat
        })
    }
}

/// How many results of a run failed.
pub open spec fn count_failed(s: Seq<BuildResult>) -> nat
    decreases s.len(),
{
    if s.len() == 0 {
        0
    } else {
        count_failed(s.drop_last()) + (if s.last() is Failed {
            1nat
        } else {
            0nat
        })
    }
}

/// The run-level report: how many grammars were skipped, rebuilt and
/// failed. The batch always completes: the three counts partition it.
#[derive(Debug, Clone, Copy, PartialEq, Eq, Structural)]
pub struct Report {
    pub skipped: usize,
    pub rebuilt: usize,
    pub failed: usize,
}

/// Aggregate a run's per-grammar results into the report.
pub fn summarize(results: &Vec<BuildResult>) -> (r: Report)
    ensures
        r.skipped == count_skipped(results@),
        r.rebuilt == count_rebuilt(results@),
        r.failed == count_failed(results@),
        r.skipped + r.rebuilt + r.failed == results@.len(),
{
    let ghost all = results@;
    let mut skipped: usize = 0;
    let mut rebuilt: usize = 0;
    let mut failed: usize = 0;
    let mut i: usize = 0;
    while i < results.len()
        invariant
            i <= all.len(),
            all == results@,
            skipped == count_skipped(all.take(i as int)),
            rebuilt == count_rebuilt(all.take(i as int)),
            failed == count_failed(all.take(i as int)),
            skipped + rebuilt + failed == i,
        decreases all.len() - i,
    {
        proof {
            assert(all.take(i + 1).drop_last() =~= all.take(i as int));
            assert(all.take(i + 1).last() == all[i as int]);
        }
        match &results[i] {
            BuildResult::Skipped => {
                skipped = skipped + 1;
            },
            BuildResult::Rebuilt => {
                rebuilt = rebuilt + 1;
            },
            BuildResult::Failed(_) => {
                failed = failed + 1;
            },
        }
        i = i + 1;
    }
    proof {
        assert(all.take(all.len() as int) =~= all);
    }
    Report { skipped, rebuilt, failed }
}

/// Idempotence. A successful rebuild finishes by writing the artifact, so
/// the artifact's stamp afterwards is at least as new as every tracked
/// source's. Running again with no source changes in between then decides
/// "skip" for the grammar: the second run does nothing.
pub proof fn lemma_second_run_skips(g: GrammarBuildSpec, fs1: GrammarFsView, fs2: GrammarFsView)
    requires
        decision_spec(g, fs1) == Ok::<bool, BuildError>(true),
        fs2.probe == fs1.probe,
        fs2.stamps.parser == fs1.stamps.parser,
        fs2.stamps.scanner == fs1.stamps.scanner,
        ({
            &&& fs2.stamps.library matches StampQuery::Modified(library_mtime)
            &&& fs1.stamps.parser matches StampQuery::Modified(parser_mtime)
            &&& parser_mtime <= library_mtime
            &&& (scanner_choice(fs1.probe) is Some ==> (fs1.stamps.scanner matches
                StampQuery::Modified(scanner_mtime) && scanner_mtime <= library_mtime))
        }),
    ensures
        decision_spec(g, fs2) == Ok::<bool, BuildError>(false),
{
    crate::staleness::lemma_fresh_artifact_skips(scanner_choice(fs2.probe) is Some, fs2.stamps);
}

/// Staleness monotonicity across the batch. Touching the parser source of
/// one fresh grammar — giving it a stamp strictly newer than its
/// artifact's — flips exactly that grammar's decision to "rebuild"; every
/// other grammar's decision is unchanged, since each grammar's decision
/// depends only on its own spec and observations.
pub proof fn lemma_touch_isolated(
    specs: Seq<GrammarBuildSpec>,
    views1: Seq<GrammarFsView>,
    views2: Seq<GrammarFsView>,
    i: int,
)
    requires
        views1.len() == specs.len(),
        views2.len() == specs.len(),
        0 <= i < specs.len(),
        forall|j: int| 0 <= j < specs.len() && j != i ==> views2[j] == views1[j],
        decision_spec(specs[i], views1[i]) == Ok::<bool, BuildError>(false),
        views2[i].probe == views1[i].probe,
        views2[i].stamps.library == views1[i].stamps.library,
        views2[i].stamps.scanner == views1[i].stamps.scanner,
        ({
            &&& views1[i].stamps.library matches StampQuery::Modified(library_mtime)
            &&& views2[i].stamps.parser matches StampQuery::Modified(touched_mtime)
            &&& touched_mtime > library_mtime
        }),
    ensures
        decision_spec(specs[i], views2[i]) == Ok::<bool, BuildError>(true),
        forall|j: int|
            0 <= j < specs.len() && j != i ==> decision_spec(specs[j], views2[j]) == decision_spec(
                specs[j],
                views1[j],
            ),
{
    crate::staleness::lemma_touched_parser_forces_rebuild(
        scanner_choice(views2[i].probe) is Some,
        views2[i].stamps,
    );
}

} // verus!
