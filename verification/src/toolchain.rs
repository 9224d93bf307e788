//! The toolchain driver: choose the compilation language, locate a
//! host/target-aware compiler, and assemble the single invocation that
//! compiles the parser (and the optional scanner) into one shared-library
//! artifact, handling the split between Unix-style and Windows-style
//! compiler/linker argument conventions.
//!
//! Locating the compiler depends on the build environment and is the one
//! trusted call in this module; everything appended after its base
//! argument list is assembled by verified code with an exact contract.

use vstd::prelude::*;
use vstd::string::StringExecFns;

use crate::layout::{LayoutModel, TreeSitterPaths};

verus! {

/// A compiler located for the host/target pair: its executable, the base
/// argument list it was configured with (include path, optimization,
/// shared-library and warning flags), and whether it takes Windows-style
/// (MSVC-like) linker arguments.
#[derive(Debug)]
pub struct CompilerTool {
    pub program: String,
    pub args: Vec<String>,
    pub is_like_msvc: bool,
}

/// One fully-assembled compiler invocation, ready to execute.
#[derive(Debug)]
pub struct CompileCommand {
    pub program: String,
    pub args: Vec<String>,
}

/// The compilation language for the combined invocation: C++ is forced if
/// the grammar's spec requests it or if the detected scanner is C++;
/// otherwise the unit is compiled as C.
pub open spec fn cpp_mode(force_cpp: bool, layout: LayoutModel) -> bool {
    force_cpp || (layout.scanner matches Some((path, cpp)) && cpp)
}

/// Decide the compilation language for a resolved layout.
pub fn language_is_cpp(force_cpp: bool, layout: &TreeSitterPaths) -> (r: bool)
    ensures
        r == cpp_mode(force_cpp, layout.model()),
{
    force_cpp || (match &layout.scanner {
        Option::Some(sc) => sc.cpp,
        Option::None => false,
    })
}

/// The flag that points the compiler's header search at the grammar's
/// source directory, so `parser.c` can locate grammar-local headers;
/// `-I` is the convention every supported compiler family takes.
pub open spec fn header_search_flag(source_dir: Seq<char>) -> Seq<char> {
    "-I"@ + source_dir
}

/// Build the header-search flag for a source directory.
pub fn source_dir_flag(source_dir: &str) -> (r: String)
    ensures
        r@ == header_search_flag(source_dir@),
{
    let mut r = "-I".to_owned();
    r.append(source_dir);
    r
}

/// Relies on `cc::Build::try_get_compiler`: probes the build environment
/// (explicitly set compilers, `CC`/`CXX`-style variables, platform
/// defaults) for a C/C++ compiler configured for the given host/target
/// pair and language, carrying the one extra flag it is handed, and
/// reports its executable, base argument list and family. The outcome
/// depends on the environment, so nothing is promised of the value that
/// comes back.
#[verifier::external_body]
#[allow(deprecated)]
pub(crate) fn probe_compiler(cpp: bool, extra_flag: &str, target: &str) -> (r: Option<
    CompilerTool,
>) {
    let mut build = cc::Build::new();
    build.cpp(cpp).warnings(false).flag(extra_flag).opt_level(3).cargo_metadata(
        false,
    ).shared_flag(true).host(target).target(target);
    match build.try_get_compiler() {
        Ok(tool) => Some(
            CompilerTool {
                program: tool.path().to_string_lossy().into_owned(),
                args: tool.args().iter().map(|a| a.to_string_lossy().into_owned()).collect(),
                is_like_msvc: tool.is_like_msvc(),
            },
        ),
        Err(_) => None,
    }
}

/// The arguments appended after the compiler's base argument list: the
/// parser source, the platform-specific output and linking flags, and the
/// scanner source behind its language-override flag. On Windows-style
/// toolchains the linker flags come last; on Unix-style toolchains an
/// explicit language override precedes the scanner so one invocation can
/// mix C and C++ translation units.
pub open spec fn invocation_suffix(
    msvc_like: bool,
    layout: LayoutModel,
    library_path: Seq<char>,
) -> Seq<Seq<char>> {
    if msvc_like {
        seq![layout.parser] + (match layout.scanner {
            Option::Some((path, cpp)) => seq![path],
            Option::None => Seq::empty(),
        }) + seq!["/link"@, "/DLL"@, "/out:"@ + library_path]
    } else {
        seq![layout.parser, "-fPIC"@, "-fno-exceptions"@, "-g"@, "-o"@, library_path] + (
        match layout.scanner {
            Option::Some((path, cpp)) => if cpp {
                seq!["-xc++"@, path]
            } else {
                seq!["-xc"@, "-std=c99"@, path]
            },
            Option::None => Seq::empty(),
        })
    }
}

/// Append one argument.
fn push_arg(args: &mut Vec<String>, a: String)
    ensures
        final(args).deep_view() == old(args).deep_view().push(a@),
{
    let ghost pre = args.deep_view();
    let ghost av = a@;
    args.push(a);
    assert(final(args).deep_view() =~= pre.push(av));
}

/// Copy the compiler's base argument list.
fn clone_args(v: &Vec<String>) -> (r: Vec<String>)
    ensures
        r.deep_view() == v.deep_view(),
{
    let mut r: Vec<String> = Vec::new();
    let mut i: usize = 0;
    while i < v.len()
        invariant
            i <= v.len(),
            r.deep_view() == v.deep_view().take(i as int),
        decreases v.len() - i,
    {
        let ghost pre = r.deep_view();
        let x = v[i].clone();
        let ghost xv = x@;
        assert(xv == v.deep_view()[i as int]);
        r.push(x);
        assert(r.deep_view() =~= pre.push(xv));
        assert(pre.push(xv) =~= v.deep_view().take(i as int + 1));
        i = i + 1;
    }
    assert(r.deep_view() =~= v.deep_view());
    r
}

/// Assemble the full compiler invocation for one grammar: the located
/// compiler's base arguments followed exactly by the platform-specific
/// suffix for this layout and artifact path.
pub fn assemble_command(tool: &CompilerTool, layout: &TreeSitterPaths, library_path: &str) -> (cmd:
    CompileCommand)
    ensures
        cmd.program@ == tool.program@,
        cmd.args.deep_view() == tool.args.deep_view() + invocation_suffix(
            tool.is_like_msvc,
            layout.model(),
            library_path@,
        ),
{
    let ghost base = tool.args.deep_view();
    let mut args = clone_args(&tool.args);
    push_arg(&mut args, layout.parser.clone());
    if tool.is_like_msvc {
        match &layout.scanner {
            Option::Some(sc) => push_arg(&mut args, sc.path.clone()),
            Option::None => (),
        }
        push_arg(&mut args, "/link".to_owned());
        push_arg(&mut args, "/DLL".to_owned());
        let mut out_arg = "/out:".to_owned();
        out_arg.append(library_path);
        push_arg(&mut args, out_arg);
    } else {
        push_arg(&mut args, "-fPIC".to_owned());
        push_arg(&mut args, "-fno-exceptions".to_owned());
        push_arg(&mut args, "-g".to_owned());
        push_arg(&mut args, "-o".to_owned());
        push_arg(&mut args, library_path.to_owned());
        match &layout.scanner {
            Option::Some(sc) => {
                if sc.cpp {
                    push_arg(&mut args, "-xc++".to_owned());
                } else {
                    push_arg(&mut args, "-xc".to_owned());
                    push_arg(&mut args, "-std=c99".to_owned());
                }
                push_arg(&mut args, sc.path.clone());
            },
            Option::None => (),
        }
    }
    assert(args.deep_view() =~= base + invocation_suffix(
        tool.is_like_msvc,
        layout.model(),
        library_path@,
    ));
    CompileCommand { program: tool.program.clone(), args }
}

/// The command line rendered for diagnostics: the program followed by
/// each argument, separated by single spaces.
pub open spec fn rendered_command(program: Seq<char>, args: Seq<Seq<char>>) -> Seq<char>
    decreases args.len(),
{
    if args.len() == 0 {
        program
    } else {
        rendered_command(program, args.drop_last()) + " "@ + args.last()
    }
}

/// Render a command line for failure diagnostics.
pub fn render_command(cmd: &CompileCommand) -> (r: String)
    ensures
        r@ == rendered_command(cmd.program@, cmd.args.deep_view()),
{
    let ghost all = cmd.args.deep_view();
    let mut r = cmd.program.clone();
    let mut i: usize = 0;
    while i < cmd.args.len()
        invariant
            i <= cmd.args.len(),
            all == cmd.args.deep_view(),
            r@ == rendered_command(cmd.program@, all.take(i as int)),
        decreases cmd.args.len() - i,
    {
        r.append(" ");
        r.append(cmd.args[i].as_str());
        i = i + 1;
        proof {
            assert(all.take(i as int).drop_last() =~= all.take(i - 1));
            assert(all.take(i as int).last() == all[i - 1]);
        }
    }
    assert(all.take(cmd.args.len() as int) =~= all);
    r
}

} // verus!
