//! Source-layout resolution: given a checked-out grammar root and an
//! optional relative subpath, locate the parser source and the optional
//! scanner source, and infer the scanner's language from its extension.
//!
//! The resolver itself never touches the filesystem: the caller probes
//! which files exist and hands the outcome in as a [`SourceProbe`].

use vstd::prelude::*;

use crate::errors::BuildError;
use crate::paths::{join_path, path_join};

verus! {

/// Which of the candidate source files exist under `src/` of the
/// effective grammar root, as observed by the caller.
#[derive(Debug, Clone, Copy, PartialEq, Eq, Structural)]
pub struct SourceProbe {
    pub parser_exists: bool,
    pub scanner_c_exists: bool,
    pub scanner_cc_exists: bool,
}

/// A custom scanner source file and its inferred language.
#[derive(Debug)]
pub struct TreeSitterScannerSource {
    pub path: String,
    pub cpp: bool,
}

/// One grammar's compilable inputs: the source directory, the mandatory
/// parser source, and the optional scanner source.
#[derive(Debug)]
pub struct TreeSitterPaths {
    pub source: String,
    pub parser: String,
    pub scanner: Option<TreeSitterScannerSource>,
}

/// The mathematical shape of a resolved layout: each path as a character
/// sequence, and the scanner as its path together with its language.
pub ghost struct LayoutModel {
    pub source: Seq<char>,
    pub parser: Seq<char>,
    pub scanner: Option<(Seq<char>, bool)>,
}

impl TreeSitterScannerSource {
    pub open spec fn model(self) -> (Seq<char>, bool) {
        (self.path@, self.cpp)
    }
}

impl TreeSitterPaths {
    pub open spec fn model(self) -> LayoutModel {
        LayoutModel {
            source: self.source@,
            parser: self.parser@,
            scanner: match self.scanner {
                Option::Some(sc) => Option::Some(sc.model()),
                Option::None => Option::None,
            },
        }
    }
}

/// The grammar root actually holding the sources: the checkout itself,
/// or the relative subpath under it for monorepo-style repositories.
pub open spec fn effective_root(repo: Seq<char>, relative: Option<Seq<char>>) -> Seq<char> {
    match relative {
        Option::Some(rel) => path_join(repo, rel),
        Option::None => repo,
    }
}

/// The conventional source directory under the effective root.
pub open spec fn source_dir_of(repo: Seq<char>, relative: Option<Seq<char>>) -> Seq<char> {
    path_join(effective_root(repo, relative), "src"@)
}

/// Which scanner file the resolver selects: `scanner.c` when it exists,
/// else `scanner.cc` (as C++) when it exists, else none. At most one of
/// the two candidates is ever selected.
pub open spec fn scanner_choice(probe: SourceProbe) -> Option<bool> {
    if probe.scanner_c_exists {
        Option::Some(false)
    } else if probe.scanner_cc_exists {
        Option::Some(true)
    } else {
        Option::None
    }
}

/// The file name of the scanner source for each language.
pub open spec fn scanner_file_name(cpp: bool) -> Seq<char> {
    if cpp {
        "scanner.cc"@
    } else {
        "scanner.c"@
    }
}

/// The layout that resolution yields on a root whose parser source exists.
pub open spec fn layout_model_of(
    repo: Seq<char>,
    relative: Option<Seq<char>>,
    probe: SourceProbe,
) -> LayoutModel {
    let source = source_dir_of(repo, relative);
    LayoutModel {
        source: source,
        parser: path_join(source, "parser.c"@),
        scanner: match scanner_choice(probe) {
            Option::Some(cpp) => Option::Some((path_join(source, scanner_file_name(cpp)), cpp)),
            Option::None => Option::None,
        },
    }
}

impl TreeSitterPaths {
    /// Resolve the source layout of one grammar. Fails exactly when the
    /// mandatory parser source is absent; a grammar without any scanner
    /// is valid.
    pub fn new(repo: &str, relative: &Option<String>, probe: &SourceProbe) -> (r: Result<
        TreeSitterPaths,
        BuildError,
    >)
        ensures
            probe.parser_exists ==> (r matches Ok(p) && p.model() == layout_model_of(
                repo@,
                relative.deep_view(),
                *probe,
            )),
            !probe.parser_exists ==> (r matches Err(e) && e is MissingParserSource),
    {
        let root: String = match relative {
            Option::Some(rel) => join_path(repo, rel.as_str()),
            Option::None => repo.to_owned(),
        };
        let source = join_path(root.as_str(), "src");
        let parser = join_path(source.as_str(), "parser.c");
        if !probe.parser_exists {
            return Err(BuildError::MissingParserSource);
        }
        let scanner: Option<TreeSitterScannerSource> = if probe.scanner_c_exists {
            Some(
                TreeSitterScannerSource {
                    path: join_path(source.as_str(), "scanner.c"),
                    cpp: false,
                },
            )
        } else if probe.scanner_cc_exists {
            Some(
                TreeSitterScannerSource {
                    path: join_path(source.as_str(), "scanner.cc"),
                    cpp: true,
                },
            )
        } else {
            None
        };
        Ok(TreeSitterPaths { source, parser, scanner })
    }
}

/// A grammar root with a parser source and no scanner source resolves to
/// a layout without a scanner file.
pub proof fn lemma_parser_only_layout_has_no_scanner(
    repo: Seq<char>,
    relative: Option<Seq<char>>,
    probe: SourceProbe,
)
    requires
        !probe.scanner_c_exists,
        !probe.scanner_cc_exists,
    ensures
        layout_model_of(repo, relative, probe).scanner is None,
{
}

/// Scanner selection is deterministic: whenever at least one scanner
/// candidate exists, exactly one is selected, and `scanner.c` wins over
/// `scanner.cc` when both exist.
pub proof fn lemma_scanner_selection_deterministic(
    repo: Seq<char>,
    relative: Option<Seq<char>>,
    probe: SourceProbe,
)
    requires
        probe.scanner_c_exists || probe.scanner_cc_exists,
    ensures
        layout_model_of(repo, relative, probe).scanner matches Some((path, cpp)) && cpp
            == !probe.scanner_c_exists && path == path_join(
            source_dir_of(repo, relative),
            scanner_file_name(cpp),
        ),
{
}

} // verus!
