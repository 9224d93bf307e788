//! The staleness oracle: whole-file modification-time comparison between
//! the built artifact and its declared source inputs. It inspects nothing
//! else (headers, flags, toolchain version): a flag-only change does not
//! trigger a rebuild, a documented limitation.
//!
//! The oracle never reads the filesystem itself: the caller observes each
//! file once and hands the observations in as [`SourceStamps`].

use vstd::prelude::*;

use crate::errors::BuildError;
use crate::layout::TreeSitterPaths;

verus! {

/// One observation of a file's modification time: the file is absent,
/// or present but its metadata could not be read, or modified at the
/// given instant (a monotone timestamp in arbitrary units).
#[derive(Debug, Clone, Copy, PartialEq, Eq, Structural)]
pub enum StampQuery {
    Absent,
    Unreadable,
    Modified(u64),
}

/// The observations the oracle decides on: the artifact (library), the
/// parser source, and the scanner source. The scanner stamp is consulted
/// only when the resolved layout has a scanner.
#[derive(Debug, Clone, Copy, PartialEq, Eq, Structural)]
pub struct SourceStamps {
    pub library: StampQuery,
    pub parser: StampQuery,
    pub scanner: StampQuery,
}

/// The rebuild rule. Rebuild is required if the artifact is absent, or a
/// tracked source is strictly newer than the artifact; an unreadable
/// timestamp (or a vanished source) is a hard error for that grammar,
/// since staleness cannot be decided safely. Otherwise the artifact is
/// fresh and the grammar is skipped.
pub open spec fn rebuild_decision(has_scanner: bool, st: SourceStamps) -> Result<
    bool,
    BuildError,
> {
    match st.library {
        StampQuery::Absent => Ok(true),
        StampQuery::Unreadable => Err(BuildError::TimestampUnavailable),
        StampQuery::Modified(library_mtime) => match st.parser {
            StampQuery::Modified(parser_mtime) => if parser_mtime > library_mtime {
                Ok(true)
            } else if has_scanner {
                match st.scanner {
                    StampQuery::Modified(scanner_mtime) => Ok(scanner_mtime > library_mtime),
                    _ => Err(BuildError::TimestampUnavailable),
                }
            } else {
                Ok(false)
            },
            _ => Err(BuildError::TimestampUnavailable),
        },
    }
}

impl TreeSitterPaths {
    /// Decide whether this grammar's artifact must be rebuilt from the
    /// given modification-time observations.
    pub fn should_recompile(&self, stamps: &SourceStamps) -> (r: Result<bool, BuildError>)
        ensures
            r == rebuild_decision(self.scanner is Some, *stamps),
    {
        let library_mtime = match stamps.library {
            StampQuery::Absent => {
                return Ok(true);
            },
            StampQuery::Unreadable => {
                return Err(BuildError::TimestampUnavailable);
            },
            StampQuery::Modified(m) => m,
        };
        let parser_mtime = match stamps.parser {
            StampQuery::Modified(m) => m,
            _ => {
                return Err(BuildError::TimestampUnavailable);
            },
        };
        if parser_mtime > library_mtime {
            return Ok(true);
        }
        if self.scanner.is_some() {
            let scanner_mtime = match stamps.scanner {
                StampQuery::Modified(m) => m,
                _ => {
                    return Err(BuildError::TimestampUnavailable);
                },
            };
            return Ok(scanner_mtime > library_mtime);
        }
        Ok(false)
    }
}

/// Freshness is stable: once the artifact carries a timestamp at least as
/// new as every tracked source's, the oracle decides "skip", so a second
/// run over unchanged sources does nothing.
pub proof fn lemma_fresh_artifact_skips(has_scanner: bool, st: SourceStamps)
    requires
        ({
            &&& st.library matches StampQuery::Modified(library_mtime)
            &&& st.parser matches StampQuery::Modified(parser_mtime)
            &&& parser_mtime <= library_mtime
            &&& (has_scanner ==> (st.scanner matches StampQuery::Modified(scanner_mtime)
                && scanner_mtime <= library_mtime))
        }),
    ensures
        rebuild_decision(has_scanner, st) == Ok::<bool, BuildError>(false),
{
}

/// Staleness is monotone in the sources: making the parser source strictly
/// newer than the artifact forces the next decision to "rebuild".
pub proof fn lemma_touched_parser_forces_rebuild(has_scanner: bool, st: SourceStamps)
    requires
        ({
            &&& st.library matches StampQuery::Modified(library_mtime)
            &&& st.parser matches StampQuery::Modified(parser_mtime)
            &&& parser_mtime > library_mtime
        }),
    ensures
        rebuild_decision(has_scanner, st) == Ok::<bool, BuildError>(true),
{
}

} // verus!
