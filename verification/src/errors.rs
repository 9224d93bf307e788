//! Per-grammar failure reasons. Every error is caught at the orchestrator
//! boundary and turned into a `Failed` result; none aborts the batch.

use vstd::prelude::*;
use vstd::string::StringExecFns;

verus! {

/// Why one grammar could not be built.
#[derive(Debug)]
pub enum BuildError {
    /// The grammar root lacks the mandatory `src/parser.c`.
    MissingParserSource,
    /// A modification time of a source or artifact could not be read,
    /// so staleness cannot be decided safely.
    TimestampUnavailable,
    /// No usable compiler could be located for the host/target pair.
    ToolchainUnavailable,
    /// The native toolchain exited non-zero; carries the rendered command
    /// line and both captured output streams for diagnosis.
    CompileError { command: String, stdout: String, stderr: String },
}

impl BuildError {
    /// A short human-readable description of the failure.
    pub fn describe(&self) -> (r: String)
        ensures
            self is MissingParserSource ==> r@ == "missing src/parser.c"@,
            self is TimestampUnavailable ==> r@ == "could not read a modification time"@,
            self is ToolchainUnavailable ==> r@ == "no usable compiler for the target"@,
            self matches BuildError::CompileError { command, .. } ==> r@ == "compilation failed: "@
                + command@,
    {
        match self {
            BuildError::MissingParserSource => "missing src/parser.c".to_owned(),
            BuildError::TimestampUnavailable => "could not read a modification time".to_owned(),
            BuildError::ToolchainUnavailable => "no usable compiler for the target".to_owned(),
            BuildError::CompileError { command, .. } => {
                let mut s = "compilation failed: ".to_owned();
                s.append(command.as_str());
                s
            },
        }
    }
}

} // verus!
