//! Grammar build orchestration: resolving a grammar's source layout,
//! deciding whether a rebuild is needed, assembling the native-toolchain
//! invocation, and driving a batch of grammar builds with per-grammar
//! failure isolation.

pub mod errors;
pub mod layout;
pub mod orchestrator;
pub mod ordering;
pub mod paths;
pub mod staleness;
pub mod submodules;
pub mod sync;
pub mod toolchain;
