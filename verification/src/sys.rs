//! What the worktree plugin hands to the host's two imports.
//!
//! The imports themselves are doors out of the sandbox and live outside this
//! library; what stands here is the vocabulary they are called with.

use vstd::prelude::*;

verus! {

/// How loud a line to the host's log is.
#[derive(Copy, Clone, Debug, PartialEq, Eq)]
pub enum Level {
    /// Something failed.
    Error,
    /// Something is not right but nothing failed.
    Warn,
    /// Worth knowing.
    Info,
}

/// The number the host's `log` import reads a level as.
pub open spec fn level_code(level: Level) -> i32 {
    match level {
        Level::Error => 1,
        Level::Warn => 2,
        Level::Info => 3,
    }
}

impl Level {
    /// The number the host's `log` import takes for this level: one for an
    /// error, two for a warning, three for something worth knowing.
    pub fn code(&self) -> (code: i32)
        ensures
            code == level_code(*self),
    {
        match self {
            Level::Error => 1,
            Level::Warn => 2,
            Level::Info => 3,
        }
    }
}

} // verus!
