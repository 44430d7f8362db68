//! The command surface, as plain data.
//!
//! Argument parsing and shell-completion generation are external work; the
//! library only fixes which commands exist, so that the surrounding program
//! and the pipeline agree on them.

use vstd::prelude::*;

verus! {

/// The shells for which completions can be generated.
#[derive(Clone, Copy, PartialEq, Eq, Structural, Debug)]
pub enum ShellKind {
    Bash,
    Zsh,
    Fish,
}

/// The commands the assistant understands. `Run` is the default.
#[derive(Clone, Copy, PartialEq, Eq, Structural, Debug)]
pub enum Commands {
    Run,
    GenerateCompletion { shell: ShellKind },
    GenerateConfig,
}

} // verus!
