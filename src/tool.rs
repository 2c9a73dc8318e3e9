use vstd::prelude::*;

verus! {

/// What running one of the key tools as a child process gave.
pub enum ToolOutcome {
    /// The tool exited with status zero; its standard output.
    Succeeded(String),
    /// The tool exited with another status; its standard error.
    Failed(String),
    /// The tool could not be started; the reason.
    Unavailable(String),
}

} // verus!
