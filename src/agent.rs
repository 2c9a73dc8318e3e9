use vstd::prelude::*;

use crate::text::{is_blank, is_blank_text, split_lines, text_lines};
use crate::tool::ToolOutcome;

verus! {

/// Why the identities loaded in the agent could not be listed.
pub enum AgentError {
    /// The query tool ran and failed; its standard error.
    QueryFailed(String),
    /// The query tool could not be started; the reason.
    ToolUnavailable(String),
}

impl AgentError {
    /// The text shown to the user.
    pub fn message(&self) -> (r: String)
        ensures
            match self {
                AgentError::QueryFailed(e) => r@ == e@,
                AgentError::ToolUnavailable(e) => r@ == "Failed to run ssh-add -l: "@ + e@,
            },
    {
        match self {
            AgentError::QueryFailed(e) => e.clone(),
            AgentError::ToolUnavailable(e) => String::from_str("Failed to run ssh-add -l: ").concat(
                e.as_str(),
            ),
        }
    }
}

/// Whether the agent indicator (the value of the agent socket variable, if
/// set) says that an agent is running: it must be set and not blank.
pub fn is_ssh_agent_running(indicator: Option<&str>) -> (r: bool)
    ensures
        r == (indicator is Some && !is_blank(indicator->0@)),
{
    match indicator {
        Some(v) => !is_blank_text(v),
        None => false,
    }
}

/// The identities loaded in the agent, from what the query tool gave: one
/// entry per line of its output, in order.
pub fn get_loaded_ssh_agent_keys(outcome: &ToolOutcome) -> (r: Result<Vec<String>, AgentError>)
    ensures
        match outcome {
            ToolOutcome::Succeeded(out) => r is Ok && r->Ok_0.deep_view() == text_lines(out@),
            ToolOutcome::Failed(err) => match r {
                Err(AgentError::QueryFailed(e)) => e@ == err@,
                _ => false,
            },
            ToolOutcome::Unavailable(why) => match r {
                Err(AgentError::ToolUnavailable(e)) => e@ == why@,
                _ => false,
            },
        },
{
    match outcome {
        ToolOutcome::Succeeded(out) => Ok(split_lines(out.as_str())),
        ToolOutcome::Failed(err) => Err(AgentError::QueryFailed(err.clone())),
        ToolOutcome::Unavailable(why) => Err(AgentError::ToolUnavailable(why.clone())),
    }
}

} // verus!
