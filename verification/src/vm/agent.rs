//! Parameters of an agent run.

use crate::text::owned;
use crate::vm::config::VmConfig;
use vstd::prelude::*;

verus! {

/// The time that an agent gets unless told otherwise, in seconds.
pub const DEFAULT_AGENT_TIMEOUT_S: u64 = 300;

/// The arguments of the command that runs an agent.
#[derive(Debug, Clone, PartialEq, Eq)]
pub struct RunAgentArgs {
    /// What the agent is to do.
    pub task: String,
    /// Path of a configuration file.
    pub config: Option<String>,
    /// Time limit in seconds.
    pub timeout: u64,
    /// Whether a real VM is used where one is available.
    pub real_vm: bool,
}

impl RunAgentArgs {
    /// The arguments for a task, with the default time limit.
    pub fn new(task: &str) -> (out: RunAgentArgs)
        ensures
            out.task@ == task@,
            out.config is None,
            out.timeout == DEFAULT_AGENT_TIMEOUT_S,
            !out.real_vm,
    {
        RunAgentArgs { task: owned(task), config: None, timeout: DEFAULT_AGENT_TIMEOUT_S, real_vm: false }
    }
}

/// The configuration of the VM that an agent runs in: the given one, or
/// the default configuration named after the task.
pub fn agent_vm_config(task: &str, config: Option<VmConfig>) -> (out: VmConfig)
    ensures
        match config {
            Some(given) => out == given,
            None => out.vm_id@ == task@ && out.has_default_resources() && out.accepted(),
        },
{
    match config {
        Some(given) => given,
        None => VmConfig::new(owned(task)),
    }
}

} // verus!
