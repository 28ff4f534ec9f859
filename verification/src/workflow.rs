//! The workflow plugin: metadata and the hook it registers. The hook's
//! execution — spawning an external workflow process and letting it run in
//! the background — is runtime plumbing outside this library; the hook
//! always decides `Allow` immediately.

use vstd::prelude::*;

verus! {

/// Descriptive metadata a plugin reports about itself.
#[derive(Debug, Clone)]
pub struct PluginMetadata {
    pub name: String,
    pub version: String,
    pub author: Option<String>,
    pub description: Option<String>,
}

/// LevFS workflow plugin: registers one hook that spawns a named Flowmind
/// workflow for each event.
#[derive(Debug, Clone)]
pub struct LevFSWorkflow {
    workflow_name: String,
}

impl LevFSWorkflow {
    /// The name of the workflow this plugin spawns.
    pub closed spec fn spec_workflow_name(self) -> Seq<char> {
        self.workflow_name@
    }

    /// A plugin spawning the named workflow.
    pub fn new(workflow_name: String) -> (r: LevFSWorkflow)
        ensures
            r.spec_workflow_name() == workflow_name@,
    {
        LevFSWorkflow { workflow_name }
    }

    /// The plugin, boxed.
    pub fn boxed(self) -> (r: Box<LevFSWorkflow>)
        ensures
            r.spec_workflow_name() == self.spec_workflow_name(),
    {
        Box::new(self)
    }

    /// The plugin's metadata, fixed.
    pub fn metadata(&self) -> (r: PluginMetadata)
        ensures
            r.name@ == "levfs-workflow"@,
            r.version@ == "0.1.0"@,
            r.author matches Some(a) && a@ == "Leviathan"@,
            r.description matches Some(d) && d@ == "Async hook plugin that spawns Flowmind workflows"@,
    {
        PluginMetadata {
            name: "levfs-workflow".to_owned(),
            version: "0.1.0".to_owned(),
            author: Some("Leviathan".to_owned()),
            description: Some("Async hook plugin that spawns Flowmind workflows".to_owned()),
        }
    }

    /// The one hook this plugin registers, carrying the workflow name.
    pub fn hook(&self) -> (r: WorkflowHook)
        ensures
            r.spec_workflow_name() == self.spec_workflow_name(),
    {
        WorkflowHook { workflow_name: self.workflow_name.clone() }
    }

    /// The name of the workflow this plugin spawns.
    pub fn workflow_name(&self) -> (r: &String)
        ensures
            r@ == self.spec_workflow_name(),
    {
        &self.workflow_name
    }
}

/// The hook that spawns Flowmind workflows.
#[derive(Debug, Clone)]
pub struct WorkflowHook {
    workflow_name: String,
}

impl WorkflowHook {
    /// The name of the workflow this hook spawns.
    pub closed spec fn spec_workflow_name(self) -> Seq<char> {
        self.workflow_name@
    }

    /// A hook spawning the named workflow.
    pub fn new(workflow_name: String) -> (r: WorkflowHook)
        ensures
            r.spec_workflow_name() == workflow_name@,
    {
        WorkflowHook { workflow_name }
    }

    /// The hook's registered name, fixed.
    pub fn name(&self) -> (r: &str)
        ensures
            r@ == "flowmind-workflow"@,
    {
        "flowmind-workflow"
    }

    /// The hook's priority: high, so workflows trigger early.
    pub fn priority(&self) -> (r: i32)
        ensures
            r == 100,
    {
        100
    }

    /// The name of the workflow this hook spawns.
    pub fn workflow_name(&self) -> (r: &String)
        ensures
            r@ == self.spec_workflow_name(),
    {
        &self.workflow_name
    }
}

} // verus!
