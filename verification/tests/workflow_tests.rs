//! Tests for the workflow plugin's metadata and hook registration.

use levfs::workflow::{LevFSWorkflow, WorkflowHook};

#[test]
fn test_plugin_metadata() {
    let plugin = LevFSWorkflow::new("test-workflow".to_string());
    let metadata = plugin.metadata();

    assert_eq!(metadata.name, "levfs-workflow");
    assert_eq!(metadata.version, "0.1.0");
}

#[test]
fn metadata_author_and_description() {
    let plugin = LevFSWorkflow::new("test-workflow".to_string());
    let metadata = plugin.metadata();
    assert_eq!(metadata.author.as_deref(), Some("Leviathan"));
    assert_eq!(
        metadata.description.as_deref(),
        Some("Async hook plugin that spawns Flowmind workflows"),
    );
}

#[test]
fn hook_registration_carries_the_workflow_name() {
    let plugin = LevFSWorkflow::new("test-workflow".to_string());
    let hook = plugin.hook();
    assert_eq!(hook.name(), "flowmind-workflow");
    assert_eq!(hook.workflow_name(), "test-workflow");
    assert_eq!(hook.priority(), 100);
    assert_eq!(plugin.workflow_name(), "test-workflow");
}

#[test]
fn boxed_plugin_keeps_its_name() {
    let plugin = LevFSWorkflow::new("boxed-workflow".to_string()).boxed();
    assert_eq!(plugin.workflow_name(), "boxed-workflow");
}

#[test]
fn hook_built_directly() {
    let hook = WorkflowHook::new("test".to_string());
    assert_eq!(hook.name(), "flowmind-workflow");
    assert_eq!(hook.workflow_name(), "test");
}
