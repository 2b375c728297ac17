use abiogenesis::execution_context::ExecutionContext;

#[test]
fn test_execution_context_with_success() {
    let context = ExecutionContext::new("hello", "console.log('Hello');", None, true);

    assert!(context.success);
    assert!(context.stderr.is_none());
}

#[test]
fn test_execution_context_new_sets_all_fields() {
    let context = ExecutionContext::new(
        "test-cmd",
        "const x = 1;",
        Some("warning: unused".to_string()),
        true,
    );

    assert_eq!(context.command_name, "test-cmd");
    assert_eq!(context.script_content, "const x = 1;");
    assert_eq!(context.stderr, Some("warning: unused".to_string()));
    assert!(context.success);
}

#[test]
fn test_execution_context_clone() {
    let context = ExecutionContext::new("original", "script content", None, true);

    let cloned = context.clone();
    assert_eq!(cloned.command_name, context.command_name);
    assert_eq!(cloned.script_content, context.script_content);
    assert_eq!(cloned.stderr, context.stderr);
    assert_eq!(cloned.success, context.success);
}

#[test]
fn context_file_lives_in_the_config_dir() {
    let path = ExecutionContext::context_file_path().unwrap();
    assert!(path.ends_with(".abiogenesis/last_execution.json"));
}
