use abiogenesis::executor::{ExecError, Executor};
use abiogenesis::llm_generator::{GeneratedCommand, PermissionRequest};

fn sample_command(name: &str, permissions: Vec<(&str, &str)>) -> GeneratedCommand {
    GeneratedCommand {
        name: name.to_string(),
        description: format!("Test command: {}", name),
        script_file: format!("{}.ts", name),
        permissions: permissions
            .into_iter()
            .map(|(perm, reason)| PermissionRequest {
                permission: perm.to_string(),
                reason: reason.to_string(),
            })
            .collect(),
    }
}

#[test]
fn test_execute_system_command_empty_args_returns_error() {
    let result = Executor::system_invocation(&vec![]);

    assert!(result.is_err());
    assert!(result.unwrap_err().message().contains("No command provided"));
}

#[test]
fn system_invocation_splits_program_and_arguments() {
    let (program, args) =
        Executor::system_invocation(&vec!["echo".to_string(), "Hello, World!".to_string()]).unwrap();
    assert_eq!(program, "echo");
    assert_eq!(args, vec!["Hello, World!".to_string()]);
}

#[test]
fn test_handle_output_success_with_stdout() {
    let plan = Executor::handle_output(true, b"output", b"");

    assert!(plan.succeeded);
    assert!(plan.forward_stdout);
    assert!(!plan.forward_stderr);
}

#[test]
fn test_handle_output_success_with_stderr() {
    let plan = Executor::handle_output(true, b"", b"warning");

    assert!(plan.succeeded);
    assert!(!plan.forward_stdout);
    assert!(plan.forward_stderr);
}

#[test]
fn test_handle_output_failure_returns_error() {
    let plan = Executor::handle_output(false, b"partial", b"error");

    assert!(!plan.succeeded);
    assert!(!plan.forward_stdout);
    assert!(plan.forward_stderr);
}

#[test]
fn sandbox_arguments_follow_the_declared_order() {
    let command = sample_command("fetch", vec![("--allow-net", "Network access"), ("--allow-read", "Read files")]);
    let flags = Executor::permission_flags(&command);
    let args = Executor::sandbox_args(&flags, "/tmp/ergo_script_7.ts", &vec!["a".to_string(), "b c".to_string()]);
    assert_eq!(
        args,
        vec!["run", "--allow-net", "--allow-read", "/tmp/ergo_script_7.ts", "a", "b c"]
    );
}

#[test]
fn sandbox_arguments_without_permissions() {
    let args = Executor::sandbox_args(&vec![], "s.ts", &vec![]);
    assert_eq!(args, vec!["run", "s.ts"]);
}

#[test]
fn temp_script_name_uses_the_process_id() {
    assert_eq!(Executor::temp_script_name(4021), "ergo_script_4021.ts");
    assert_eq!(Executor::temp_script_name(0), "ergo_script_0.ts");
}

#[test]
fn test_execute_generated_command_verbose_shows_description() {
    let executor = Executor::new(true);
    let command = sample_command("hello", vec![]);
    let output = executor.generated_banner(&command);
    assert!(output.contains("Executing generated command"));
    assert!(output.contains("Test command: hello"));
    assert!(!output.contains("Deno permissions required"));
}

#[test]
fn test_execute_generated_command_verbose_shows_permissions() {
    let executor = Executor::new(true);
    let command = sample_command("fetch", vec![("--allow-net", "Network access"), ("--allow-read", "Read files")]);
    let output = executor.generated_banner(&command);
    assert!(output.contains("Deno permissions required"));
    assert!(output.contains("--allow-net --allow-read"));
}

#[test]
fn test_execute_generated_command_non_verbose_no_extra_output() {
    let executor = Executor::new(false);
    let command = sample_command("hello", vec![("--allow-read", "Read files")]);
    assert_eq!(executor.generated_banner(&command), "");
}

#[test]
fn record_run_keeps_stderr_only_when_written() {
    let command = sample_command("broken", vec![]);
    let (context, result) = Executor::record_run(&command, "throw new Error('Oops');", false, "Error: Oops\n");
    assert_eq!(context.command_name, "broken");
    assert_eq!(context.script_content, "throw new Error('Oops');");
    assert_eq!(context.stderr, Some("Error: Oops\n".to_string()));
    assert!(!context.success);
    assert!(!result.success);
    assert_eq!(result.stderr, Some("Error: Oops\n".to_string()));

    let (context, result) = Executor::record_run(&command, "x", true, "");
    assert!(context.stderr.is_none());
    assert!(result.success);
    assert!(result.stderr.is_none());
}

#[test]
fn test_execute_generated_command_deno_not_installed() {
    assert!(ExecError::SandboxMissing.message().contains("Deno is not installed"));
}

#[test]
fn missing_script_is_a_failed_run() {
    let r = Executor::script_missing("Script file 'x.ts' not found");
    assert!(!r.success);
    assert_eq!(r.stderr, Some("Script file 'x.ts' not found".to_string()));
}
