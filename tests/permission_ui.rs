use abiogenesis::command_cache::PermissionConsent;
use abiogenesis::llm_generator::PermissionRequest;
use abiogenesis::permission_ui::{consent_reply, parse_choice, PermissionUI, UiError, INVALID};
use abiogenesis::providers::TimeProvider;

struct MockTime;

impl TimeProvider for MockTime {
    fn now(&self) -> u64 {
        42
    }
}

fn test_permission(name: &str, reason: &str) -> PermissionRequest {
    PermissionRequest {
        permission: name.to_string(),
        reason: reason.to_string(),
    }
}

#[test]
fn test_new_creates_instance_with_verbose_true() {
    let ui = PermissionUI::new(true);
    assert!(ui.verbose);
}

#[test]
fn test_new_creates_instance_with_verbose_false() {
    let ui = PermissionUI::new(false);
    assert!(!ui.verbose);
}

#[test]
fn test_prompt_auto_accepts_when_no_permissions() {
    let ui = PermissionUI::new(false);
    let permissions: Vec<PermissionRequest> = vec![];

    let input = "";
    let mut output = String::new();

    let result = ui
        .prompt_for_consent_with_io("test-cmd", "Test command", &permissions, input, &mut output)
        .unwrap();

    assert!(matches!(result, PermissionConsent::AcceptForever));
    assert!(output.is_empty());
}

#[test]
fn test_prompt_returns_accept_once_for_input_1() {
    let ui = PermissionUI::new(false);
    let permissions = vec![test_permission("--allow-read", "Read files")];

    let input = "1\n";
    let mut output = String::new();

    let result = ui
        .prompt_for_consent_with_io("test-cmd", "Test command", &permissions, input, &mut output)
        .unwrap();

    assert!(matches!(result, PermissionConsent::AcceptOnce));
}

#[test]
fn test_prompt_returns_accept_forever_for_input_2() {
    let ui = PermissionUI::new(false);
    let permissions = vec![test_permission("--allow-net", "Network access")];

    let input = "2\n";
    let mut output = String::new();

    let result = ui
        .prompt_for_consent_with_io("test-cmd", "Test command", &permissions, input, &mut output)
        .unwrap();

    assert!(matches!(result, PermissionConsent::AcceptForever));
}

#[test]
fn test_prompt_returns_denied_for_input_3() {
    let ui = PermissionUI::new(false);
    let permissions = vec![test_permission("--allow-write", "Write files")];

    let input = "3\n";
    let mut output = String::new();

    let result = ui
        .prompt_for_consent_with_io("test-cmd", "Test command", &permissions, input, &mut output)
        .unwrap();

    assert!(matches!(result, PermissionConsent::Denied));
}

#[test]
fn test_prompt_retries_on_invalid_input() {
    let ui = PermissionUI::new(false);
    let permissions = vec![test_permission("--allow-read", "Read files")];

    let input = "invalid\n2\n";
    let mut output = String::new();

    let result = ui
        .prompt_for_consent_with_io("test-cmd", "Test command", &permissions, input, &mut output)
        .unwrap();

    assert!(matches!(result, PermissionConsent::AcceptForever));
    assert!(output.contains("Invalid choice"));
}

#[test]
fn test_prompt_displays_permission_info() {
    let ui = PermissionUI::new(false);
    let permissions = vec![
        test_permission("--allow-read", "Read config files"),
        test_permission("--allow-net", "Call external API"),
    ];

    let input = "1\n";
    let mut output = String::new();

    ui.prompt_for_consent_with_io("my-command", "Does important stuff", &permissions, input, &mut output)
        .unwrap();

    assert!(output.contains("my-command"));
    assert!(output.contains("Does important stuff"));
    assert!(output.contains("--allow-read"));
    assert!(output.contains("Read config files"));
    assert!(output.contains("--allow-net"));
    assert!(output.contains("Call external API"));
    assert!(output.contains("Accept Once"));
    assert!(output.contains("Accept Forever"));
    assert!(output.contains("Deny"));
}

#[test]
fn test_prompt_trims_whitespace_from_input() {
    let ui = PermissionUI::new(false);
    let permissions = vec![test_permission("--allow-read", "Read files")];

    let input = "  2  \n";
    let mut output = String::new();

    let result = ui
        .prompt_for_consent_with_io("test-cmd", "Test", &permissions, input, &mut output)
        .unwrap();

    assert!(matches!(result, PermissionConsent::AcceptForever));
}

#[test]
fn test_create_permission_decision_with_timestamp() {
    let ui = PermissionUI::new(false);
    let permissions = vec![test_permission("--allow-read", "Read files")];
    let timestamp = 1234567890u64;

    let decision = ui.create_permission_decision_with_timestamp(
        permissions.clone(),
        PermissionConsent::AcceptOnce,
        timestamp,
    );

    assert_eq!(decision.decided_at, timestamp);
    assert!(matches!(decision.consent, PermissionConsent::AcceptOnce));
    assert_eq!(decision.permissions.len(), 1);
    assert_eq!(decision.permissions[0].permission, "--allow-read");
}

#[test]
fn test_create_permission_decision_uses_injected_time_provider() {
    let ui = PermissionUI::with_time_provider(false, Box::new(MockTime));
    let permissions = vec![];

    let decision = ui.create_permission_decision(permissions, PermissionConsent::AcceptOnce);

    assert_eq!(decision.decided_at, 42);
}

#[test]
fn test_show_permission_denied_displays_command_name() {
    let ui = PermissionUI::new(false);
    let mut output = String::new();

    ui.show_permission_denied_with_io("dangerous-cmd", &mut output).unwrap();

    assert!(output.contains("dangerous-cmd"));
    assert!(output.contains("denied"));
}

#[test]
fn test_show_running_verbose_with_permissions() {
    let ui = PermissionUI::new(true);
    let permissions = vec![test_permission("--allow-read", "Read files")];
    let mut output = String::new();

    ui.show_running_with_permissions_with_io("my-cmd", &permissions, &mut output).unwrap();

    assert!(output.contains("my-cmd"));
    assert!(output.contains("--allow-read"));
}

#[test]
fn test_show_running_verbose_no_permissions() {
    let ui = PermissionUI::new(true);
    let permissions: Vec<PermissionRequest> = vec![];
    let mut output = String::new();

    ui.show_running_with_permissions_with_io("my-cmd", &permissions, &mut output).unwrap();

    assert!(output.contains("my-cmd"));
    assert!(output.contains("no special permissions"));
}

#[test]
fn test_show_running_non_verbose_with_permissions() {
    let ui = PermissionUI::new(false);
    let permissions = vec![test_permission("--allow-net", "Network")];
    let mut output = String::new();

    ui.show_running_with_permissions_with_io("my-cmd", &permissions, &mut output).unwrap();

    assert!(output.contains("my-cmd"));
    assert!(output.contains("--allow-net"));
}

#[test]
fn test_show_running_non_verbose_no_permissions_is_silent() {
    let ui = PermissionUI::new(false);
    let permissions: Vec<PermissionRequest> = vec![];
    let mut output = String::new();

    ui.show_running_with_permissions_with_io("my-cmd", &permissions, &mut output).unwrap();

    assert!(output.is_empty());
}

#[test]
fn prompt_fails_when_input_ends_without_a_choice() {
    let ui = PermissionUI::new(false);
    let permissions = vec![test_permission("--allow-read", "Read files")];
    let mut output = String::new();

    let result = ui.prompt_for_consent_with_io("test-cmd", "Test", &permissions, "maybe\n", &mut output);

    assert!(matches!(result, Err(UiError::InputClosed)));
    assert_eq!(output.matches("Invalid choice").count(), 1);
    assert_eq!(output.matches("Choose an option (1/2/3): ").count(), 2);
}

#[test]
fn prompt_accepts_last_line_without_line_break() {
    let ui = PermissionUI::new(false);
    let permissions = vec![test_permission("--allow-read", "Read files")];
    let mut output = String::new();

    let result = ui
        .prompt_for_consent_with_io("test-cmd", "Test", &permissions, "x\n\n3", &mut output)
        .unwrap();

    assert!(matches!(result, PermissionConsent::Denied));
    assert_eq!(output.matches("Invalid choice").count(), 2);
}

#[test]
fn prompt_numbers_the_permissions() {
    let ui = PermissionUI::new(false);
    let permissions = vec![
        test_permission("--allow-read", "Read config files"),
        test_permission("--allow-net", "Call external API"),
    ];
    let mut output = String::new();

    ui.prompt_for_consent_with_io("c", "d", &permissions, "1\n", &mut output).unwrap();

    assert!(output.contains("   1. \u{1f6e1}\u{fe0f} --allow-read\n      \u{1f4a1} Why: Read config files\n"));
    assert!(output.contains("   2. \u{1f6e1}\u{fe0f} --allow-net\n"));
    assert!(output.starts_with(&format!("\n{}\n", "=".repeat(60))));
}

#[test]
fn parse_choice_reads_trimmed_digits_only() {
    assert!(matches!(parse_choice("1\n"), Some(PermissionConsent::AcceptOnce)));
    assert!(matches!(parse_choice("\t2 \r\n"), Some(PermissionConsent::AcceptForever)));
    assert!(matches!(parse_choice("3"), Some(PermissionConsent::Denied)));
    assert!(parse_choice("4\n").is_none());
    assert!(parse_choice("1 2\n").is_none());
    assert!(parse_choice("\n").is_none());
}

#[test]
fn consent_reply_answers_invalid_lines() {
    let (answer, reply) = consent_reply(" 1 \n");
    assert!(matches!(answer, Some(PermissionConsent::AcceptOnce)));
    assert!(reply.is_empty());
    let (answer, reply) = consent_reply("yes\n");
    assert!(answer.is_none());
    assert_eq!(reply, INVALID);
}
