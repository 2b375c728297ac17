use abiogenesis::llm_generator::{
    build_feedback_prompt, build_unified_prompt, parse_generation_reply, request_body,
    with_requested_name, CommandGenerator, GeneratorError, MockGenerator, PROMPT_HEAD, PROMPT_TAIL,
};

#[test]
fn mock_hello_has_no_permissions() {
    let g = MockGenerator::new();
    let r = g.mock_generate_command("hello", &vec!["world".to_string()]);
    assert_eq!(r.command.name, "hello");
    assert_eq!(r.command.description, "Greet the user");
    assert_eq!(r.command.script_file, "hello.ts");
    assert!(r.command.permissions.is_empty());
    assert_eq!(
        r.script_content,
        "console.log(`Hello from ergo! Arguments: ${Deno.args.join(' ')}`);"
    );
}

#[test]
fn mock_git_command_names_the_action() {
    let g = MockGenerator::new();
    let r = g.mock_generate_command("git-status", &vec![]);
    assert_eq!(r.command.description, "Custom git command for status");
    assert_eq!(
        r.script_content,
        "const proc = new Deno.Command('git', { args: ['status', ...Deno.args] }); await proc.output();"
    );
    assert_eq!(r.command.permissions.len(), 1);
    assert_eq!(r.command.permissions[0].permission, "--allow-run=git");
}

#[test]
fn mock_project_info_needs_two_permissions() {
    let g = MockGenerator::new();
    let r = g.mock_generate_command("project-info", &vec![]);
    let flags: Vec<&str> = r.command.permissions.iter().map(|p| p.permission.as_str()).collect();
    assert_eq!(flags, vec!["--allow-read", "--allow-run=git"]);
    assert!(r.script_content.contains("Files: ${fileCount}"));
}

#[test]
fn mock_weather_and_uuid_and_timestamp() {
    let g = MockGenerator::new();
    let w = g.mock_generate_command("weather", &vec![]);
    assert_eq!(w.command.permissions[0].permission, "--allow-net=wttr.in");
    let u = g.mock_generate_command("uuid", &vec![]);
    assert_eq!(u.script_content, "console.log(crypto.randomUUID());");
    let t = g.mock_generate_command("timestamp", &vec![]);
    assert_eq!(t.command.description, "Show current timestamp");
}

#[test]
fn mock_unknown_command_falls_back() {
    let g = MockGenerator::new();
    let r = g.generate_command("nonexistent-test-command", &vec![]).unwrap();
    assert_eq!(r.command.description, "Generated command for nonexistent-test-command");
    assert_eq!(
        r.script_content,
        "console.log('This is a generated command: nonexistent-test-command');"
    );
}

#[test]
fn description_topics_pick_the_name() {
    let g = MockGenerator::new();
    let cases = [
        ("create a command that shows the current time", "show-time"),
        ("I need to format json properly", "format-json"),
        ("create a command to list files in directory", "list-files"),
        ("I need a command that generates uuid", "generate-id"),
        ("create a greeting command", "greet-user"),
        ("make a command that says hello world", "greet-user"),
    ];
    for (d, name) in cases {
        let r = g.mock_generate_from_description(d);
        assert_eq!(r.command.name, name, "{}", d);
        assert_eq!(r.command.script_file, format!("{}.ts", name));
    }
    let files = g.mock_generate_from_description("create a command to list files in directory");
    assert_eq!(files.command.permissions[0].permission, "--allow-read");
}

#[test]
fn description_fallback_uses_first_three_words_in_lower_case() {
    let g = MockGenerator::new();
    let r = g.mock_generate_from_description("Some Custom  Weird unique request that does not match patterns");
    assert_eq!(r.command.name, "some-custom-weird");
    assert_eq!(
        r.command.description,
        "Generated command from: Some Custom  Weird unique request that does not match patterns"
    );
    assert!(r.script_content.contains("Mock command"));
    let short = g.mock_generate_from_description("Do It");
    assert_eq!(short.command.name, "do-it");
}

#[test]
fn prompt_for_named_command_lists_arguments() {
    let p = build_unified_prompt("greet", Some(&vec!["a".to_string(), "b \"c\"".to_string()]));
    assert!(p.starts_with(PROMPT_HEAD));
    assert!(p.ends_with(PROMPT_TAIL));
    assert!(p.contains("Create a command named 'greet' that handles arguments [\"a\", \"b \\\"c\\\"\"]"));
}

#[test]
fn prompt_for_description_uses_its_words() {
    let p = build_unified_prompt("show me the date", None);
    assert!(p.contains("Based on this request: \"show me the date\""));
}

#[test]
fn feedback_prompt_carries_script_errors_and_feedback() {
    let p = build_feedback_prompt("password", "console.log('short');", Some("Error: too short"), "longer");
    assert!(p.contains("'password'"));
    assert!(p.contains("console.log('short');"));
    assert!(p.contains("Error: too short"));
    assert!(p.contains("The user asks for this change: longer"));
    let q = build_feedback_prompt("password", "x", None, "");
    assert!(q.contains("Fix the problems the error output shows."));
    assert!(!q.contains("error output:\n"));
}

#[test]
fn request_body_quotes_the_prompt() {
    let b = request_body("haiku-3", "say \"hi\"\n");
    assert_eq!(
        b,
        "{\"model\":\"haiku-3\",\"max_tokens\":1500,\"messages\":[{\"role\":\"user\",\"content\":\"say \\\"hi\\\"\\n\"}]}"
    );
}

#[test]
fn request_body_escapes_control_characters() {
    let b = request_body("m", "a\u{1}b\tc\\d/\u{e9}");
    assert!(b.contains("\"content\":\"a\\u0001b\\tc\\\\d/\u{e9}\"}]}"));
}

#[test]
fn reply_with_a_command_is_read() {
    let raw = r#"{"id":"m","content":[{"type":"text","text":"{\"name\":\"count-lines\",\"description\":\"Count lines\",\"script\":\"console.log(1);\",\"permissions\":[{\"permission\":\"--allow-read\",\"reason\":\"Read the file\"},{\"permission\":\"--allow-env\",\"reason\":\"Env\"}]}"}]}"#;
    let r = parse_generation_reply(raw).unwrap();
    assert_eq!(r.command.name, "count-lines");
    assert_eq!(r.command.description, "Count lines");
    assert_eq!(r.command.script_file, "count-lines.ts");
    assert_eq!(r.script_content, "console.log(1);");
    assert_eq!(r.command.permissions.len(), 2);
    assert_eq!(r.command.permissions[1].permission, "--allow-env");
    assert_eq!(r.command.permissions[0].reason, "Read the file");
}

#[test]
fn reply_without_a_command_is_a_schema_error_with_the_raw_text() {
    let raw = r#"{"content":[{"type":"text","text":"Sure! Here is your command."}]}"#;
    match parse_generation_reply(raw) {
        Err(GeneratorError::Schema { raw: t }) => assert_eq!(t, raw),
        other => panic!("unexpected: {:?}", other),
    }
    assert!(matches!(parse_generation_reply("not json"), Err(GeneratorError::Schema { .. })));
    let bad_perm = r#"{"content":[{"text":"{\"name\":\"a\",\"description\":\"b\",\"script\":\"c\",\"permissions\":[{\"permission\":\"--allow-read\"}]}"}]}"#;
    assert!(matches!(parse_generation_reply(bad_perm), Err(GeneratorError::Schema { .. })));
}

#[test]
fn requested_name_overrides_the_suggestion() {
    let g = MockGenerator::new();
    let r = g.mock_generate_from_description("create a greeting command");
    let r = with_requested_name(r, "hi");
    assert_eq!(r.command.name, "hi");
    assert_eq!(r.command.script_file, "hi.ts");
    assert_eq!(r.command.description, "Greet the user");
}
