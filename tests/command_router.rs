use abiogenesis::command_cache::{CacheError, CachePathResolver, CommandCache, PermissionConsent};
use abiogenesis::command_router::{
    classify_intent, CommandRouter, ConsentStep, FeedbackPlan, Intent, Route, NO_PREVIOUS_RUN,
};
use abiogenesis::execution_context::ExecutionContext;
use abiogenesis::llm_generator::{GeneratedCommand, MockGenerator, PermissionRequest};
use abiogenesis::permission_ui::PermissionUI;
use abiogenesis::providers::TimeProvider;

struct NoTiers;

impl CachePathResolver for NoTiers {
    fn get_write_dir(&self) -> Result<String, CacheError> {
        Ok("/w".to_string())
    }
    fn find_command(&self, _name: &str) -> Result<Option<GeneratedCommand>, CacheError> {
        Ok(None)
    }
    fn find_script(&self, _script_file: &str) -> Result<Option<String>, CacheError> {
        Ok(None)
    }
}

struct Clock;

impl TimeProvider for Clock {
    fn now(&self) -> u64 {
        77
    }
}

fn router() -> CommandRouter<NoTiers, Clock> {
    let cache = CommandCache::with_providers(Box::new(NoTiers), Box::new(Clock), "/w".to_string(), None);
    CommandRouter::new(cache, PermissionUI::with_time_provider(false, Box::new(Clock)), false)
}

fn strings(v: &[&str]) -> Vec<String> {
    v.iter().map(|s| s.to_string()).collect()
}

#[test]
fn one_token_with_space_is_conversational() {
    match classify_intent(&strings(&["run a report"])) {
        Intent::Conversational { description } => assert_eq!(description, "run a report"),
        other => panic!("unexpected: {:?}", other),
    }
}

#[test]
fn several_tokens_are_a_name_and_arguments() {
    match classify_intent(&strings(&["run", "a", "report"])) {
        Intent::Named { name, args } => {
            assert_eq!(name, "run");
            assert_eq!(args, strings(&["a", "report"]));
        }
        other => panic!("unexpected: {:?}", other),
    }
}

#[test]
fn one_plain_token_is_a_name_without_arguments() {
    match classify_intent(&strings(&["run"])) {
        Intent::Named { name, args } => {
            assert_eq!(name, "run");
            assert!(args.is_empty());
        }
        other => panic!("unexpected: {:?}", other),
    }
}

#[test]
fn test_conversational_vs_regular_mode() {
    assert!(matches!(classify_intent(&strings(&["singleword"])), Intent::Named { .. }));
    assert!(matches!(
        classify_intent(&strings(&["this is a conversational request"])),
        Intent::Conversational { .. }
    ));
    assert!(matches!(classify_intent(&strings(&["tab\tseparated"])), Intent::Conversational { .. }));
}

#[test]
fn routes_go_system_then_cache_then_generate() {
    let mut r = router();
    assert!(matches!(r.route_named("hello", true), Ok(Route::System)));
    assert!(matches!(r.route_named("hello", false), Ok(Route::Generate)));
    let g = MockGenerator::new().mock_generate_command("hello", &vec![]);
    r.store_generated("hello", &g);
    match r.route_named("hello", false) {
        Ok(Route::Cached { command }) => assert_eq!(command.description, "Greet the user"),
        other => panic!("unexpected: {:?}", other),
    }
}

#[test]
fn command_without_capabilities_is_never_prompted() {
    let mut r = router();
    let g = MockGenerator::new().mock_generate_command("hello", &vec![]);
    r.store_generated("hello", &g);
    let consent = match r.consent_step("hello", &g.command) {
        ConsentStep::Granted { consent } => consent,
        other => panic!("unexpected: {:?}", other),
    };
    assert_eq!(consent, PermissionConsent::AcceptForever);
    let (decision, actions) = r.record_consent("hello", &g.command, consent);
    assert_eq!(decision.decided_at, 77);
    assert_eq!(actions.len(), 1);
    assert!(!r.cache.needs_permission_consent("hello"));
    let recorded = r.cache.get_permission_decision("hello").unwrap();
    assert_eq!(recorded.consent, PermissionConsent::AcceptForever);
    assert!(recorded.permissions.is_empty());
    assert!(matches!(
        r.consent_step("hello", &g.command),
        ConsentStep::Granted { consent: PermissionConsent::AcceptForever }
    ));
}

#[test]
fn command_with_capabilities_is_asked_until_accepted_forever() {
    let mut r = router();
    let g = MockGenerator::new().mock_generate_command("weather", &vec![]);
    r.store_generated("weather", &g);
    assert!(matches!(r.consent_step("weather", &g.command), ConsentStep::Ask));
    let (d, _) = r.record_consent("weather", &g.command, PermissionConsent::AcceptOnce);
    assert!(CommandRouter::<NoTiers, Clock>::may_run(&d));
    assert!(matches!(r.consent_step("weather", &g.command), ConsentStep::Ask));
    let (d, _) = r.record_consent("weather", &g.command, PermissionConsent::Denied);
    assert!(!CommandRouter::<NoTiers, Clock>::may_run(&d));
    assert!(matches!(r.consent_step("weather", &g.command), ConsentStep::Ask));
    r.record_consent("weather", &g.command, PermissionConsent::AcceptForever);
    assert!(matches!(r.consent_step("weather", &g.command), ConsentStep::Recorded { .. }));
}

#[test]
fn two_runs_count_twice() {
    let mut r = router();
    let g = MockGenerator::new().mock_generate_command("hello", &vec![]);
    r.store_generated("hello", &g);
    r.count_run("hello");
    assert_eq!(r.cache.entries()[0].1.usage_count, 1);
    r.count_run("hello");
    assert_eq!(r.cache.entries()[0].1.usage_count, 2);
}

#[test]
fn feedback_without_previous_run_only_notifies() {
    match CommandRouter::<NoTiers, Clock>::plan_feedback(None, "make it better") {
        FeedbackPlan::NoticeOnly { notice } => assert_eq!(notice, NO_PREVIOUS_RUN),
        other => panic!("unexpected: {:?}", other),
    }
}

#[test]
fn feedback_with_previous_run_regenerates_that_command() {
    let ctx = ExecutionContext::new("password", "console.log('short');", Some("Error: too short".to_string()), false);
    match CommandRouter::<NoTiers, Clock>::plan_feedback(Some(&ctx), "") {
        FeedbackPlan::Regenerate { command_name, prompt } => {
            assert_eq!(command_name, "password");
            assert!(prompt.contains("Error: too short"));
        }
        other => panic!("unexpected: {:?}", other),
    }
}

#[test]
fn regeneration_keeps_the_command_name_and_asks_again() {
    let mut r = router();
    let mut old = MockGenerator::new().mock_generate_command("foo", &vec![]);
    old.command.permissions.push(PermissionRequest {
        permission: "--allow-read".to_string(),
        reason: "r".to_string(),
    });
    r.store_generated("foo", &old);
    r.record_consent("foo", &old.command, PermissionConsent::AcceptForever);
    assert!(!r.cache.needs_permission_consent("foo"));

    let suggested = MockGenerator::new().mock_generate_from_description("create a greeting command");
    assert_eq!(suggested.command.name, "greet-user");
    let (kept, actions) = r.store_regenerated("foo", suggested);
    assert_eq!(kept.command.name, "foo");
    assert_eq!(actions.len(), 2);
    let got = r.cache.get_command("foo").unwrap().unwrap();
    assert_eq!(got.name, "foo");
    assert_eq!(got.script_file, "foo.ts");
    assert_eq!(got.description, "Greet the user");
    assert!(r.cache.get_command("greet-user").unwrap().is_none());
    assert!(r.cache.needs_permission_consent("foo"));
}
