//! The decisions of the intent router: how an intent is read, where a named
//! command is found, when consent is asked, and how a command is rebuilt
//! from feedback under its own name.
//!
//! The router does not spawn, prompt or call the generation service itself:
//! each step hands back what is to be done, and takes back what came of it.

use crate::command_cache::{
    needs_consent, stored, CacheEntryView, CacheError, CachePathResolver, CommandCache,
    PermissionConsent, PermissionDecision, PermissionDecisionView, StoreAction, StoreActionView,
    actions_view, decided, script_file_for,
};
use crate::execution_context::ExecutionContext;
use crate::executor::Executor;
use crate::llm_generator::{
    build_feedback_prompt, clone_permissions, feedback_request, renamed,
    unified_prompt, with_requested_name, GeneratedCommand, GenerationResult,
    GenerationResultView,
};
use crate::permission_ui::PermissionUI;
use crate::providers::TimeProvider;
use crate::text::{is_white_space, is_whitespace, texts_view};
use vstd::prelude::*;

verus! {

/// How an intent is read.
#[derive(Debug)]
pub enum Intent {
    /// A description in the user's own words.
    Conversational { description: String },
    /// A command name and its arguments.
    Named { name: String, args: Vec<String> },
}

pub ghost enum IntentView {
    Conversational { description: Seq<char> },
    Named { name: Seq<char>, args: Seq<Seq<char>> },
}

impl View for Intent {
    type V = IntentView;

    open spec fn view(&self) -> IntentView {
        match self {
            Intent::Conversational { description } => IntentView::Conversational {
                description: description@,
            },
            Intent::Named { name, args } => IntentView::Named {
                name: name@,
                args: texts_view(args@),
            },
        }
    }
}

pub open spec fn has_white_space(s: Seq<char>) -> bool {
    exists|i: int| 0 <= i < s.len() && is_white_space(s[i])
}

/// One token holding white space is a description; otherwise the first
/// token names the command and the others are its arguments.
pub open spec fn classify(tokens: Seq<Seq<char>>) -> IntentView {
    if tokens.len() == 1 && has_white_space(tokens[0]) {
        IntentView::Conversational { description: tokens[0] }
    } else {
        IntentView::Named { name: tokens[0], args: tokens.drop_first() }
    }
}

/// Where a named command is found.
#[derive(Debug)]
pub enum Route {
    /// An executable on the search path: run it directly.
    System,
    /// A cached command: ask for consent, then run it.
    Cached { command: GeneratedCommand },
    /// Nowhere: generate it.
    Generate,
}

/// What is decided about consent before a run.
#[derive(Debug)]
pub enum ConsentStep {
    /// The recorded decision stands; nobody is asked.
    Recorded { decision: PermissionDecision },
    /// The command needs no capability: it is accepted for good, unasked.
    Granted { consent: PermissionConsent },
    /// The user must be asked.
    Ask,
}

/// Whether the user is asked before `name` runs with this many
/// capabilities: only when consent is needed and some capability is.
pub open spec fn asks_user(m: Map<Seq<char>, CacheEntryView>, name: Seq<char>, permission_count: nat) -> bool {
    needs_consent(m, name) && permission_count > 0
}

/// What the corrective feedback path does.
#[derive(Debug)]
pub enum FeedbackPlan {
    /// No run has been recorded: show `notice` and stop, generating nothing.
    NoticeOnly { notice: String },
    /// Ask the generation service for a corrected `command_name` with
    /// `prompt`.
    Regenerate { command_name: String, prompt: String },
}

/// Shown when feedback is given before any generated command has run.
pub const NO_PREVIOUS_RUN: &'static str = "No previous command execution found. Run a command first, then use --nope.";

/// Whether a run goes ahead once a decision is made.
pub open spec fn runs(consent: PermissionConsent) -> bool {
    consent == PermissionConsent::AcceptOnce || consent == PermissionConsent::AcceptForever
}

/// Reads an intent. One token that holds white space is a description of
/// what is wanted; otherwise the first token names the command and the rest
/// are its arguments.
pub fn classify_intent(intent_args: &Vec<String>) -> (r: Intent)
    requires
        intent_args@.len() > 0,
    ensures
        r@ == classify(texts_view(intent_args@)),
{
    if intent_args.len() == 1 && holds_white_space(intent_args[0].as_str()) {
        return Intent::Conversational { description: intent_args[0].clone() };
    }
    let mut args: Vec<String> = Vec::new();
    let mut i: usize = 1;
    while i < intent_args.len()
        invariant
            1 <= i <= intent_args@.len(),
            texts_view(args@) == texts_view(intent_args@).subrange(1, i as int),
        decreases intent_args.len() - i,
    {
        let ghost before = args@;
        args.push(intent_args[i].clone());
        proof {
            assert(texts_view(args@) =~= texts_view(before).push(intent_args@[i as int]@));
            assert(texts_view(intent_args@).subrange(1, i + 1) =~= texts_view(intent_args@).subrange(
                1,
                i as int,
            ).push(intent_args@[i as int]@));
        }
        i = i + 1;
    }
    proof {
        assert(texts_view(intent_args@).subrange(1, intent_args@.len() as int) =~= texts_view(
            intent_args@,
        ).drop_first());
    }
    Intent::Named { name: intent_args[0].clone(), args }
}

/// Whether `s` holds a white-space character.
fn holds_white_space(s: &str) -> (r: bool)
    ensures
        r == has_white_space(s@),
{
    let n = s.unicode_len();
    let mut i: usize = 0;
    while i < n
        invariant
            n == s@.len(),
            i <= n,
            forall|j: int| 0 <= j < i ==> !is_white_space(s@[j]),
        decreases n - i,
    {
        if is_whitespace(s.get_char(i)) {
            return true;
        }
        i = i + 1;
    }
    false
}

/// Routes intents to the system, the cache or the generator, and keeps the
/// consent ledger.
pub struct CommandRouter<R: CachePathResolver, T: TimeProvider> {
    pub cache: CommandCache<R, T>,
    pub executor: Executor,
    pub permission_ui: PermissionUI<T>,
    pub verbose: bool,
}

impl<R: CachePathResolver, T: TimeProvider> CommandRouter<R, T> {
    pub fn new(cache: CommandCache<R, T>, permission_ui: PermissionUI<T>, verbose: bool) -> (r: Self)
        ensures
            r.cache == cache,
            r.permission_ui == permission_ui,
            r.verbose == verbose,
            r.executor.is_verbose() == verbose,
    {
        CommandRouter { cache, executor: Executor::new(verbose), permission_ui, verbose }
    }

    /// Where the command `name` is found: on the search path first
    /// (`on_search_path` says whether it is there), then in the cache, else
    /// nowhere. A name held by the write tier is found there.
    pub fn route_named(&self, name: &str, on_search_path: bool) -> (r: Result<Route, CacheError>)
        requires
            self.cache.wf(),
        ensures
            on_search_path ==> r matches Ok(Route::System),
            !on_search_path && self.cache@.contains_key(name@) ==> (r matches Ok(
                Route::Cached { command },
            ) && command@ == self.cache@[name@].command),
            r matches Ok(Route::System) ==> on_search_path,
    {
        if on_search_path {
            return Ok(Route::System);
        }
        match self.cache.get_command(name) {
            Ok(Some(command)) => Ok(Route::Cached { command }),
            Ok(None) => Ok(Route::Generate),
            Err(e) => Err(e),
        }
    }

    /// Files a freshly generated command under `name`, replacing any entry
    /// of that name and its consent decision.
    pub fn store_generated(&mut self, name: &str, result: &GenerationResult) -> (r: Vec<StoreAction>)
        requires
            old(self).cache.wf(),
        ensures
            final(self).cache.wf(),
            final(self).cache.write_dir() == old(self).cache.write_dir(),
            stored(
                old(self).cache@,
                final(self).cache@,
                old(self).cache.write_dir(),
                name@,
                result@.command,
                result@.script_content,
                actions_view(r@),
            ),
    {
        self.cache.store_command(name, &result.command, result.script_content.as_str())
    }

    /// The first consent step for `name`. A command without capabilities
    /// is accepted for good, unasked. Otherwise a recorded `AcceptForever`
    /// stands, and any other case is put to the user.
    pub fn consent_step(&self, name: &str, command: &GeneratedCommand) -> (r: ConsentStep)
        requires
            self.cache.wf(),
        ensures
            command@.permissions.len() == 0 ==> (r matches ConsentStep::Granted { consent }
                && consent == PermissionConsent::AcceptForever),
            command@.permissions.len() > 0 && !needs_consent(self.cache@, name@) ==> (r matches ConsentStep::Recorded {
                decision,
            } && self.cache@[name@].permission_decision == Some(decision@)),
            r is Ask <==> asks_user(self.cache@, name@, command@.permissions.len()),
    {
        if command.permissions.len() == 0 {
            return ConsentStep::Granted { consent: PermissionConsent::AcceptForever };
        }
        if !self.cache.needs_permission_consent(name) {
            if let Some(decision) = self.cache.get_permission_decision(name) {
                return ConsentStep::Recorded { decision: decision.clone() };
            }
        }
        ConsentStep::Ask
    }

    /// Records the user's answer for `name`, stamped now, replacing any
    /// earlier decision.
    pub fn record_consent(
        &mut self,
        name: &str,
        command: &GeneratedCommand,
        consent: PermissionConsent,
    ) -> (r: (PermissionDecision, Vec<StoreAction>))
        requires
            old(self).cache.wf(),
        ensures
            final(self).cache.wf(),
            final(self).cache.write_dir() == old(self).cache.write_dir(),
            r.0@.consent == consent,
            r.0@.permissions == command@.permissions,
            decided(
                old(self).cache@,
                final(self).cache@,
                old(self).cache.write_dir(),
                name@,
                r.0@,
                actions_view(r.1@),
            ),
    {
        let decision = self.permission_ui.create_permission_decision(
            clone_permissions(&command.permissions),
            consent,
        );
        let kept = decision.clone();
        let actions = self.cache.set_permission_decision(name, decision);
        (kept, actions)
    }

    /// Whether a decision lets the command run.
    pub fn may_run(decision: &PermissionDecision) -> (r: bool)
        ensures
            r == runs(decision.consent),
    {
        match decision.consent {
            PermissionConsent::AcceptOnce | PermissionConsent::AcceptForever => true,
            PermissionConsent::Denied => false,
        }
    }

    /// Counts a run of `name` in the write tier.
    pub fn count_run(&mut self, name: &str) -> (r: Vec<StoreAction>)
        requires
            old(self).cache.wf(),
        ensures
            final(self).cache.wf(),
            final(self).cache.write_dir() == old(self).cache.write_dir(),
            crate::command_cache::used(
                old(self).cache@,
                final(self).cache@,
                old(self).cache.write_dir(),
                name@,
                actions_view(r@),
            ),
    {
        self.cache.update_usage(name)
    }

    /// What the corrective feedback path does with the last recorded run:
    /// with none, it only shows a notice; otherwise it asks for the command
    /// to be rebuilt from its script, its error output and the feedback.
    pub fn plan_feedback(context: Option<&ExecutionContext>, feedback: &str) -> (r: FeedbackPlan)
        ensures
            context is None ==> (r matches FeedbackPlan::NoticeOnly { notice } && notice@
                == NO_PREVIOUS_RUN@),
            context matches Some(c) ==> (r matches FeedbackPlan::Regenerate { command_name, prompt }
                && command_name@ == c@.command_name && prompt@ == unified_prompt(
                feedback_request(c@.command_name, c@.script_content, c@.stderr, feedback@),
                None,
            )),
    {
        match context {
            None => FeedbackPlan::NoticeOnly { notice: String::from_str(NO_PREVIOUS_RUN) },
            Some(c) => {
                let stderr = match &c.stderr {
                    Some(e) => Some(e.as_str()),
                    None => None,
                };
                let prompt = build_feedback_prompt(
                    c.command_name.as_str(),
                    c.script_content.as_str(),
                    stderr,
                    feedback,
                );
                FeedbackPlan::Regenerate { command_name: c.command_name.clone(), prompt }
            },
        }
    }

    /// Files a rebuilt command under the name it had, whatever name the
    /// generator suggested. The earlier consent decision goes with the old
    /// entry: the user is asked again.
    pub fn store_regenerated(&mut self, command_name: &str, result: GenerationResult) -> (r: (
        GenerationResult,
        Vec<StoreAction>,
    ))
        requires
            old(self).cache.wf(),
        ensures
            final(self).cache.wf(),
            final(self).cache.write_dir() == old(self).cache.write_dir(),
            r.0@ == renamed(result@, command_name@),
            stored(
                old(self).cache@,
                final(self).cache@,
                old(self).cache.write_dir(),
                command_name@,
                r.0@.command,
                r.0@.script_content,
                actions_view(r.1@),
            ),
    {
        let result = with_requested_name(result, command_name);
        let actions = self.cache.store_command(
            command_name,
            &result.command,
            result.script_content.as_str(),
        );
        (result, actions)
    }
}

// ---------------------------------------------------------------------------
// Laws of the router.
// ---------------------------------------------------------------------------

/// A command without capabilities is never put to the user: it is
/// accepted for good unasked, and once that is recorded no consent is
/// needed for it any more.
pub proof fn lemma_no_capabilities_no_prompt(
    m0: Map<Seq<char>, CacheEntryView>,
    m1: Map<Seq<char>, CacheEntryView>,
    dir: Seq<char>,
    name: Seq<char>,
    d: PermissionDecisionView,
    a: Seq<StoreActionView>,
)
    requires
        m0.contains_key(name),
        decided(m0, m1, dir, name, d, a),
        d.consent == PermissionConsent::AcceptForever,
        d.permissions.len() == 0,
    ensures
        !asks_user(m0, name, 0),
        !needs_consent(m1, name),
        !asks_user(m1, name, 0),
        m1[name].permission_decision == Some(d),
        m1[name].permission_decision->Some_0.permissions.len() == 0,
{
}

/// The three readings of an intent: one token with white space is a
/// description; several tokens are a name and its arguments; a single plain
/// token is a name without arguments.
pub proof fn lemma_classification(tokens: Seq<Seq<char>>)
    requires
        tokens.len() > 0,
    ensures
        tokens.len() == 1 && has_white_space(tokens[0]) ==> classify(tokens)
            == (IntentView::Conversational { description: tokens[0] }),
        tokens.len() > 1 ==> classify(tokens) == (IntentView::Named {
            name: tokens[0],
            args: tokens.drop_first(),
        }),
        tokens.len() == 1 && !has_white_space(tokens[0]) ==> classify(tokens) == (IntentView::Named {
            name: tokens[0],
            args: Seq::empty(),
        }),
{
    if tokens.len() == 1 {
        assert(tokens.drop_first() =~= Seq::<Seq<char>>::empty());
    }
}

/// A rebuilt command is stored under the name it had, and carries that
/// name, whatever name the generator suggested; it has no consent decision.
pub proof fn lemma_regeneration_keeps_name(
    m0: Map<Seq<char>, CacheEntryView>,
    m1: Map<Seq<char>, CacheEntryView>,
    dir: Seq<char>,
    name: Seq<char>,
    generated: GenerationResultView,
    a: Seq<StoreActionView>,
)
    requires
        stored(
            m0,
            m1,
            dir,
            name,
            renamed(generated, name).command,
            renamed(generated, name).script_content,
            a,
        ),
    ensures
        m1.contains_key(name),
        m1[name].command.name == name,
        m1[name].command.script_file == script_file_for(name),
        m1[name].permission_decision is None,
        m1[name].command.description == generated.command.description,
        m1[name].command.permissions == generated.command.permissions,
{
}

} // verus!
