//! The consent dialog: what is shown, how the answer is read, and the
//! decision that is recorded.

use crate::command_cache::{PermissionConsent, PermissionDecision, PermissionDecisionView};
use crate::llm_generator::{permissions_view, PermissionRequest, PermissionRequestView};
use crate::providers::{SystemTimeProvider, TimeProvider};
use crate::text::{concat3, decimal, decimal_of, trim, trimmed};
use vstd::prelude::*;

verus! {

/// Opens the consent dialog, up to the command's name.
pub const HEADER: &'static str = "\n============================================================\n🔐 PERMISSION REQUEST\n============================================================\n\n📋 Command: ";

/// Between the command's name and its description.
pub const DESCRIPTION_LINE: &'static str = "\n📝 Description: ";

/// Says that no capability is needed.
pub const NO_PERMISSIONS: &'static str = "✅ This command requires no special permissions.\n";

/// Opens the list of capabilities.
pub const HAS_PERMISSIONS: &'static str = "🔑 This command requires the following permissions:\n\n";

/// Between a capability's number and its flag.
pub const ITEM_MARK: &'static str = ". 🛡️ ";

/// Between a capability's flag and its reason.
pub const WHY_LINE: &'static str = "\n      💡 Why: ";

/// The three choices, closing the dialog.
pub const OPTIONS: &'static str = "------------------------------------------------------------\nWhat would you like to do?\n\n  1️⃣  Accept Once    - Run this time only, ask again next time\n  2️⃣  Accept Forever - Always run with these permissions\n  3️⃣  Deny          - Don't run this command\n\n============================================================\n";

/// Asks for a choice.
pub const CHOOSE: &'static str = "\nChoose an option (1/2/3): ";

/// Answers a line that is not a choice.
pub const INVALID: &'static str = "Invalid choice. Please enter 1, 2, or 3.\n";

/// Opens the notice of a refused run, up to the command's name.
pub const DENIED_HEAD: &'static str = "\n❌ Permission denied for command '";

/// Closes the notice of a refused run.
pub const DENIED_TAIL: &'static str = "'\n   The command will not be executed.\n";

/// Opens the notice of a run, up to the command's name.
pub const RUN_HEAD: &'static str = "▶️  Running '";

/// Closes the notice of a run that needs no capability.
pub const RUN_NO_PERMISSIONS: &'static str = "' (no special permissions needed)\n";

/// Closes the first line of a verbose run's notice.
pub const RUN_APPROVED: &'static str = "' with approved permissions:\n";

/// Closes the first line of a run's notice.
pub const RUN_WITH: &'static str = "' with permissions:\n";

/// Opens the line of one granted capability.
pub const FLAG_LINE: &'static str = "   🛡️  ";

/// Why no answer could be read.
#[derive(Debug)]
pub enum UiError {
    /// The input ended before a valid choice was read.
    InputClosed,
}

/// The numbered list of capabilities, each with its reason.
pub open spec fn permission_items(ps: Seq<PermissionRequestView>) -> Seq<char>
    decreases ps.len(),
{
    if ps.len() == 0 {
        Seq::empty()
    } else {
        permission_items(ps.drop_last()) + "   "@ + decimal_of(ps.len()) + ITEM_MARK@
            + ps.last().permission + WHY_LINE@ + ps.last().reason + "\n\n"@
    }
}

/// The consent dialog for a command.
pub open spec fn request_text(name: Seq<char>, description: Seq<char>, ps: Seq<PermissionRequestView>) -> Seq<
    char,
> {
    HEADER@ + name + DESCRIPTION_LINE@ + description + "\n\n"@ + if ps.len() == 0 {
        NO_PERMISSIONS@
    } else {
        HAS_PERMISSIONS@ + permission_items(ps)
    } + OPTIONS@
}

/// One line per capability flag.
pub open spec fn flag_lines(ps: Seq<PermissionRequestView>) -> Seq<char>
    decreases ps.len(),
{
    if ps.len() == 0 {
        Seq::empty()
    } else {
        flag_lines(ps.drop_last()) + FLAG_LINE@ + ps.last().permission + "\n"@
    }
}

/// The notice shown when a command runs: always when verbose, otherwise
/// only when it was granted capabilities.
pub open spec fn running_text(verbose: bool, name: Seq<char>, ps: Seq<PermissionRequestView>) -> Seq<char> {
    if verbose {
        if ps.len() == 0 {
            RUN_HEAD@ + name + RUN_NO_PERMISSIONS@
        } else {
            RUN_HEAD@ + name + RUN_APPROVED@ + flag_lines(ps)
        }
    } else if ps.len() > 0 {
        RUN_HEAD@ + name + RUN_WITH@ + flag_lines(ps)
    } else {
        Seq::empty()
    }
}

/// The notice shown when the user refused a run.
pub open spec fn denied_text(name: Seq<char>) -> Seq<char> {
    DENIED_HEAD@ + name + DENIED_TAIL@
}

/// The length of the first line of `s`, its line break included.
pub open spec fn first_line_len(s: Seq<char>) -> nat
    decreases s.len(),
{
    if s.len() == 0 {
        0
    } else if s[0] == '\n' {
        1
    } else {
        1 + first_line_len(s.drop_first())
    }
}

/// The answer a line stands for, once trimmed: `1`, `2` or `3`.
pub open spec fn choice_of(t: Seq<char>) -> Option<PermissionConsent> {
    if t == "1"@ {
        Some(PermissionConsent::AcceptOnce)
    } else if t == "2"@ {
        Some(PermissionConsent::AcceptForever)
    } else if t == "3"@ {
        Some(PermissionConsent::Denied)
    } else {
        None
    }
}

/// Reading answers from `input`: the choice made, if the input holds one
/// before it ends, and the text written meanwhile. Each attempt asks; each
/// line that is not a choice is answered and the next one read.
pub open spec fn consent_session(input: Seq<char>) -> (Option<PermissionConsent>, Seq<char>)
    decreases input.len(),
{
    if input.len() == 0 {
        (None, CHOOSE@)
    } else {
        let n = if 1 <= first_line_len(input) <= input.len() {
            first_line_len(input)
        } else {
            input.len()
        };
        let line = input.subrange(0, n as int);
        match choice_of(trimmed(line)) {
            Some(c) => (Some(c), CHOOSE@),
            None => {
                let rest = consent_session(input.subrange(n as int, input.len() as int));
                (rest.0, CHOOSE@ + INVALID@ + rest.1)
            },
        }
    }
}

proof fn lemma_first_line_bounds(s: Seq<char>)
    requires
        s.len() > 0,
    ensures
        1 <= first_line_len(s) <= s.len(),
    decreases s.len(),
{
    if s[0] != '\n' {
        if s.len() > 1 {
            lemma_first_line_bounds(s.drop_first());
        } else {
            assert(s.drop_first().len() == 0);
            assert(first_line_len(s.drop_first()) == 0);
        }
    }
}

proof fn lemma_first_line_ends_at(s: Seq<char>, k: int)
    requires
        0 <= k < s.len(),
        s[k] == '\n',
        forall|m: int| 0 <= m < k ==> s[m] != '\n',
    ensures
        first_line_len(s) == k + 1,
    decreases k,
{
    if k > 0 {
        lemma_first_line_ends_at(s.drop_first(), k - 1);
    }
}

proof fn lemma_first_line_whole(s: Seq<char>)
    requires
        forall|m: int| 0 <= m < s.len() ==> s[m] != '\n',
    ensures
        first_line_len(s) == s.len(),
    decreases s.len(),
{
    if s.len() > 0 {
        lemma_first_line_whole(s.drop_first());
    }
}

/// Reads the answer a trimmed line stands for.
pub fn parse_choice(line: &str) -> (r: Option<PermissionConsent>)
    ensures
        r == choice_of(trimmed(line@)),
{
    let t = trim(line);
    let s = t.as_str();
    if crate::text::text_eq(s, "1") {
        Some(PermissionConsent::AcceptOnce)
    } else if crate::text::text_eq(s, "2") {
        Some(PermissionConsent::AcceptForever)
    } else if crate::text::text_eq(s, "3") {
        Some(PermissionConsent::Denied)
    } else {
        None
    }
}

/// One step of the consent dialog: the answer a line of input gives, if
/// any, and what is written back to the user before the question is asked
/// again.
pub fn consent_reply(line: &str) -> (r: (Option<PermissionConsent>, String))
    ensures
        r.0 == choice_of(trimmed(line@)),
        r.0 is Some ==> r.1@.len() == 0,
        r.0 is None ==> r.1@ == INVALID@,
{
    match parse_choice(line) {
        Some(c) => (Some(c), String::new()),
        None => (None, String::from_str(INVALID)),
    }
}

/// Asks for and records consent, and tells the user what runs.
pub struct PermissionUI<T: TimeProvider> {
    pub verbose: bool,
    time_provider: Box<T>,
}

impl PermissionUI<SystemTimeProvider> {
    /// A dialog stamped by the system clock.
    pub fn new(verbose: bool) -> (r: Self)
        ensures
            r.is_verbose() == verbose,
    {
        PermissionUI::with_time_provider(verbose, Box::new(SystemTimeProvider))
    }
}

impl<T: TimeProvider> PermissionUI<T> {
    /// Whether the dialog reports every run.
    pub closed spec fn is_verbose(&self) -> bool {
        self.verbose
    }

    /// A dialog stamped by `time_provider`.
    pub fn with_time_provider(verbose: bool, time_provider: Box<T>) -> (r: Self)
        ensures
            r.is_verbose() == verbose,
    {
        PermissionUI { verbose, time_provider }
    }

    /// Asks for consent to run `command_name` with `permissions`, reading
    /// answers line by line from `input` and writing the dialog to `output`.
    ///
    /// A command that needs no capability is accepted for good without a
    /// word. Otherwise the dialog is shown and lines are read until one is
    /// `1`, `2` or `3` (white space around it aside); any other line is
    /// answered and the question asked again. `InputClosed` when the input
    /// ends first.
    pub fn prompt_for_consent_with_io(
        &self,
        command_name: &str,
        command_description: &str,
        permissions: &[PermissionRequest],
        input: &str,
        output: &mut String,
    ) -> (r: Result<PermissionConsent, UiError>)
        ensures
            permissions@.len() == 0 ==> r == Ok::<PermissionConsent, UiError>(
                PermissionConsent::AcceptForever,
            ) && final(output)@ == old(output)@,
            permissions@.len() > 0 ==> {
                &&& final(output)@ == old(output)@ + request_text(
                    command_name@,
                    command_description@,
                    permissions_view(permissions@),
                ) + consent_session(input@).1
                &&& consent_session(input@).0 matches Some(c) ==> r == Ok::<
                    PermissionConsent,
                    UiError,
                >(c)
                &&& consent_session(input@).0 is None ==> (r matches Err(e) && e is InputClosed)
            },
    {
        if permissions.len() == 0 {
            return Ok(PermissionConsent::AcceptForever);
        }
        self.display_permission_request_with_io(command_name, command_description, permissions, output);
        let ghost start = output@;
        let n = input.unicode_len();
        let mut i: usize = 0;
        proof {
            assert(input@.subrange(0, n as int) =~= input@);
            assert(start + Seq::<char>::empty() =~= start);
        }
        let ghost mut written: Seq<char> = Seq::empty();
        loop
            invariant
                n == input@.len(),
                i <= n,
                permissions@.len() > 0,
                start == old(output)@ + request_text(
                    command_name@,
                    command_description@,
                    permissions_view(permissions@),
                ),
                output@ == start + written,
                consent_session(input@).0 == consent_session(input@.subrange(i as int, n as int)).0,
                consent_session(input@).1 == written + consent_session(
                    input@.subrange(i as int, n as int),
                ).1,
            decreases n - i,
        {
            let ghost rest = input@.subrange(i as int, n as int);
            output.append(CHOOSE);
            proof {
                assert(output@ =~= start + (written + CHOOSE@));
            }
            if i == n {
                proof {
                    assert(rest.len() == 0);
                }
                return Err(UiError::InputClosed);
            }
            let mut j: usize = i;
            while j < n && input.get_char(j) != '\n'
                invariant
                    n == input@.len(),
                    i <= j <= n,
                    forall|m: int| i <= m < j ==> input@[m] != '\n',
                decreases n - j,
            {
                j = j + 1;
            }
            proof {
                lemma_first_line_bounds(rest);
                if j < n {
                    lemma_first_line_ends_at(rest, j - i);
                } else {
                    lemma_first_line_whole(rest);
                }
            }
            let end: usize = if j < n {
                j + 1
            } else {
                n
            };
            let line = input.substring_char(i, end);
            proof {
                assert(line@ =~= rest.subrange(0, first_line_len(rest) as int));
                assert(input@.subrange(end as int, n as int) =~= rest.subrange(
                    first_line_len(rest) as int,
                    rest.len() as int,
                ));
            }
            match parse_choice(line) {
                Some(c) => {
                    proof {
                        assert(consent_session(rest).1 == CHOOSE@);
                    }
                    return Ok(c);
                },
                None => {
                    output.append(INVALID);
                    proof {
                        written = written + CHOOSE@ + INVALID@;
                        assert(output@ =~= start + written);
                        let later = consent_session(input@.subrange(end as int, n as int));
                        assert(consent_session(rest).1 == CHOOSE@ + INVALID@ + later.1);
                        assert(written + later.1 =~= (written.subrange(
                            0,
                            written.len() - CHOOSE@.len() - INVALID@.len(),
                        )) + (CHOOSE@ + INVALID@ + later.1));
                    }
                    i = end;
                },
            }
        }
    }

    /// Writes the consent dialog for a command to `output`.
    pub fn display_permission_request_with_io(
        &self,
        command_name: &str,
        command_description: &str,
        permissions: &[PermissionRequest],
        output: &mut String,
    )
        ensures
            final(output)@ == old(output)@ + request_text(
                command_name@,
                command_description@,
                permissions_view(permissions@),
            ),
    {
        let mut t = concat3(HEADER, command_name, DESCRIPTION_LINE);
        t.append(command_description);
        t.append("\n\n");
        if permissions.len() == 0 {
            t.append(NO_PERMISSIONS);
        } else {
            t.append(HAS_PERMISSIONS);
            let items = permission_items_text(permissions);
            t.append(items.as_str());
        }
        t.append(OPTIONS);
        output.append(t.as_str());
    }

    /// Writes the notice that a refused command will not run.
    pub fn show_permission_denied_with_io(&self, command_name: &str, output: &mut String) -> (r:
        Result<(), UiError>)
        ensures
            r is Ok,
            final(output)@ == old(output)@ + denied_text(command_name@),
    {
        let t = concat3(DENIED_HEAD, command_name, DENIED_TAIL);
        output.append(t.as_str());
        Ok(())
    }

    /// Writes the notice that a command runs, with the capabilities it was
    /// granted: always when verbose, otherwise only when there are any.
    pub fn show_running_with_permissions_with_io(
        &self,
        command_name: &str,
        permissions: &[PermissionRequest],
        output: &mut String,
    ) -> (r: Result<(), UiError>)
        ensures
            r is Ok,
            final(output)@ == old(output)@ + running_text(
                self.is_verbose(),
                command_name@,
                permissions_view(permissions@),
            ),
    {
        if self.verbose {
            if permissions.len() == 0 {
                let t = concat3(RUN_HEAD, command_name, RUN_NO_PERMISSIONS);
                output.append(t.as_str());
            } else {
                let mut t = concat3(RUN_HEAD, command_name, RUN_APPROVED);
                t.append(flag_lines_text(permissions).as_str());
                output.append(t.as_str());
            }
        } else if permissions.len() > 0 {
            let mut t = concat3(RUN_HEAD, command_name, RUN_WITH);
            t.append(flag_lines_text(permissions).as_str());
            output.append(t.as_str());
        } else {
            proof {
                assert(old(output)@ + Seq::<char>::empty() =~= old(output)@);
            }
        }
        Ok(())
    }

    /// A decision with `consent` for `permissions`, stamped now.
    pub fn create_permission_decision(
        &self,
        permissions: Vec<PermissionRequest>,
        consent: PermissionConsent,
    ) -> (r: PermissionDecision)
        ensures
            r@.permissions == permissions_view(permissions@),
            r@.consent == consent,
    {
        let now = self.time_provider.now();
        self.create_permission_decision_with_timestamp(permissions, consent, now)
    }

    /// A decision with `consent` for `permissions`, stamped `timestamp`.
    pub fn create_permission_decision_with_timestamp(
        &self,
        permissions: Vec<PermissionRequest>,
        consent: PermissionConsent,
        timestamp: u64,
    ) -> (r: PermissionDecision)
        ensures
            r@ == (PermissionDecisionView {
                permissions: permissions_view(permissions@),
                consent,
                decided_at: timestamp,
            }),
    {
        PermissionDecision { permissions, consent, decided_at: timestamp }
    }
}

/// The numbered list of capabilities.
fn permission_items_text(ps: &[PermissionRequest]) -> (r: String)
    ensures
        r@ == permission_items(permissions_view(ps@)),
{
    let mut r = String::new();
    let mut i: usize = 0;
    while i < ps.len()
        invariant
            i <= ps@.len(),
            r@ == permission_items(permissions_view(ps@.subrange(0, i as int))),
        decreases ps.len() - i,
    {
        proof {
            assert(permissions_view(ps@.subrange(0, i + 1)).drop_last() =~= permissions_view(
                ps@.subrange(0, i as int),
            ));
        }
        let number = decimal(i + 1);
        r.append("   ");
        r.append(number.as_str());
        r.append(ITEM_MARK);
        r.append(ps[i].permission.as_str());
        r.append(WHY_LINE);
        r.append(ps[i].reason.as_str());
        r.append("\n\n");
        i = i + 1;
    }
    proof {
        assert(ps@.subrange(0, ps@.len() as int) =~= ps@);
    }
    r
}

/// One line per capability flag.
fn flag_lines_text(ps: &[PermissionRequest]) -> (r: String)
    ensures
        r@ == flag_lines(permissions_view(ps@)),
{
    let mut r = String::new();
    let mut i: usize = 0;
    while i < ps.len()
        invariant
            i <= ps@.len(),
            r@ == flag_lines(permissions_view(ps@.subrange(0, i as int))),
        decreases ps.len() - i,
    {
        proof {
            assert(permissions_view(ps@.subrange(0, i + 1)).drop_last() =~= permissions_view(
                ps@.subrange(0, i as int),
            ));
        }
        r.append(FLAG_LINE);
        r.append(ps[i].permission.as_str());
        r.append("\n");
        i = i + 1;
    }
    proof {
        assert(ps@.subrange(0, ps@.len() as int) =~= ps@);
    }
    r
}

} // verus!
