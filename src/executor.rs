//! Running commands: what is handed to the operating system or to the
//! sandbox runtime, what becomes of their output, and what is recorded of a
//! generated command's run.
//!
//! Spawning processes and writing the temporary script file happen outside;
//! this module decides the arguments and the outcome.

use crate::command_cache::{CacheError, CachePathResolver, CommandCache};
use crate::execution_context::{optional_text, ExecutionContext, ExecutionContextView};
use crate::llm_generator::{GeneratedCommand, PermissionRequestView};
use crate::providers::TimeProvider;
use crate::text::{concat3, decimal, decimal_of, join, joined, texts_view};
use vstd::prelude::*;

verus! {

/// How a generated command's run ended, as the feedback loop sees it.
#[derive(Debug)]
pub struct ExecutionResult {
    pub success: bool,
    pub stderr: Option<String>,
}

/// Why a command could not be run.
#[derive(Debug)]
pub enum ExecError {
    /// No command name was given.
    NoCommand,
    /// The sandbox runtime is not installed.
    SandboxMissing,
    /// The command ran and exited with a failure status.
    Failed,
    /// Starting the process, or the script file, failed.
    Io { message: String },
}

impl ExecError {
    /// What went wrong, in words.
    pub fn message(&self) -> (r: String)
        ensures
            self is NoCommand ==> r@ == "No command provided"@,
            self is SandboxMissing ==> r@ == SANDBOX_MISSING@,
            self is Failed ==> r@ == "Command execution failed"@,
            self matches ExecError::Io { message } ==> r@ == message@,
    {
        match self {
            ExecError::NoCommand => String::from_str("No command provided"),
            ExecError::SandboxMissing => String::from_str(SANDBOX_MISSING),
            ExecError::Failed => String::from_str("Command execution failed"),
            ExecError::Io { message } => message.clone(),
        }
    }
}

/// Says that the sandbox runtime is missing.
pub const SANDBOX_MISSING: &'static str = "Deno is not installed. Please install Deno to execute generated commands.";

/// Something that hands out the script of a generated command.
pub trait ScriptProvider {
    fn get_script(&self, command: &GeneratedCommand) -> Result<String, CacheError>;
}

impl<R: CachePathResolver, T: TimeProvider> ScriptProvider for CommandCache<R, T> {
    fn get_script(&self, command: &GeneratedCommand) -> Result<String, CacheError> {
        self.get_script_content(command)
    }
}

/// Runs programs through the operating system.
pub struct SystemProcessRunner;

/// The executable of the sandbox runtime.
pub const SANDBOX_PROGRAM: &'static str = "deno";

/// Runs system commands directly and generated scripts in the sandbox.
pub struct Executor {
    verbose: bool,
}

/// The capability flags of a command, in the order it declares them.
pub open spec fn permission_flags_of(ps: Seq<PermissionRequestView>) -> Seq<Seq<char>> {
    ps.map_values(|p: PermissionRequestView| p.permission)
}

/// The sandbox runtime's arguments: its "run" subcommand, each capability
/// flag as it stands, the script path, then the user's arguments.
pub open spec fn sandbox_args_of(
    flags: Seq<Seq<char>>,
    script_path: Seq<char>,
    args: Seq<Seq<char>>,
) -> Seq<Seq<char>> {
    seq!["run"@] + flags + seq![script_path] + args
}

/// The temporary script file's name for a process.
pub open spec fn temp_script_name_of(process_id: nat) -> Seq<char> {
    "ergo_script_"@ + decimal_of(process_id) + ".ts"@
}

/// What to forward of a finished process, and how its run counts.
#[derive(Debug, Clone, Copy, PartialEq, Eq)]
pub struct OutputPlan {
    /// Forward the captured standard output.
    pub forward_stdout: bool,
    /// Forward the captured standard error.
    pub forward_stderr: bool,
    /// The run counts as a success.
    pub succeeded: bool,
}

impl Executor {
    pub fn new(verbose: bool) -> (r: Self)
        ensures
            r.is_verbose() == verbose,
    {
        Executor { verbose }
    }

    pub closed spec fn is_verbose(&self) -> bool {
        self.verbose
    }

    /// Whether the executor reports what it runs.
    pub fn verbose(&self) -> (r: bool)
        ensures
            r == self.is_verbose(),
    {
        self.verbose
    }

    /// Splits a system command line into the program and its arguments;
    /// `NoCommand` when the line is empty.
    pub fn system_invocation(args: &Vec<String>) -> (r: Result<(String, Vec<String>), ExecError>)
        ensures
            args@.len() == 0 ==> (r matches Err(e) && e is NoCommand),
            args@.len() > 0 ==> (r matches Ok((p, rest)) && p@ == args@[0]@ && texts_view(rest@)
                == texts_view(args@).drop_first()),
    {
        if args.len() == 0 {
            return Err(ExecError::NoCommand);
        }
        let mut rest: Vec<String> = Vec::new();
        let mut i: usize = 1;
        while i < args.len()
            invariant
                1 <= i <= args@.len(),
                texts_view(rest@) == texts_view(args@).subrange(1, i as int),
            decreases args.len() - i,
        {
            let ghost before = rest@;
            rest.push(args[i].clone());
            proof {
                assert(texts_view(rest@) =~= texts_view(before).push(args@[i as int]@));
                assert(texts_view(args@).subrange(1, i + 1) =~= texts_view(args@).subrange(
                    1,
                    i as int,
                ).push(args@[i as int]@));
            }
            i = i + 1;
        }
        proof {
            assert(texts_view(args@).subrange(1, args@.len() as int) =~= texts_view(args@).drop_first());
        }
        Ok((args[0].clone(), rest))
    }

    /// What becomes of a finished process's output. On success both streams
    /// are forwarded, each when it is not empty. On failure only standard
    /// error is forwarded, when not empty, and the run fails.
    pub fn handle_output(status_success: bool, stdout: &[u8], stderr: &[u8]) -> (r: OutputPlan)
        ensures
            r.succeeded == status_success,
            r.forward_stdout == (status_success && stdout@.len() > 0),
            r.forward_stderr == (stderr@.len() > 0),
    {
        OutputPlan {
            forward_stdout: status_success && stdout.len() > 0,
            forward_stderr: stderr.len() > 0,
            succeeded: status_success,
        }
    }

    /// The capability flags a command declares, in order.
    pub fn permission_flags(command: &GeneratedCommand) -> (r: Vec<String>)
        ensures
            texts_view(r@) == permission_flags_of(command@.permissions),
    {
        let mut r: Vec<String> = Vec::new();
        let mut i: usize = 0;
        while i < command.permissions.len()
            invariant
                i <= command.permissions@.len(),
                r@.len() == i,
                forall|j: int| 0 <= j < i ==> (#[trigger] r@[j])@ == command.permissions@[j].permission@,
            decreases command.permissions.len() - i,
        {
            r.push(command.permissions[i].permission.clone());
            i = i + 1;
        }
        proof {
            assert(texts_view(r@) =~= permission_flags_of(command@.permissions));
        }
        r
    }

    /// The arguments of the sandbox runtime for a script at `script_path`.
    pub fn sandbox_args(permissions: &Vec<String>, script_path: &str, args: &Vec<String>) -> (r: Vec<
        String,
    >)
        ensures
            texts_view(r@) == sandbox_args_of(texts_view(permissions@), script_path@, texts_view(args@)),
    {
        let mut r: Vec<String> = Vec::new();
        r.push(String::from_str("run"));
        let mut i: usize = 0;
        while i < permissions.len()
            invariant
                i <= permissions@.len(),
                texts_view(r@) == seq!["run"@] + texts_view(permissions@).subrange(0, i as int),
            decreases permissions.len() - i,
        {
            let ghost before = r@;
            r.push(permissions[i].clone());
            proof {
                assert(texts_view(r@) =~= texts_view(before).push(permissions@[i as int]@));
                assert(texts_view(permissions@).subrange(0, i + 1) =~= texts_view(permissions@).subrange(
                    0,
                    i as int,
                ).push(permissions@[i as int]@));
            }
            i = i + 1;
        }
        let ghost before = r@;
        r.push(String::from_str(script_path));
        proof {
            assert(texts_view(r@) =~= texts_view(before).push(script_path@));
        }
        let mut j: usize = 0;
        while j < args.len()
            invariant
                j <= args@.len(),
                texts_view(r@) == seq!["run"@] + texts_view(permissions@) + seq![script_path@]
                    + texts_view(args@).subrange(0, j as int),
            decreases args.len() - j,
        {
            let ghost before = r@;
            r.push(args[j].clone());
            proof {
                assert(texts_view(r@) =~= texts_view(before).push(args@[j as int]@));
                assert(texts_view(args@).subrange(0, j + 1) =~= texts_view(args@).subrange(
                    0,
                    j as int,
                ).push(args@[j as int]@));
            }
            j = j + 1;
        }
        proof {
            assert(texts_view(permissions@).subrange(0, permissions@.len() as int) =~= texts_view(
                permissions@,
            ));
            assert(texts_view(args@).subrange(0, args@.len() as int) =~= texts_view(args@));
            assert(texts_view(r@) =~= sandbox_args_of(
                texts_view(permissions@),
                script_path@,
                texts_view(args@),
            ));
        }
        r
    }

    /// The name of the temporary script file of the process `process_id`.
    pub fn temp_script_name(process_id: u32) -> (r: String)
        ensures
            r@ == temp_script_name_of(process_id as nat),
    {
        concat3("ergo_script_", decimal(process_id as usize).as_str(), ".ts")
    }

    /// The lines a verbose run prints before a generated command: what it
    /// does, then the capability flags it needs, if any. Nothing when not
    /// verbose.
    pub fn generated_banner(&self, command: &GeneratedCommand) -> (r: String)
        ensures
            !self.is_verbose() ==> r@.len() == 0,
            self.is_verbose() ==> r@ == "\u{1f916} Executing generated command: "@
                + command@.description + "\n"@ + if command@.permissions.len() == 0 {
                Seq::<char>::empty()
            } else {
                "\u{1f512} Deno permissions required: "@ + joined(
                    permission_flags_of(command@.permissions),
                    " "@,
                ) + "\n"@
            },
    {
        if !self.verbose {
            return String::new();
        }
        let mut r = concat3(
            "\u{1f916} Executing generated command: ",
            command.description.as_str(),
            "\n",
        );
        if command.permissions.len() > 0 {
            let flags = Executor::permission_flags(command);
            let listed = join(&flags, " ");
            r.append("\u{1f512} Deno permissions required: ");
            r.append(listed.as_str());
            r.append("\n");
        } else {
            proof {
                assert(r@ + Seq::<char>::empty() =~= r@);
            }
        }
        r
    }

    /// What is recorded, and reported, of a generated command's run: the
    /// command's name, the script that ran, its standard error when it wrote
    /// any, and whether it succeeded.
    pub fn record_run(
        command: &GeneratedCommand,
        script_content: &str,
        succeeded: bool,
        stderr_text: &str,
    ) -> (r: (ExecutionContext, ExecutionResult))
        ensures
            r.0@ == (ExecutionContextView {
                command_name: command@.name,
                script_content: script_content@,
                stderr: if stderr_text@.len() == 0 {
                    None
                } else {
                    Some(stderr_text@)
                },
                success: succeeded,
            }),
            r.1.success == succeeded,
            optional_text(r.1.stderr) == r.0@.stderr,
    {
        let stderr_str = if stderr_text.unicode_len() == 0 {
            None
        } else {
            Some(String::from_str(stderr_text))
        };
        let reported = match &stderr_str {
            Some(s) => Some(s.clone()),
            None => None,
        };
        let context = ExecutionContext::new(
            command.name.as_str(),
            script_content,
            stderr_str,
            succeeded,
        );
        (context, ExecutionResult { success: succeeded, stderr: reported })
    }

    /// What is reported when the script of a generated command cannot be
    /// found: a failed run with the reason as its error output. No run is
    /// recorded for the feedback loop.
    pub fn script_missing(message: &str) -> (r: ExecutionResult)
        ensures
            !r.success,
            optional_text(r.stderr) == Some(message@),
    {
        ExecutionResult { success: false, stderr: Some(String::from_str(message)) }
    }
}

} // verus!
