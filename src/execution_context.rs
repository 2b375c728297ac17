//! The record of the last generated-command run, which the corrective
//! feedback path rebuilds the command from.

use crate::command_cache::path_join;
use crate::config::{Config, ConfigError};
use vstd::prelude::*;

verus! {

/// The last run of a generated command: its name, the script text that ran,
/// what it wrote to standard error, and whether it succeeded.
#[derive(Debug, Clone)]
pub struct ExecutionContext {
    pub command_name: String,
    pub script_content: String,
    pub stderr: Option<String>,
    pub success: bool,
}

pub ghost struct ExecutionContextView {
    pub command_name: Seq<char>,
    pub script_content: Seq<char>,
    pub stderr: Option<Seq<char>>,
    pub success: bool,
}

pub open spec fn optional_text(t: Option<String>) -> Option<Seq<char>> {
    match t {
        Some(s) => Some(s@),
        None => None,
    }
}

impl View for ExecutionContext {
    type V = ExecutionContextView;

    open spec fn view(&self) -> ExecutionContextView {
        ExecutionContextView {
            command_name: self.command_name@,
            script_content: self.script_content@,
            stderr: optional_text(self.stderr),
            success: self.success,
        }
    }
}

/// The name of the record's file in the configuration directory.
pub open spec fn context_file_name() -> Seq<char> {
    "last_execution.json"@
}

impl ExecutionContext {
    pub fn new(command_name: &str, script_content: &str, stderr: Option<String>, success: bool) -> (r:
        Self)
        ensures
            r@ == (ExecutionContextView {
                command_name: command_name@,
                script_content: script_content@,
                stderr: optional_text(stderr),
                success,
            }),
    {
        ExecutionContext {
            command_name: String::from_str(command_name),
            script_content: String::from_str(script_content),
            stderr,
            success,
        }
    }

    /// Where the record is kept: `last_execution.json` in the configuration
    /// directory.
    pub fn context_file_path() -> (r: Result<String, ConfigError>)
        ensures
            r matches Ok(p) ==> exists|d: Seq<char>| p@ == path_join(d, context_file_name()),
    {
        match Config::get_config_dir() {
            Ok(dir) => {
                let p = crate::command_cache::join_path(dir.as_str(), "last_execution.json");
                proof {
                    assert(p@ == path_join(dir@, context_file_name()));
                }
                Ok(p)
            },
            Err(e) => Err(e),
        }
    }
}

} // verus!
