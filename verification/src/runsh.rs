//! Safe execution of the operator script's fixed command menu: which
//! commands are allowed, how the script's interactive input is built, and
//! how an execution's outcome is classified.

use vstd::prelude::*;
use crate::testrun::{clone_string_vec, contains_string, vec_contains_str};
use crate::text::{dec_of, join_with, join_strings, u64_to_string};

verus! {

/// A request to run one menu command of the operator script.
#[derive(Clone, Debug)]
pub struct RunShCommand {
    pub command: String,
    pub args: Vec<String>,
    pub timeout_seconds: Option<u64>,
}

/// The recorded outcome of one script execution.
#[derive(Clone, Debug)]
pub struct RunShResponse {
    pub success: bool,
    pub exit_code: Option<i32>,
    pub stdout: String,
    pub stderr: String,
    pub duration_ms: u64,
}

/// Why an execution request was not carried through.
#[derive(Clone, Debug)]
pub enum RunShError {
    /// The requested command is not on the menu.
    CommandNotAllowed(String),
    /// The script could not be started or did not run; the detail says
    /// why.
    ExecutionFailed(String),
    /// The task running the script panicked; the detail says why.
    TaskPanicked(String),
    /// The script ran longer than this many seconds.
    TimedOut(u64),
}

/// The description `RunShError::describe` renders.
pub open spec fn runsh_error_text(e: RunShError) -> Seq<char> {
    match e {
        RunShError::CommandNotAllowed(c) => "Command '"@ + c@
            + "' is not allowed. Allowed commands: [\"1\", \"2\", \"3\", \"4\", \"5\", \"6\", \"7\", \"8\", \"9\", \"10\", \"11\"]"@,
        RunShError::ExecutionFailed(d) => "Command execution failed: "@ + d@,
        RunShError::TaskPanicked(d) => "Task panicked: "@ + d@,
        RunShError::TimedOut(n) => "Command timed out after "@ + dec_of(n as nat) + " seconds"@,
    }
}

impl RunShError {
    /// A human-readable description of the error.
    pub fn describe(&self) -> (r: String)
        ensures
            r@ == runsh_error_text(*self),
    {
        match self {
            RunShError::CommandNotAllowed(c) => String::from_str("Command '").concat(c.as_str())
                .concat(
                "' is not allowed. Allowed commands: [\"1\", \"2\", \"3\", \"4\", \"5\", \"6\", \"7\", \"8\", \"9\", \"10\", \"11\"]",
            ),
            RunShError::ExecutionFailed(d) => String::from_str("Command execution failed: ")
                .concat(d.as_str()),
            RunShError::TaskPanicked(d) => String::from_str("Task panicked: ").concat(d.as_str()),
            RunShError::TimedOut(n) => {
                let r = String::from_str("Command timed out after ").concat(
                    u64_to_string(*n).as_str(),
                ).concat(" seconds");
                proof {
                    assert(r@ =~= runsh_error_text(*self));
                }
                r
            },
        }
    }
}

/// The menu commands the script accepts, in menu order.  The exit entry
/// of the menu is not executable and is not listed.
pub open spec fn spec_allowed_commands() -> Seq<Seq<char>> {
    seq!["1"@, "2"@, "3"@, "4"@, "5"@, "6"@, "7"@, "8"@, "9"@, "10"@, "11"@]
}

/// The interactive input handed to the script: the command, then the
/// arguments (or the single answer `a`, all services, when none are
/// given), newline-separated and newline-terminated.
pub open spec fn input_of(cmd: RunShCommand) -> Seq<char> {
    join_with(
        seq![cmd.command@] + (if cmd.args@.len() == 0 {
            seq!["a"@]
        } else {
            cmd.args.deep_view()
        }),
        "\n"@,
    ) + "\n"@
}

/// Runs the operator script's menu commands, validating each request
/// against the fixed menu.
#[derive(Clone, Debug)]
pub struct RunShExecutor {
    runsh_path: String,
    allowed_commands: Vec<String>,
}

impl RunShExecutor {
    /// The script path this executor was built with.
    pub closed spec fn path_view(&self) -> Seq<char> {
        self.runsh_path@
    }

    /// The commands this executor accepts.
    pub closed spec fn allowed_view(&self) -> Seq<Seq<char>> {
        self.allowed_commands.deep_view()
    }

    /// Build an executor for the script at `runsh_path`.  The caller is
    /// expected to have resolved the path to an existing script.
    pub fn new(runsh_path: String) -> (r: RunShExecutor)
        ensures
            r.path_view() == runsh_path@,
            r.allowed_view() == spec_allowed_commands(),
    {
        let mut allowed: Vec<String> = Vec::new();
        allowed.push(String::from_str("1"));
        allowed.push(String::from_str("2"));
        allowed.push(String::from_str("3"));
        allowed.push(String::from_str("4"));
        allowed.push(String::from_str("5"));
        allowed.push(String::from_str("6"));
        allowed.push(String::from_str("7"));
        allowed.push(String::from_str("8"));
        allowed.push(String::from_str("9"));
        allowed.push(String::from_str("10"));
        allowed.push(String::from_str("11"));
        proof {
            assert(allowed.deep_view() =~= spec_allowed_commands());
        }
        RunShExecutor { runsh_path, allowed_commands: allowed }
    }

    /// The resolved script path.
    pub fn runsh_path(&self) -> (r: &str)
        ensures
            r@ == self.path_view(),
    {
        self.runsh_path.as_str()
    }

    /// The commands this executor accepts.
    pub fn get_allowed_commands(&self) -> (r: &Vec<String>)
        ensures
            r.deep_view() == self.allowed_view(),
    {
        &self.allowed_commands
    }

    /// Validate a request and prepare its execution: the interactive
    /// input to feed the script, and the timeout to apply (five minutes
    /// when the request names none).  A command off the menu is refused
    /// and nothing runs.
    pub fn prepare_execution(&self, cmd: &RunShCommand) -> (r: Result<(String, u64), RunShError>)
        ensures
            contains_string(self.allowed_view(), cmd.command@) ==> (r matches Ok(p) && p.0@
                == input_of(*cmd) && p.1 == (match cmd.timeout_seconds {
                Some(t) => t,
                None => 300u64,
            })),
            !contains_string(self.allowed_view(), cmd.command@) ==> (r matches Err(e) && (e
                matches RunShError::CommandNotAllowed(c) && c@ == cmd.command@)),
    {
        if !vec_contains_str(&self.allowed_commands, cmd.command.as_str()) {
            return Err(RunShError::CommandNotAllowed(cmd.command.clone()));
        }
        let mut parts: Vec<String> = Vec::new();
        parts.push(cmd.command.clone());
        if cmd.args.len() == 0 {
            parts.push(String::from_str("a"));
            proof {
                assert(parts.deep_view() =~= seq![cmd.command@] + seq!["a"@]);
            }
        } else {
            let mut rest = clone_string_vec(&cmd.args);
            let ghost parts0 = parts.deep_view();
            parts.append(&mut rest);
            proof {
                assert(parts.deep_view() =~= seq![cmd.command@] + cmd.args.deep_view());
            }
        }
        let input = join_strings(&parts, "\n").concat("\n");
        let timeout = match cmd.timeout_seconds {
            Some(t) => t,
            None => 300,
        };
        Ok((input, timeout))
    }
}

/// How one script execution ended, as the runtime observed it.
pub enum RunShOutcome {
    /// The script ran to completion with these streams and exit code.
    Finished { exit_code: Option<i32>, stdout: String, stderr: String },
    /// The script process could not be started; the detail says why.
    LaunchFailed(String),
    /// The task running the script panicked; the detail says why.
    PanickedTask(String),
    /// The timeout elapsed before the script finished.
    TimedOut,
}

/// Classify one script execution.  Exit status zero is the sole success
/// criterion of a finished run; every other ending is an error of its
/// own kind.
pub fn conclude_execution(outcome: RunShOutcome, timeout_secs: u64, duration_ms: u64) -> (r:
    Result<RunShResponse, RunShError>)
    ensures
        (match outcome {
            RunShOutcome::Finished { exit_code, stdout, stderr } => r matches Ok(resp)
                && resp.success == (exit_code matches Some(c) && c == 0) && resp.exit_code
                == exit_code && resp.stdout == stdout && resp.stderr == stderr
                && resp.duration_ms == duration_ms,
            RunShOutcome::LaunchFailed(d) => r matches Err(e) && (e matches
                RunShError::ExecutionFailed(got) && got == d),
            RunShOutcome::PanickedTask(d) => r matches Err(e) && (e matches
                RunShError::TaskPanicked(got) && got == d),
            RunShOutcome::TimedOut => r matches Err(e) && (e matches RunShError::TimedOut(t) && t
                == timeout_secs),
        }),
{
    match outcome {
        RunShOutcome::Finished { exit_code, stdout, stderr } => {
            let success = match exit_code {
                Some(c) => c == 0,
                None => false,
            };
            Ok(RunShResponse { success, exit_code, stdout, stderr, duration_ms })
        },
        RunShOutcome::LaunchFailed(d) => Err(RunShError::ExecutionFailed(d)),
        RunShOutcome::PanickedTask(d) => Err(RunShError::TaskPanicked(d)),
        RunShOutcome::TimedOut => Err(RunShError::TimedOut(timeout_secs)),
    }
}

} // verus!
