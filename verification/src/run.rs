//! The course of one run of the generator, as a machine.
//!
//! A run parses its command line, has the compiler front end produce the two
//! bodies of bindings, formats and writes the header, then formats and writes
//! the implementation. Each of these steps is work that the program around
//! this library does; after each, the library decides what comes next. The
//! first step that fails ends the run with its error, and nothing is written
//! after it.

use vstd::prelude::*;
use vstd::string::*;

verus! {

/// What the command line asks for.
#[derive(Debug, PartialEq, Eq)]
pub struct Cmdline {
    /// Where the header goes.
    pub h_out: String,
    /// Where the implementation goes.
    pub rs_out: String,
    /// Where generated code finds the support library.
    pub crubit_support_path: String,
    pub clang_format_exe_path: String,
    pub rustfmt_exe_path: String,
    pub rustfmt_config_path: Option<String>,
    /// The arguments that go on to the compiler.
    pub rustc_args: Vec<String>,
}

/// What is still needed of the command line once the compiler runs.
#[derive(Debug, PartialEq, Eq)]
pub struct Outputs {
    pub h_out: String,
    pub rs_out: String,
    pub clang_format_exe_path: String,
    pub rustfmt_exe_path: String,
    pub rustfmt_config_path: Option<String>,
}

/// The two bodies of bindings, before they are formatted.
#[derive(Debug, PartialEq, Eq)]
pub struct Bindings {
    pub h_body: String,
    pub rs_body: String,
}

/// Why a run failed.
#[derive(Debug, PartialEq, Eq)]
pub enum RunError {
    /// The command line could not be parsed.
    Cmdline(String),
    /// The compiler reported errors, or no bindings could be generated.
    Compiler(String),
    /// A formatting tool failed.
    Format(String),
    /// A file could not be written.
    Write { path: String, cause: String },
    /// The program reported a step that the run was not waiting for.
    UnexpectedEvent,
}

/// Where a run stands.
#[derive(Debug, PartialEq, Eq)]
pub enum RunState {
    Start,
    Parsing,
    Compiling { outputs: Outputs },
    FormattingHeader { outputs: Outputs, rs_body: String },
    WritingHeader { outputs: Outputs, rs_body: String },
    FormattingImpl { outputs: Outputs },
    WritingImpl { outputs: Outputs },
    Done,
}

/// What the program reports back.
#[derive(Debug, PartialEq, Eq)]
pub enum RunEvent {
    /// The run begins, with these arguments.
    Begin { args: Vec<String> },
    /// The command line was parsed, or could not be.
    Parsed(Result<Cmdline, String>),
    /// The compiler ran and bindings were generated, or not.
    Generated(Result<Bindings, String>),
    /// A body was formatted, or could not be.
    Formatted(Result<String, String>),
    /// A file was written, or could not be.
    Written(Result<(), String>),
}

/// What the program is to do next.
#[derive(Debug, PartialEq, Eq)]
pub enum RunAction {
    ParseCmdline { args: Vec<String> },
    RunCompiler { rustc_args: Vec<String>, crubit_support_path: String },
    FormatHeader { h_body: String, clang_format_exe_path: String },
    FormatImpl { rs_body: String, rustfmt_exe_path: String, rustfmt_config_path: Option<String> },
    WriteFile { path: String, content: String },
    /// The run is over, with this result.
    Finish(Result<(), RunError>),
}

/// The run ends with `error`.
pub open spec fn fail(error: RunError) -> (RunState, RunAction) {
    (RunState::Done, RunAction::Finish(Err(error)))
}

/// The state that follows `state` on `event`, and what the program is to do
/// next.
pub open spec fn step(state: RunState, event: RunEvent) -> (RunState, RunAction) {
    match (state, event) {
        (RunState::Start, RunEvent::Begin { args }) => (
            RunState::Parsing,
            RunAction::ParseCmdline { args },
        ),
        (RunState::Parsing, RunEvent::Parsed(Ok(c))) => (
            RunState::Compiling {
                outputs: Outputs {
                    h_out: c.h_out,
                    rs_out: c.rs_out,
                    clang_format_exe_path: c.clang_format_exe_path,
                    rustfmt_exe_path: c.rustfmt_exe_path,
                    rustfmt_config_path: c.rustfmt_config_path,
                },
            },
            RunAction::RunCompiler {
                rustc_args: c.rustc_args,
                crubit_support_path: c.crubit_support_path,
            },
        ),
        (RunState::Parsing, RunEvent::Parsed(Err(e))) => fail(RunError::Cmdline(e)),
        (RunState::Compiling { outputs }, RunEvent::Generated(Ok(b))) => (
            RunState::FormattingHeader { outputs, rs_body: b.rs_body },
            RunAction::FormatHeader {
                h_body: b.h_body,
                clang_format_exe_path: outputs.clang_format_exe_path,
            },
        ),
        (RunState::Compiling { .. }, RunEvent::Generated(Err(e))) => fail(RunError::Compiler(e)),
        (RunState::FormattingHeader { outputs, rs_body }, RunEvent::Formatted(Ok(text))) => (
            RunState::WritingHeader { outputs, rs_body },
            RunAction::WriteFile { path: outputs.h_out, content: text },
        ),
        (RunState::FormattingHeader { .. }, RunEvent::Formatted(Err(e))) => fail(
            RunError::Format(e),
        ),
        (RunState::WritingHeader { outputs, rs_body }, RunEvent::Written(Ok(()))) => (
            RunState::FormattingImpl { outputs },
            RunAction::FormatImpl {
                rs_body,
                rustfmt_exe_path: outputs.rustfmt_exe_path,
                rustfmt_config_path: outputs.rustfmt_config_path,
            },
        ),
        (RunState::WritingHeader { outputs, .. }, RunEvent::Written(Err(cause))) => fail(
            RunError::Write { path: outputs.h_out, cause },
        ),
        (RunState::FormattingImpl { outputs }, RunEvent::Formatted(Ok(text))) => (
            RunState::WritingImpl { outputs },
            RunAction::WriteFile { path: outputs.rs_out, content: text },
        ),
        (RunState::FormattingImpl { .. }, RunEvent::Formatted(Err(e))) => fail(
            RunError::Format(e),
        ),
        (RunState::WritingImpl { .. }, RunEvent::Written(Ok(()))) => (
            RunState::Done,
            RunAction::Finish(Ok(())),
        ),
        (RunState::WritingImpl { outputs }, RunEvent::Written(Err(cause))) => fail(
            RunError::Write { path: outputs.rs_out, cause },
        ),
        _ => fail(RunError::UnexpectedEvent),
    }
}

/// Takes a run one step further: given where it stands and what the program
/// reports, says where it stands now and what the program is to do next.
pub fn run_with_cmdline_args(state: RunState, event: RunEvent) -> (r: (RunState, RunAction))
    ensures
        r == step(state, event),
{
    match (state, event) {
        (RunState::Start, RunEvent::Begin { args }) => (
            RunState::Parsing,
            RunAction::ParseCmdline { args },
        ),
        (RunState::Parsing, RunEvent::Parsed(Ok(c))) => {
            let Cmdline {
                h_out,
                rs_out,
                crubit_support_path,
                clang_format_exe_path,
                rustfmt_exe_path,
                rustfmt_config_path,
                rustc_args,
            } = c;
            (
                RunState::Compiling {
                    outputs: Outputs {
                        h_out,
                        rs_out,
                        clang_format_exe_path,
                        rustfmt_exe_path,
                        rustfmt_config_path,
                    },
                },
                RunAction::RunCompiler { rustc_args, crubit_support_path },
            )
        },
        (RunState::Parsing, RunEvent::Parsed(Err(e))) => (
            RunState::Done,
            RunAction::Finish(Err(RunError::Cmdline(e))),
        ),
        (RunState::Compiling { outputs }, RunEvent::Generated(Ok(b))) => {
            let Bindings { h_body, rs_body } = b;
            let clang_format_exe_path = outputs.clang_format_exe_path.clone();
            (
                RunState::FormattingHeader { outputs, rs_body },
                RunAction::FormatHeader { h_body, clang_format_exe_path },
            )
        },
        (RunState::Compiling { .. }, RunEvent::Generated(Err(e))) => (
            RunState::Done,
            RunAction::Finish(Err(RunError::Compiler(e))),
        ),
        (RunState::FormattingHeader { outputs, rs_body }, RunEvent::Formatted(Ok(text))) => {
            let path = outputs.h_out.clone();
            (
                RunState::WritingHeader { outputs, rs_body },
                RunAction::WriteFile { path, content: text },
            )
        },
        (RunState::FormattingHeader { .. }, RunEvent::Formatted(Err(e))) => (
            RunState::Done,
            RunAction::Finish(Err(RunError::Format(e))),
        ),
        (RunState::WritingHeader { outputs, rs_body }, RunEvent::Written(Ok(()))) => {
            let rustfmt_exe_path = outputs.rustfmt_exe_path.clone();
            let rustfmt_config_path = crate::text::clone_opt(&outputs.rustfmt_config_path);
            (
                RunState::FormattingImpl { outputs },
                RunAction::FormatImpl { rs_body, rustfmt_exe_path, rustfmt_config_path },
            )
        },
        (RunState::WritingHeader { outputs, .. }, RunEvent::Written(Err(cause))) => (
            RunState::Done,
            RunAction::Finish(Err(RunError::Write { path: outputs.h_out, cause })),
        ),
        (RunState::FormattingImpl { outputs }, RunEvent::Formatted(Ok(text))) => {
            let path = outputs.rs_out.clone();
            (RunState::WritingImpl { outputs }, RunAction::WriteFile { path, content: text })
        },
        (RunState::FormattingImpl { .. }, RunEvent::Formatted(Err(e))) => (
            RunState::Done,
            RunAction::Finish(Err(RunError::Format(e))),
        ),
        (RunState::WritingImpl { .. }, RunEvent::Written(Ok(()))) => (
            RunState::Done,
            RunAction::Finish(Ok(())),
        ),
        (RunState::WritingImpl { outputs }, RunEvent::Written(Err(cause))) => (
            RunState::Done,
            RunAction::Finish(Err(RunError::Write { path: outputs.rs_out, cause })),
        ),
        _ => (RunState::Done, RunAction::Finish(Err(RunError::UnexpectedEvent))),
    }
}

/// The sentence that reports `error`.
pub open spec fn error_message(error: RunError) -> Seq<char> {
    match error {
        RunError::Cmdline(e) => e@,
        RunError::Compiler(e) => e@,
        RunError::Format(e) => e@,
        RunError::Write { path, cause } => "Error when writing to "@ + path@ + ": "@ + cause@,
        RunError::UnexpectedEvent => "The run was not waiting for this step"@,
    }
}

impl RunError {
    /// The sentence that reports the error. A failure to write names the
    /// file that could not be written.
    pub fn message(&self) -> (m: String)
        ensures
            m@ == error_message(*self),
    {
        match self {
            RunError::Cmdline(e) => e.clone(),
            RunError::Compiler(e) => e.clone(),
            RunError::Format(e) => e.clone(),
            RunError::Write { path, cause } => {
                let mut m = String::from_str("Error when writing to ");
                m.append(path.as_str());
                m.append(": ");
                m.append(cause.as_str());
                m
            },
            RunError::UnexpectedEvent => String::from_str("The run was not waiting for this step"),
        }
    }
}

/// Whether `event` reports that a step failed.
pub open spec fn is_failure(event: RunEvent) -> bool {
    match event {
        RunEvent::Begin { .. } => false,
        RunEvent::Parsed(r) => r is Err,
        RunEvent::Generated(r) => r is Err,
        RunEvent::Formatted(r) => r is Err,
        RunEvent::Written(r) => r is Err,
    }
}

/// A step that fails ends the run with an error: no further work is asked
/// for, and so nothing is written after a failure.
pub proof fn law_failure_ends_run(state: RunState, event: RunEvent)
    requires
        is_failure(event),
    ensures
        step(state, event).0 == RunState::Done,
        step(state, event).1 matches RunAction::Finish(Err(_)),
{
}

/// A run that is over stays over, whatever is reported to it.
pub proof fn law_done_is_final(event: RunEvent)
    ensures
        step(RunState::Done, event) == fail(RunError::UnexpectedEvent),
{
}

/// A file is written only as the step after its body was formatted, and the
/// implementation only after the header was written.
pub proof fn law_write_follows_format(state: RunState, event: RunEvent)
    requires
        step(state, event).1 is WriteFile,
    ensures
        event matches RunEvent::Formatted(Ok(_)),
        state is FormattingHeader || state is FormattingImpl,
{
}

} // verus!
