use binding_ir::run::{
    run_with_cmdline_args, Bindings, Cmdline, RunAction, RunError, RunEvent, RunState,
};

/// What a run did until it ended.
struct RunResult {
    written: Vec<(String, String)>,
    result: Result<(), RunError>,
}

/// Stands for the program around the library: answers every action with the
/// outcome that `outcome` gives for it.
struct TestArgs {
    h_path: String,
    cmdline_error: Option<String>,
    compiler_error: Option<String>,
    write_error: Option<String>,
}

impl TestArgs {
    fn default_args() -> TestArgs {
        TestArgs {
            h_path: "test_crate_cc_api.h".to_string(),
            cmdline_error: None,
            compiler_error: None,
            write_error: None,
        }
    }

    fn with_h_path(mut self, h_path: &str) -> Self {
        self.h_path = h_path.to_string();
        self
    }

    fn with_panic_mechanism(mut self, panic_mechanism: &str) -> Self {
        if panic_mechanism == "unwind" {
            self.compiler_error =
                Some("No support for panic=unwind strategy (b/254049425)".to_string());
        }
        self
    }

    fn with_extra_rustc_args(mut self, extra_rustc_args: &[&str]) -> Self {
        if !extra_rustc_args.is_empty() {
            self.compiler_error = Some("Errors reported by Rust compiler.".to_string());
        }
        self
    }

    fn with_extra_crubit_args(mut self, extra_crubit_args: &[&str]) -> Self {
        if let Some(arg) = extra_crubit_args.first() {
            self.cmdline_error = Some(format!(
                "error: Found argument '{}' which wasn't expected, or isn't valid in this context",
                arg
            ));
        }
        self
    }

    fn with_unwritable(mut self, path: &str, cause: &str) -> Self {
        self.h_path = path.to_string();
        self.write_error = Some(cause.to_string());
        self
    }

    fn cmdline(&self) -> Cmdline {
        Cmdline {
            h_out: self.h_path.clone(),
            rs_out: "test_crate_cc_api_impl.rs".to_string(),
            crubit_support_path: "crubit/support/for/tests".to_string(),
            clang_format_exe_path: "clang-format".to_string(),
            rustfmt_exe_path: "rustfmt".to_string(),
            rustfmt_config_path: None,
            rustc_args: vec!["--crate-type=lib".to_string(), "test_crate.rs".to_string()],
        }
    }

    fn run(&self) -> RunResult {
        let mut written = Vec::new();
        let mut state = RunState::Start;
        let mut event = RunEvent::Begin { args: vec!["cc_bindings_from_rs".to_string()] };
        for _ in 0..20 {
            let (next, action) = run_with_cmdline_args(state, event);
            state = next;
            event = match action {
                RunAction::ParseCmdline { args } => {
                    assert_eq!(args, vec!["cc_bindings_from_rs".to_string()]);
                    RunEvent::Parsed(match &self.cmdline_error {
                        Some(e) => Err(e.clone()),
                        None => Ok(self.cmdline()),
                    })
                }
                RunAction::RunCompiler { rustc_args, crubit_support_path } => {
                    assert_eq!(rustc_args, self.cmdline().rustc_args);
                    assert_eq!(crubit_support_path, "crubit/support/for/tests");
                    RunEvent::Generated(match &self.compiler_error {
                        Some(e) => Err(e.clone()),
                        None => Ok(Bindings {
                            h_body: "header".to_string(),
                            rs_body: "impl".to_string(),
                        }),
                    })
                }
                RunAction::FormatHeader { h_body, clang_format_exe_path } => {
                    assert_eq!(clang_format_exe_path, "clang-format");
                    RunEvent::Formatted(Ok(format!("formatted {}", h_body)))
                }
                RunAction::FormatImpl { rs_body, rustfmt_exe_path, rustfmt_config_path } => {
                    assert_eq!(rustfmt_exe_path, "rustfmt");
                    assert_eq!(rustfmt_config_path, None);
                    RunEvent::Formatted(Ok(format!("formatted {}", rs_body)))
                }
                RunAction::WriteFile { path, content } => match &self.write_error {
                    Some(cause) if path == self.h_path => RunEvent::Written(Err(cause.clone())),
                    _ => {
                        written.push((path, content));
                        RunEvent::Written(Ok(()))
                    }
                },
                RunAction::Finish(result) => {
                    assert_eq!(state, RunState::Done);
                    return RunResult { written, result };
                }
            };
        }
        panic!("the run did not end");
    }
}

#[test]
fn test_happy_path() {
    let test_args = TestArgs::default_args();
    let test_result = test_args.run();
    assert_eq!(test_result.result, Ok(()));
    assert_eq!(
        test_result.written,
        vec![
            ("test_crate_cc_api.h".to_string(), "formatted header".to_string()),
            ("test_crate_cc_api_impl.rs".to_string(), "formatted impl".to_string()),
        ]
    );
}

#[test]
fn test_cmdline_error_propagation() {
    let err = TestArgs::default_args()
        .with_extra_crubit_args(&["--unrecognized-crubit-flag"])
        .run()
        .result
        .expect_err("--unrecognized_crubit_flag should trigger an error");
    let msg = err.message();
    assert!(
        msg.contains("Found argument '--unrecognized-crubit-flag' which wasn't expected"),
        "msg = {}",
        msg,
    );
}

#[test]
fn test_run_compiler_error_propagation() {
    let err = TestArgs::default_args()
        .with_extra_rustc_args(&["--unrecognized-rustc-flag"])
        .run()
        .result
        .expect_err("--unrecognized-rustc-flag should trigger an error");
    assert_eq!("Errors reported by Rust compiler.", err.message());
}

#[test]
fn test_rustc_unsupported_panic_mechanism() {
    let err = TestArgs::default_args()
        .with_panic_mechanism("unwind")
        .run()
        .result
        .expect_err("panic=unwind should trigger an error");
    assert_eq!("No support for panic=unwind strategy (b/254049425)", err.message());
}

#[test]
fn test_invalid_h_out_path() {
    let run = TestArgs::default_args()
        .with_h_path("../..")
        .with_unwritable("../..", "Is a directory (os error 21)")
        .run();
    let err = run.result.expect_err("Unwriteable --h-out should trigger an error");
    assert_eq!("Error when writing to ../..: Is a directory (os error 21)", err.message());
    assert!(run.written.is_empty());
}

#[test]
fn a_format_failure_ends_the_run() {
    let outputs = TestArgs::default_args().cmdline();
    let (state, _) = run_with_cmdline_args(RunState::Parsing, RunEvent::Parsed(Ok(outputs)));
    let (state, _) = run_with_cmdline_args(
        state,
        RunEvent::Generated(Ok(Bindings { h_body: "h".to_string(), rs_body: "r".to_string() })),
    );
    let (state, action) =
        run_with_cmdline_args(state, RunEvent::Formatted(Err("clang-format failed".to_string())));
    assert_eq!(state, RunState::Done);
    assert_eq!(
        action,
        RunAction::Finish(Err(RunError::Format("clang-format failed".to_string())))
    );
}

#[test]
fn an_unexpected_event_ends_the_run() {
    let (state, action) = run_with_cmdline_args(RunState::Start, RunEvent::Written(Ok(())));
    assert_eq!(state, RunState::Done);
    assert_eq!(action, RunAction::Finish(Err(RunError::UnexpectedEvent)));
    let (state, action) =
        run_with_cmdline_args(RunState::Done, RunEvent::Begin { args: vec![] });
    assert_eq!(state, RunState::Done);
    assert_eq!(action, RunAction::Finish(Err(RunError::UnexpectedEvent)));
    assert_eq!(RunError::UnexpectedEvent.message(), "The run was not waiting for this step");
}

#[test]
fn a_failure_to_write_the_implementation_names_its_path() {
    let (state, action) = run_with_cmdline_args(
        RunState::WritingImpl {
            outputs: binding_ir::run::Outputs {
                h_out: "a.h".to_string(),
                rs_out: "a.rs".to_string(),
                clang_format_exe_path: "clang-format".to_string(),
                rustfmt_exe_path: "rustfmt".to_string(),
                rustfmt_config_path: Some("rustfmt.toml".to_string()),
            },
        },
        RunEvent::Written(Err("No space left on device (os error 28)".to_string())),
    );
    assert_eq!(state, RunState::Done);
    match action {
        RunAction::Finish(Err(e)) => assert_eq!(
            e.message(),
            "Error when writing to a.rs: No space left on device (os error 28)"
        ),
        other => panic!("unexpected action {:?}", other),
    }
}
