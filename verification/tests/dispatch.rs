use gl_cli::cli::{Eval, Fmt, Opts, Repl, Run, SubCommand};
use gl_cli::dispatch::{
    chain, exit_status, open, resolve, select, Malformed, Mode, Next, Parsed,
};
use gl_cli::eval::{finish_eval, start_eval};
use gl_cli::pipeline::{Echo, Failure, Finished, Outcome};
use gl_cli::repl::{Input, Phase, Turn};
use gl_cli::run::{finish_run, start_run, RunStart};
use gl_cli::script::Probe;
use gl_cli::session::Session;

type Bindings = Vec<(String, i64)>;

fn words(items: &[&str]) -> Vec<String> {
    items.iter().map(|item| item.to_string()).collect()
}

fn failure(message: &str) -> Failure {
    Failure { message: message.to_string(), position: None }
}

/// Runs the statements of `source` one by one: `name = number` binds, and
/// anything else fails. What was bound before the failure stays bound.
fn pipeline(bindings: &mut Bindings, source: &str) -> Outcome {
    for statement in source.lines() {
        match statement.split_once('=') {
            Some((name, value)) => match value.trim().parse::<i64>() {
                Ok(number) => bindings.push((name.trim().to_string(), number)),
                Err(_) => return Outcome::Failed(failure("not a number")),
            },
            None => return Outcome::Failed(failure("not a statement")),
        }
    }
    Outcome::Nothing
}

#[test]
fn parsed_command_line_is_taken_as_it_is() {
    let opts = Opts {
        subcmd: SubCommand::Fmt(Fmt { filename: "a.gl".to_string(), format_args: vec![] }),
    };
    assert_eq!(
        resolve(Parsed::Matched(opts)),
        Some(SubCommand::Fmt(Fmt { filename: "a.gl".to_string(), format_args: vec![] }))
    );
}

#[test]
fn no_subcommand_means_the_interactive_loop() {
    assert_eq!(resolve(Parsed::NoSubcommand), Some(SubCommand::Repl(Repl {})));
}

#[test]
fn refused_command_line_runs_nothing() {
    assert_eq!(resolve(Parsed::Refused), None);
}

#[test]
fn repl_subcommand_selects_the_loop() {
    assert_eq!(select(SubCommand::Repl(Repl {})), Ok(Mode::Repl));
}

#[test]
fn eval_takes_the_first_argument_as_code() {
    let eval = Eval { inspect: false, code_args: words(&["1 + 1", "extra", "more"]) };
    assert_eq!(
        select(SubCommand::Eval(eval)),
        Ok(Mode::Eval { source: "1 + 1".to_string(), inspect: false })
    );
}

#[test]
fn eval_keeps_the_inspect_flag() {
    let eval = Eval { inspect: true, code_args: words(&["x"]) };
    assert_eq!(
        select(SubCommand::Eval(eval)),
        Ok(Mode::Eval { source: "x".to_string(), inspect: true })
    );
}

#[test]
fn eval_without_code_is_malformed() {
    let eval = Eval { inspect: true, code_args: vec![] };
    assert_eq!(select(SubCommand::Eval(eval)), Err(Malformed::NoCode));
}

#[test]
fn run_takes_the_first_argument_as_script() {
    let run = Run { inspect: true, script_args: words(&["main.gl", "--flag", "value"]) };
    assert_eq!(
        select(SubCommand::Run(run)),
        Ok(Mode::Run { filename: "main.gl".to_string(), inspect: true })
    );
}

#[test]
fn run_without_script_is_malformed() {
    let run = Run { inspect: false, script_args: vec![] };
    assert_eq!(select(SubCommand::Run(run)), Err(Malformed::NoScript));
}

#[test]
fn fmt_takes_the_filename_and_drops_the_rest() {
    let fmt = Fmt { filename: "lib.gl".to_string(), format_args: words(&["--check"]) };
    assert_eq!(select(SubCommand::Fmt(fmt)), Ok(Mode::Fmt { filename: "lib.gl".to_string() }));
}

#[test]
fn loop_session_is_called_repl() {
    let session = open(&Mode::Repl, 7u8).ok().unwrap();
    assert_eq!(session.module(), "repl");
    assert_eq!(session.close(), 7);
}

#[test]
fn eval_session_is_called_eval() {
    let mode = Mode::Eval { source: "1".to_string(), inspect: false };
    let session = open(&mode, 7u8).ok().unwrap();
    assert_eq!(session.module(), "eval");
}

#[test]
fn run_session_is_called_by_the_script_path() {
    let mode = Mode::Run { filename: "dir/main.gl".to_string(), inspect: false };
    let session = open(&mode, 7u8).ok().unwrap();
    assert_eq!(session.module(), "dir/main.gl");
}

#[test]
fn fmt_has_no_session() {
    let mode = Mode::Fmt { filename: "main.gl".to_string() };
    match open(&mode, 7u8) {
        Err(unused) => assert_eq!(unused, 7),
        Ok(_) => panic!("formatting runs without a session"),
    }
}

#[test]
fn without_inspect_a_failure_is_shown_and_the_process_is_done() {
    let end = Finished {
        session: Session::new(0u8, "eval".to_string()),
        echo: None,
        result: Err(failure("division by zero")),
    };
    match chain(end, false, None) {
        Next::Done { show, session } => {
            assert_eq!(show, vec![Echo::Stderr("division by zero".to_string())]);
            assert_eq!(session.module(), "eval");
        },
        Next::Inspect { .. } => panic!("no inspection was asked for"),
    }
}

#[test]
fn without_inspect_success_shows_only_what_the_mode_showed() {
    let end = Finished {
        session: Session::new(0u8, "eval".to_string()),
        echo: Some(Echo::Stdout("2".to_string())),
        result: Ok(()),
    };
    match chain(end, false, Some(words(&["old"]))) {
        Next::Done { show, .. } => assert_eq!(show, vec![Echo::Stdout("2".to_string())]),
        Next::Inspect { .. } => panic!("no inspection was asked for"),
    }
}

#[test]
fn with_inspect_the_loop_opens_after_an_empty_line() {
    let end = Finished {
        session: Session::new(0u8, "eval".to_string()),
        echo: Some(Echo::Stdout("2".to_string())),
        result: Ok(()),
    };
    match chain(end, true, Some(words(&["old"]))) {
        Next::Inspect { show, repl } => {
            assert_eq!(show, vec![Echo::Stdout("2".to_string()), Echo::Stdout(String::new())]);
            assert_eq!(repl.phase(), Phase::AwaitingInput);
            assert_eq!(repl.module(), "eval");
            assert_eq!(repl.history(), &words(&["old"]));
        },
        Next::Done { .. } => panic!("inspection was asked for"),
    }
}

#[test]
fn with_inspect_a_failure_is_shown_before_the_loop_opens() {
    let end = Finished {
        session: Session::new(0u8, "main.gl".to_string()),
        echo: None,
        result: Err(failure("boom")),
    };
    match chain(end, true, None) {
        Next::Inspect { show, repl } => {
            assert_eq!(
                show,
                vec![Echo::Stderr("boom".to_string()), Echo::Stdout(String::new())]
            );
            assert_eq!(repl.module(), "main.gl");
            assert!(repl.history().is_empty());
        },
        Next::Done { .. } => panic!("inspection was asked for"),
    }
}

#[test]
fn failed_run_with_inspect_enters_the_loop_with_earlier_bindings() {
    let mode = Mode::Run { filename: "main.gl".to_string(), inspect: true };
    let session = open(&mode, Bindings::new()).ok().unwrap();
    let there = Probe { exists: true, is_file: true };
    let mut call = match start_run("main.gl".to_string(), there, session) {
        RunStart::Load(file) => file.loaded("a = 1\nb = 2\nfail here\nc = 3".to_string()),
        RunStart::Rejected(_) => panic!("the script is there"),
    };
    let source = call.unit().text().to_string();
    let outcome = pipeline(call.environment(), &source);
    let end = finish_run(call, outcome);
    assert_eq!(end.result, Err(failure("not a statement")));
    match chain(end, true, None) {
        Next::Inspect { show, repl } => {
            assert_eq!(
                show,
                vec![Echo::Stderr("not a statement".to_string()), Echo::Stdout(String::new())]
            );
            assert_eq!(repl.module(), "main.gl");
            match repl.feed(Input::Line("d = 4".to_string())) {
                Turn::Submit(mut pending) => {
                    let expected = vec![("a".to_string(), 1), ("b".to_string(), 2)];
                    assert_eq!(pending.environment(), &expected);
                },
                _ => panic!("the line should be submitted"),
            }
        },
        Next::Done { .. } => panic!("inspection was asked for"),
    }
}

#[test]
fn rejected_run_with_inspect_still_enters_the_loop() {
    let session = Session::new(Bindings::new(), "missing.gl".to_string());
    let absent = Probe { exists: false, is_file: false };
    let end = match start_run("missing.gl".to_string(), absent, session) {
        RunStart::Rejected(end) => end,
        RunStart::Load(_) => panic!("nothing is there to load"),
    };
    match chain(end, true, None) {
        Next::Inspect { show, repl } => {
            assert_eq!(
                show,
                vec![
                    Echo::Stderr("GL: Can't open file 'missing.gl': No such file".to_string()),
                    Echo::Stdout(String::new()),
                ]
            );
            assert_eq!(repl.phase(), Phase::AwaitingInput);
        },
        Next::Done { .. } => panic!("inspection was asked for"),
    }
}

#[test]
fn eval_with_inspect_keeps_what_the_code_bound() {
    let mode = Mode::Eval { source: "x = 41".to_string(), inspect: true };
    let session = open(&mode, Bindings::new()).ok().unwrap();
    let mut call = start_eval("x = 41".to_string(), session);
    let source = call.unit().text().to_string();
    let outcome = pipeline(call.environment(), &source);
    match chain(finish_eval(call, outcome), true, None) {
        Next::Inspect { show, repl } => {
            assert_eq!(show, vec![Echo::Stdout(String::new())]);
            match repl.feed(Input::EndOfInput) {
                Turn::Exit(end) => {
                    assert_eq!(end.session.close(), vec![("x".to_string(), 41)])
                },
                _ => panic!("the end of input ends the loop"),
            }
        },
        Next::Done { .. } => panic!("inspection was asked for"),
    }
}

#[test]
fn selected_mode_ends_with_success() {
    assert_eq!(exit_status(&Ok(Mode::Repl)), 0);
    assert_eq!(exit_status(&Ok(Mode::Fmt { filename: "missing.txt".to_string() })), 0);
    assert_eq!(exit_status(&Ok(Mode::Run { filename: "x".to_string(), inspect: false })), 0);
}

#[test]
fn malformed_command_line_ends_with_status_two() {
    assert_eq!(exit_status(&Err(Malformed::NoCode)), 2);
    assert_eq!(exit_status(&Err(Malformed::NoScript)), 2);
}
