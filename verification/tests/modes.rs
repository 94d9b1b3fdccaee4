use gl_cli::eval::{finish_eval, start_eval};
use gl_cli::fmt::{finish_fmt, start_fmt};
use gl_cli::pipeline::{report, Echo, Failure, Invocation, Outcome, Position};
use gl_cli::run::{finish_run, start_run, RunStart};
use gl_cli::script::Probe;
use gl_cli::session::Session;
use gl_cli::source::{Origin, SourceUnit};

const THERE: Probe = Probe { exists: true, is_file: true };
const ABSENT: Probe = Probe { exists: false, is_file: false };

fn session(module: &str) -> Session<Vec<u8>> {
    Session::new(Vec::new(), module.to_string())
}

fn failure(message: &str) -> Failure {
    Failure { message: message.to_string(), position: Some(Position { line: 2, column: 5 }) }
}

#[test]
fn session_keeps_its_module_while_the_environment_changes() {
    let mut session = session("repl");
    session.environment().push(1);
    session.environment().push(2);
    assert_eq!(session.module(), "repl");
    assert_eq!(session.close(), vec![1, 2]);
}

#[test]
fn source_unit_holds_text_and_origin() {
    let unit = SourceUnit::new(Origin::File, "x = 1\n".to_string());
    assert_eq!(unit.origin(), Origin::File);
    assert_eq!(unit.text(), "x = 1\n");
    assert_eq!(unit.into_text(), "x = 1\n");
}

#[test]
fn invocation_lends_the_environment_and_returns_the_session() {
    let unit = SourceUnit::new(Origin::Inline, "1".to_string());
    let mut call = Invocation::new(session("eval"), unit);
    assert_eq!(call.module(), "eval");
    assert_eq!(call.unit().text(), "1");
    call.environment().push(9);
    let session = call.finish();
    assert_eq!(session.module(), "eval");
    assert_eq!(session.close(), vec![9]);
}

#[test]
fn eval_prepares_one_inline_unit() {
    let call = start_eval("1 + 1".to_string(), session("eval"));
    assert_eq!(call.unit().origin(), Origin::Inline);
    assert_eq!(call.unit().text(), "1 + 1");
    assert_eq!(call.module(), "eval");
}

#[test]
fn eval_prints_a_value() {
    let call = start_eval("1 + 1".to_string(), session("eval"));
    let end = finish_eval(call, Outcome::Value("2".to_string()));
    assert_eq!(end.echo, Some(Echo::Stdout("2".to_string())));
    assert_eq!(end.result, Ok(()));
}

#[test]
fn eval_prints_nothing_for_no_value() {
    let call = start_eval("x = 1".to_string(), session("eval"));
    let end = finish_eval(call, Outcome::Nothing);
    assert_eq!(end.echo, None);
    assert_eq!(end.result, Ok(()));
}

#[test]
fn eval_passes_a_failure_on_unchanged() {
    let call = start_eval("1 +".to_string(), session("eval"));
    let end = finish_eval(call, Outcome::Failed(failure("unexpected end")));
    assert_eq!(end.echo, None);
    assert_eq!(end.result, Err(failure("unexpected end")));
}

#[test]
fn eval_hands_back_the_session_as_the_pipeline_left_it() {
    let mut call = start_eval("x = 1".to_string(), session("eval"));
    call.environment().push(1);
    let end = finish_eval(call, Outcome::Nothing);
    assert_eq!(end.session.module(), "eval");
    assert_eq!(end.session.close(), vec![1]);
}

#[test]
fn run_of_a_missing_file_complains_and_succeeds() {
    match start_run("missing.gl".to_string(), ABSENT, session("missing.gl")) {
        RunStart::Rejected(end) => {
            assert_eq!(
                end.echo,
                Some(Echo::Stderr("GL: Can't open file 'missing.gl': No such file".to_string()))
            );
            assert_eq!(end.result, Ok(()));
            assert_eq!(end.session.module(), "missing.gl");
        },
        RunStart::Load(_) => panic!("nothing is there to load"),
    }
}

#[test]
fn run_of_a_wrong_extension_never_reaches_the_pipeline() {
    match start_run("notes.txt".to_string(), THERE, session("notes.txt")) {
        RunStart::Rejected(end) => {
            assert_eq!(
                end.echo,
                Some(Echo::Stderr(
                    "GL: Invalid file extension, expected file with extension '.gl'".to_string()
                ))
            );
            assert_eq!(end.result, Ok(()));
            assert_eq!(end.session.close(), Vec::<u8>::new());
        },
        RunStart::Load(_) => panic!("a file with another extension is not loaded"),
    }
}

#[test]
fn run_loads_the_whole_file_as_one_unit() {
    match start_run("main.gl".to_string(), THERE, session("main.gl")) {
        RunStart::Load(file) => {
            assert_eq!(file.path(), "main.gl");
            let call = file.loaded("a = 1\nb = 2\n".to_string());
            assert_eq!(call.unit().origin(), Origin::File);
            assert_eq!(call.unit().text(), "a = 1\nb = 2\n");
            assert_eq!(call.module(), "main.gl");
        },
        RunStart::Rejected(_) => panic!("the script is there"),
    }
}

#[test]
fn run_drops_the_value() {
    let call = match start_run("main.gl".to_string(), THERE, session("main.gl")) {
        RunStart::Load(file) => file.loaded("1 + 1".to_string()),
        RunStart::Rejected(_) => panic!("the script is there"),
    };
    let end = finish_run(call, Outcome::Value("2".to_string()));
    assert_eq!(end.echo, None);
    assert_eq!(end.result, Ok(()));
}

#[test]
fn run_passes_a_failure_on_unchanged() {
    let call = match start_run("main.gl".to_string(), THERE, session("main.gl")) {
        RunStart::Load(file) => file.loaded("1 +".to_string()),
        RunStart::Rejected(_) => panic!("the script is there"),
    };
    let end = finish_run(call, Outcome::Failed(failure("unexpected end")));
    assert_eq!(end.echo, None);
    assert_eq!(end.result, Err(failure("unexpected end")));
}

#[test]
fn run_of_a_file_that_cannot_be_read_complains_and_succeeds() {
    match start_run("main.gl".to_string(), THERE, session("main.gl")) {
        RunStart::Load(file) => {
            let end = file.unreadable();
            assert_eq!(
                end.echo,
                Some(Echo::Stderr("GL: Can't open file 'main.gl': No such file".to_string()))
            );
            assert_eq!(end.result, Ok(()));
        },
        RunStart::Rejected(_) => panic!("the script is there"),
    }
}

#[test]
fn fmt_turns_away_what_the_runner_turns_away() {
    assert_eq!(
        start_fmt("missing.gl", ABSENT),
        Some("GL: Can't open file 'missing.gl': No such file".to_string())
    );
    assert_eq!(
        start_fmt("notes.txt", THERE),
        Some("GL: Invalid file extension, expected file with extension '.gl'".to_string())
    );
    assert_eq!(start_fmt("main.gl", THERE), None);
}

#[test]
fn fmt_writes_the_rendered_text() {
    let end = finish_fmt(Ok("x = 1\n".to_string()));
    assert_eq!(end.write, Some("x = 1\n".to_string()));
    assert_eq!(end.result, Ok(()));
}

#[test]
fn fmt_leaves_the_file_alone_when_parsing_fails() {
    let end = finish_fmt(Err(failure("unexpected token")));
    assert_eq!(end.write, None);
    assert_eq!(end.result, Err(failure("unexpected token")));
}

#[test]
fn failure_is_reported_by_its_message_on_the_error_stream() {
    assert_eq!(
        report(Err(failure("stack overflow"))),
        Some(Echo::Stderr("stack overflow".to_string()))
    );
    assert_eq!(report(Ok(())), None);
}

/// Stands for parsing and rendering: one space around each `=`, one line feed
/// at the end, and a failure for text without any `=`.
fn render(text: &str) -> Result<String, Failure> {
    match text.split_once('=') {
        Some((name, value)) => Ok(format!("{} = {}\n", name.trim(), value.trim())),
        None => Err(failure("nothing to format")),
    }
}

fn format_file(contents: &str) -> String {
    match finish_fmt(render(contents)).write {
        Some(text) => text,
        None => contents.to_string(),
    }
}

#[test]
fn formatting_twice_leaves_what_formatting_once_left() {
    for contents in ["x=1", "  y   =  2  ", "z = 3\n", "no assignment", ""] {
        let once = format_file(contents);
        assert_eq!(format_file(&once), once);
    }
    assert_eq!(format_file("x=1"), "x = 1\n");
    assert_eq!(format_file("no assignment"), "no assignment");
}
