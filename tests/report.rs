use cargo_flatpak::cli::{
    bin_name, Exit, Label, Report, Reportable, Stream, Termination, WrapOptions,
};
use cargo_flatpak::colors::{self, Color};
use cargo_flatpak::error::Error;

#[test]
fn error_report_at_width_80() {
    let report = Report::error("Failed to create directory \"/tmp/x\"", "permission denied");
    let text = report.format(&WrapOptions::new(80), false);
    let lines: Vec<&str> = text.lines().collect();
    assert!(lines[0].starts_with("error: Failed to create directory"));
    assert_eq!(lines[0], "error: Failed to create directory \"/tmp/x\"");
    assert_eq!(lines[1], "    permission denied");
    assert_eq!(text, "error: Failed to create directory \"/tmp/x\"\n    permission denied\n");
    assert_eq!(report.exit_code(), 1);
    assert_eq!(report.stream(), Stream::Stderr);
}

#[test]
fn victory_goes_to_stdout_with_code_zero() {
    let report = Report::victory("Done", "");
    assert_eq!(report.exit_code(), 0);
    assert_eq!(report.stream(), Stream::Stdout);
    assert_eq!(report.label(), Label::Victory);
    let text = report.format(&WrapOptions::new(80), false);
    assert!(text.starts_with("victory: Done\n"));
}

#[test]
fn exit_code_is_zero_only_for_victory() {
    assert_eq!(Label::Victory.exit_code(), 0);
    assert_eq!(Label::Error.exit_code(), 1);
    assert_eq!(Label::ActionRequest.exit_code(), 1);
    assert_eq!(Report::action_request("Do it", "now").exit_code(), 1);
    assert_eq!(Report::new(Label::Victory, "a", "b").exit_code(), 0);
}

#[test]
fn labels_text_and_color() {
    assert_eq!(Label::Error.as_str(), "error");
    assert_eq!(Label::ActionRequest.as_str(), "action request");
    assert_eq!(Label::Victory.as_str(), "victory");
    assert_eq!(Label::Error.color(), Color::BrightRed);
    assert_eq!(Label::ActionRequest.color(), colors::ACTION_REQUEST);
    assert_eq!(Label::Victory.color(), Color::BrightGreen);
    assert_eq!(colors::WARNING, Color::BrightYellow);
}

#[test]
fn plain_format_holds_label_message_and_details() {
    let cases = [
        (Label::Error, "error"),
        (Label::ActionRequest, "action request"),
        (Label::Victory, "victory"),
    ];
    for (label, text) in cases {
        let report = Report::new(label, "the message", "the details");
        let out = report.format(&WrapOptions::new(80), false);
        assert_eq!(out, format!("{}: the message\n    the details\n", text));
        assert!(!out.contains('\x1b'));
    }
}

#[test]
fn plain_format_wraps_long_lines() {
    let report = Report::error("one two three four five six", "alpha beta gamma delta");
    let out = report.format(&WrapOptions::new(12), false);
    assert!(!out.contains('\x1b'));
    let lines: Vec<&str> = out.lines().collect();
    assert!(lines.len() > 2);
    assert!(lines.iter().all(|l| l.chars().count() <= 12));
    assert!(lines[0].starts_with("error:"));
    assert!(lines.iter().any(|l| l.starts_with("    ")));
}

#[test]
fn colored_format_keeps_the_text() {
    let report = Report::action_request("Please act", "details here");
    let plain = report.format(&WrapOptions::new(80), false);
    let colored = report.format(&WrapOptions::new(80), true);
    assert!(colored.contains("Please act"));
    assert!(colored.ends_with("    details here\n"));
    if !colored.contains('\x1b') {
        assert_eq!(colored, plain);
    }
}

#[test]
fn parser_error_makes_no_report() {
    let exit: Exit<String> = Exit::Clap(String::from("unexpected argument '--bogus'"));
    match exit.termination(&WrapOptions::new(80)) {
        Termination::Parser(e) => assert_eq!(e, "unexpected argument '--bogus'"),
        Termination::Print { .. } => panic!("a parser error must not print a report"),
    }
}

#[test]
fn report_exit_prints_to_stream_of_label() {
    let exit: Exit<String> = Exit::Report(Report::victory("Done", "all good"));
    match exit.termination(&WrapOptions::new(80)) {
        Termination::Print { text, stream, code } => {
            assert_eq!(stream, Stream::Stdout);
            assert_eq!(code, 0);
            assert!(text.contains("Done"));
            assert!(text.contains("all good"));
        }
        Termination::Parser(_) => panic!("a report must be printed"),
    }
}

#[test]
fn error_converts_to_report() {
    let err = Error::DirCreationFailed {
        path: String::from("/tmp/x"),
        source: String::from("permission denied"),
    };
    let report = err.report();
    assert_eq!(report.exit_code(), 1);
    assert_eq!(
        report.format(&WrapOptions::new(80), false),
        "error: Failed to create directory \"/tmp/x\"\n    permission denied\n"
    );
    let err = Error::DirChangeFailed {
        path: String::from("/a b"),
        source: String::from("not found"),
    };
    assert_eq!(
        err.to_report().format(&WrapOptions::new(80), false),
        "error: Failed to change current directory \"/a b\"\n    not found\n"
    );
    let exit: Exit<String> = Exit::report(&err);
    match exit.termination(&WrapOptions::new(80)) {
        Termination::Print { stream, code, .. } => {
            assert_eq!(stream, Stream::Stderr);
            assert_eq!(code, 1);
        }
        Termination::Parser(_) => panic!("a report must be printed"),
    }
}

#[test]
fn error_path_is_escaped_like_debug() {
    let err = Error::DirCreationFailed {
        path: String::from("/tmp/a\"b\n"),
        source: String::from("x"),
    };
    let out = err.to_report().format(&WrapOptions::new(200), false);
    assert!(out.starts_with(&format!("error: Failed to create directory {:?}", "/tmp/a\"b\n")));
}

#[test]
fn bin_name_prefixes_cargo() {
    assert_eq!(bin_name("flatpak"), "cargo flatpak");
    assert_eq!(bin_name(""), "cargo ");
}

#[test]
fn terminal_width_is_positive() {
    assert!(WrapOptions::with_termwidth().width > 0);
}

#[test]
fn outcome_becomes_exit() {
    let ok: Result<(), Error> = Ok(());
    assert!(Exit::<String>::from_outcome(ok).is_ok());
    let failed: Result<(), Error> = Err(Error::DirChangeFailed {
        path: String::from("/x"),
        source: String::from("gone"),
    });
    match Exit::<String>::from_outcome(failed) {
        Err(Exit::Report(report)) => {
            assert_eq!(report.label(), Label::Error);
            assert_eq!(report.exit_code(), 1);
        }
        _ => panic!("a failed command must end with its report"),
    }
}
