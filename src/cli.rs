use vstd::prelude::*;
use vstd::string::*;

use crate::colors::{self, Color};
use colored::Colorize;

verus! {

/// The name under which cargo runs a subcommand called `name`.
pub fn bin_name(name: &str) -> (r: String)
    ensures
        r@ == "cargo "@ + name@,
{
    let mut out = String::from_str("cargo ");
    out.append(name);
    out
}

/// The short version text.
pub const VERSION_SHORT: &'static str = "v0.1.0";

/// Flags that every command takes.
#[derive(Clone, Copy, Debug, PartialEq, Eq, Structural)]
pub struct GlobalFlags {
    /// How many times `-v` was given.
    pub verbose: u8,
    /// Never prompt for input.
    pub non_interactive: bool,
}

/// Skip optional tools that help when writing code.
#[derive(Clone, Copy, Debug, PartialEq, Eq, Structural)]
pub struct SkipDevTools {
    pub skip_dev_tools: bool,
}

/// Reinstall dependencies.
#[derive(Clone, Copy, Debug, PartialEq, Eq, Structural)]
pub struct ReinstallDeps {
    pub reinstall_deps: bool,
}

/// The kind of a report.
#[derive(Clone, Copy, Debug, PartialEq, Eq, Structural)]
pub enum Label {
    Error,
    ActionRequest,
    Victory,
}

pub open spec fn label_color(l: Label) -> Color {
    match l {
        Label::Error => colors::ERROR,
        Label::ActionRequest => colors::ACTION_REQUEST,
        Label::Victory => colors::VICTORY,
    }
}

pub open spec fn label_exit_code(l: Label) -> i8 {
    match l {
        Label::Victory => 0,
        _ => 1,
    }
}

pub open spec fn label_text(l: Label) -> Seq<char> {
    match l {
        Label::Error => "error"@,
        Label::ActionRequest => "action request"@,
        Label::Victory => "victory"@,
    }
}

impl Label {
    pub fn color(&self) -> (r: Color)
        ensures
            r == label_color(*self),
    {
        match self {
            Label::Error => colors::ERROR,
            Label::ActionRequest => colors::ACTION_REQUEST,
            Label::Victory => colors::VICTORY,
        }
    }

    pub fn exit_code(&self) -> (r: i8)
        ensures
            r == label_exit_code(*self),
            r == 0 <==> *self == Label::Victory,
    {
        match self {
            Label::Victory => 0,
            _ => 1,
        }
    }

    pub fn as_str(&self) -> (r: &'static str)
        ensures
            r@ == label_text(*self),
    {
        match self {
            Label::Error => "error",
            Label::ActionRequest => "action request",
            Label::Victory => "victory",
        }
    }
}

/// How a report is wrapped: the width of a line. Words are never hyphenated.
#[derive(Clone, Copy, Debug, PartialEq, Eq, Structural)]
pub struct WrapOptions {
    pub width: usize,
}

/// Relies on textwrap::termwidth: the width of the terminal, or a fallback
/// where there is none. It depends on the terminal.
#[verifier::external_body]
fn terminal_width() -> (r: usize) {
    textwrap::termwidth()
}

impl WrapOptions {
    pub fn new(width: usize) -> (r: WrapOptions)
        ensures
            r.width == width,
    {
        WrapOptions { width }
    }

    /// Wraps to the width of the terminal.
    pub fn with_termwidth() -> (r: WrapOptions) {
        WrapOptions { width: terminal_width() }
    }
}

/// What textwrap makes of `text` at `width`, with `indent` before every line.
pub uninterp spec fn wrapped(text: Seq<char>, width: nat, indent: Seq<char>) -> Seq<char>;

/// Relies on textwrap::fill, with the same indent on every line and no
/// hyphenation: the result depends on its arguments alone, and holds only
/// characters of the text, of the indent, and line breaks.
#[verifier::external_body]
fn fill(text: &str, width: usize, indent: &str) -> (r: String)
    ensures
        r@ == wrapped(text@, width as nat, indent@),
        forall|i: int|
            0 <= i < r@.len() ==> #[trigger] r@[i] == '\n' || text@.contains(r@[i])
                || indent@.contains(r@[i]),
{
    let options = textwrap::Options::new(width).word_splitter(
        textwrap::WordSplitter::NoHyphenation,
    ).initial_indent(indent).subsequent_indent(indent);
    textwrap::fill(text, &options)
}

/// Relies on colored::control::SHOULD_COLORIZE: whether the output should be
/// colored, as decided from the environment and the terminal.
#[verifier::external_body]
fn colorize_wanted() -> (r: bool) {
    colored::control::SHOULD_COLORIZE.should_colorize()
}

/// `s` holds the reset sequence somewhere.
pub open spec fn has_reset(s: Seq<char>) -> bool {
    exists|i: int| 0 <= i <= s.len() - 4 && #[trigger] s.subrange(i, i + 4) == "\x1b[0m"@
}

/// `out` is what colored may write for `text`: the text itself where colors
/// are off, otherwise the text between a style sequence `ESC [ ... m` and a
/// reset. Only a text that holds a reset itself is changed inside.
pub open spec fn is_painting_of(out: Seq<char>, text: Seq<char>) -> bool {
    ||| out == text
    ||| exists|style: Seq<char>, inner: Seq<char>|
        {
            &&& style.len() >= 3
            &&& style[0] == '\x1b'
            &&& style[1] == '['
            &&& style.last() == 'm'
            &&& #[trigger] (style + inner + "\x1b[0m"@) == out
            &&& !has_reset(text) ==> inner == text
        }
}

/// Relies on colored's `Colorize::color` and the display of the result.
#[verifier::external_body]
fn paint(text: &str, color: Color) -> (r: String)
    ensures
        is_painting_of(r@, text@),
{
    let c = match color {
        Color::BrightRed => colored::Color::BrightRed,
        Color::BrightYellow => colored::Color::BrightYellow,
        Color::BrightMagenta => colored::Color::BrightMagenta,
        Color::BrightGreen => colored::Color::BrightGreen,
    };
    text.color(c).to_string()
}

/// Relies on colored's `Colorize::bold` on a colored text, and the display of
/// the result.
#[verifier::external_body]
fn paint_bold(text: &str, color: Color) -> (r: String)
    ensures
        is_painting_of(r@, text@),
{
    let c = match color {
        Color::BrightRed => colored::Color::BrightRed,
        Color::BrightYellow => colored::Color::BrightYellow,
        Color::BrightMagenta => colored::Color::BrightMagenta,
        Color::BrightGreen => colored::Color::BrightGreen,
    };
    text.color(c).bold().to_string()
}

/// The indent of a report's details.
pub const INDENT: &'static str = "    ";

/// Where a report is written.
#[derive(Clone, Copy, Debug, PartialEq, Eq, Structural)]
pub enum Stream {
    Stdout,
    Stderr,
}

/// A labeled message for the user, with details.
#[derive(Clone, Debug)]
pub struct Report {
    label: Label,
    msg: String,
    details: String,
}

pub struct ReportView {
    pub label: Label,
    pub msg: Seq<char>,
    pub details: Seq<char>,
}

impl View for Report {
    type V = ReportView;

    closed spec fn view(&self) -> ReportView {
        ReportView { label: self.label, msg: self.msg@, details: self.details@ }
    }
}

/// The head line of a report before wrapping, without colors.
pub open spec fn plain_head(r: ReportView) -> Seq<char> {
    label_text(r.label) + ": "@ + r.msg
}

/// The wrapped, indented details of a report and the line break after them.
pub open spec fn details_block(r: ReportView, width: nat) -> Seq<char> {
    wrapped(r.details, width, INDENT@) + seq!['\n']
}

/// The head line of a report holds an escape character only where its
/// message does.
pub proof fn lemma_plain_head_has_no_escape(r: ReportView)
    requires
        !r.msg.contains('\x1b'),
    ensures
        !plain_head(r).contains('\x1b'),
{
    reveal_strlit("error");
    reveal_strlit("action request");
    reveal_strlit("victory");
    reveal_strlit(": ");
    let l = label_text(r.label);
    let h = plain_head(r);
    assert forall|i: int| 0 <= i < h.len() implies h[i] != '\x1b' by {
        if i < l.len() {
            assert(h[i] == l[i]);
        } else if i < l.len() + 2 {
            assert(h[i] == ": "@[i - l.len()]);
        } else {
            assert(h[i] == r.msg[i - l.len() - 2]);
        }
    }
}

/// A report as it reads without colors.
pub open spec fn plain_block(r: ReportView, width: nat) -> Seq<char> {
    wrapped(plain_head(r), width, Seq::<char>::empty()) + seq!['\n'] + details_block(r, width)
}

/// A report made of a label, a message and details reads, without colors, as
/// the wrapped head line `label: message` and the wrapped, indented details;
/// the head line starts with the label's text and ends with the message, and
/// holds no escape character unless the message does.
pub proof fn lemma_report_round_trip(label: Label, msg: Seq<char>, details: Seq<char>, width: nat)
    ensures
        ({
            let r = ReportView { label, msg, details };
            let h = plain_head(r);
            &&& plain_block(r, width) == wrapped(h, width, Seq::<char>::empty()) + seq!['\n']
                + wrapped(details, width, INDENT@) + seq!['\n']
            &&& h.subrange(0, label_text(label).len() as int) == label_text(label)
            &&& h.subrange(h.len() - msg.len(), h.len() as int) == msg
            &&& !msg.contains('\x1b') ==> !h.contains('\x1b')
        }),
{
    let r = ReportView { label, msg, details };
    let h = plain_head(r);
    let l = label_text(label);
    assert(h.subrange(0, l.len() as int) =~= l);
    assert(h.subrange(h.len() - msg.len(), h.len() as int) =~= msg);
    if !msg.contains('\x1b') {
        lemma_plain_head_has_no_escape(r);
    }
}

/// `out` is what a report formats to: without colors exactly its plain text;
/// with colors, the label and the message are painted in the head line.
pub open spec fn is_block_of(r: ReportView, width: nat, colorize: bool, out: Seq<char>) -> bool {
    if colorize {
        exists|a: Seq<char>, b: Seq<char>|
            #![trigger is_painting_of(a, label_text(r.label) + ":"@), is_painting_of(b, r.msg)]
            is_painting_of(a, label_text(r.label) + ":"@) && is_painting_of(b, r.msg) && out
                == wrapped(a + seq![' '] + b, width, Seq::<char>::empty()) + seq!['\n']
                + details_block(r, width)
    } else {
        out == plain_block(r, width)
    }
}

/// The stream a report with this label goes to.
pub open spec fn label_stream(l: Label) -> Stream {
    if l == Label::Error {
        Stream::Stderr
    } else {
        Stream::Stdout
    }
}

impl Report {
    pub fn new(label: Label, msg: &str, details: &str) -> (r: Report)
        ensures
            r@.label == label,
            r@.msg == msg@,
            r@.details == details@,
    {
        Report { label, msg: String::from_str(msg), details: String::from_str(details) }
    }

    pub fn error(msg: &str, details: &str) -> (r: Report)
        ensures
            r@.label == Label::Error,
            r@.msg == msg@,
            r@.details == details@,
    {
        Report::new(Label::Error, msg, details)
    }

    pub fn action_request(msg: &str, details: &str) -> (r: Report)
        ensures
            r@.label == Label::ActionRequest,
            r@.msg == msg@,
            r@.details == details@,
    {
        Report::new(Label::ActionRequest, msg, details)
    }

    pub fn victory(msg: &str, details: &str) -> (r: Report)
        ensures
            r@.label == Label::Victory,
            r@.msg == msg@,
            r@.details == details@,
    {
        Report::new(Label::Victory, msg, details)
    }

    pub fn label(&self) -> (r: Label)
        ensures
            r == self@.label,
    {
        self.label
    }

    pub fn exit_code(&self) -> (r: i8)
        ensures
            r == label_exit_code(self@.label),
            r == 0 <==> self@.label == Label::Victory,
    {
        self.label.exit_code()
    }

    /// The stream the report is written to: errors go to standard error,
    /// everything else to standard output.
    pub fn stream(&self) -> (r: Stream)
        ensures
            r == label_stream(self@.label),
            r == Stream::Stderr <==> self@.label == Label::Error,
    {
        match self.label {
            Label::Error => Stream::Stderr,
            _ => Stream::Stdout,
        }
    }

    /// The report as text: a head line `label: message`, wrapped, then the
    /// details, wrapped and indented, each followed by a line break.
    pub fn format(&self, options: &WrapOptions, colorize: bool) -> (r: String)
        ensures
            is_block_of(self@, options.width as nat, colorize, r@),
            !colorize ==> r@ == plain_block(self@, options.width as nat),
            !colorize && !self@.msg.contains('\x1b') && !self@.details.contains('\x1b')
                ==> !r@.contains('\x1b'),
    {
        let ghost mut pa: Seq<char> = Seq::empty();
        let ghost mut pb: Seq<char> = Seq::empty();
        proof {
            reveal_strlit("");
            reveal_strlit(" ");
            reveal_strlit("\n");
        }
        assert(""@ =~= Seq::<char>::empty());
        assert(" "@ =~= seq![' ']);
        assert("\n"@ =~= seq!['\n']);
        let head = if colorize {
            let mut label = String::from_str(self.label.as_str());
            label.append(":");
            let a = paint_bold(label.as_str(), self.label.color());
            let b = paint(self.msg.as_str(), self.label.color());
            let mut text = String::from_str(a.as_str());
            text.append(" ");
            text.append(b.as_str());
            proof {
                pa = a@;
                pb = b@;
            }
            assert(text@ =~= a@ + seq![' '] + b@);
            assert(label@ =~= label_text(self@.label) + ":"@);
            fill(text.as_str(), options.width, "")
        } else {
            let mut text = String::from_str(self.label.as_str());
            text.append(": ");
            text.append(self.msg.as_str());
            fill(text.as_str(), options.width, "")
        };
        let details = fill(self.details.as_str(), options.width, INDENT);
        let mut out = head;
        out.append("\n");
        out.append(details.as_str());
        out.append("\n");
        proof {
            let w = options.width as nat;
            if colorize {
                assert(out@ =~= wrapped(pa + seq![' '] + pb, w, Seq::<char>::empty()) + seq!['\n']
                    + details_block(self@, w));
                assert(is_painting_of(pa, label_text(self@.label) + ":"@));
                assert(is_painting_of(pb, self@.msg));
            } else {
                assert(out@ =~= plain_block(self@, w));
                if !self@.msg.contains('\x1b') && !self@.details.contains('\x1b') {
                    lemma_plain_head_has_no_escape(self@);
                    let h = plain_head(self@);
                    assert(!INDENT@.contains('\x1b')) by {
                        reveal_strlit("    ");
                    }
                    assert forall|i: int| 0 <= i < out@.len() implies out@[i] != '\x1b' by {
                        let hw = head@.len();
                        if i < hw {
                            assert(out@[i] == head@[i]);
                        } else if i == hw {
                        } else if i < hw + 1 + details@.len() {
                            assert(out@[i] == details@[i - hw - 1]);
                        }
                    }
                }
            }
        }
        out
    }

    /// The report as text, colored where the output should be.
    pub fn render(&self, options: &WrapOptions) -> (r: String)
        ensures
            exists|colorize: bool| #[trigger] is_block_of(self@, options.width as nat, colorize, r@),
    {
        let colorize = colorize_wanted();
        self.format(options, colorize)
    }
}

/// An error that can be shown to the user as a report.
pub trait Reportable {
    /// The report that shows this error.
    spec fn report_view(&self) -> ReportView;

    fn report(&self) -> (r: Report)
        ensures
            r@ == self.report_view(),
    ;
}

/// How a run ends when it does not succeed: with a report, or with an error
/// of the argument parser.
pub enum Exit<E> {
    Report(Report),
    Clap(E),
}

/// What is left to do before the process exits.
pub enum Termination<E> {
    /// Write `text` to `stream`, then exit with `code`.
    Print { text: String, stream: Stream, code: i8 },
    /// Hand over to the argument parser, which prints its usage and exits.
    Parser(E),
}

impl<E> Exit<E> {
    /// Ends the run with the report of `reportable`.
    pub fn report<R: Reportable>(reportable: &R) -> (r: Exit<E>)
        ensures
            r matches Exit::Report(rep) && rep@ == reportable.report_view(),
    {
        Exit::Report(reportable.report())
    }

    /// The end of a command's run: success, or the report of its error.
    pub fn from_outcome<R: Reportable>(outcome: Result<(), R>) -> (r: Result<(), Exit<E>>)
        ensures
            r is Ok <==> outcome is Ok,
            outcome matches Err(e) ==> (r matches Err(Exit::Report(rep)) && rep@
                == e.report_view()),
    {
        match outcome {
            Ok(()) => Ok(()),
            Err(e) => Err(Exit::report(&e)),
        }
    }

    /// What to do to end the run: a report is written to the stream of its
    /// label and gives the exit code; a parser error goes back to the parser,
    /// and no report is made for it.
    pub fn termination(self, options: &WrapOptions) -> (r: Termination<E>)
        ensures
            match self {
                Exit::Report(rep) => match r {
                    Termination::Print { text, stream, code } => {
                        &&& stream == label_stream(rep@.label)
                        &&& code == label_exit_code(rep@.label)
                        &&& exists|colorize: bool|
                            #[trigger] is_block_of(rep@, options.width as nat, colorize, text@)
                    },
                    Termination::Parser(_) => false,
                },
                Exit::Clap(e) => r == Termination::<E>::Parser(e),
            },
    {
        match self {
            Exit::Report(rep) => {
                let text = rep.render(options);
                let stream = rep.stream();
                let code = rep.exit_code();
                let ghost c = choose|c: bool| is_block_of(rep@, options.width as nat, c, text@);
                let ghost t = text@;
                assert(is_block_of(rep@, options.width as nat, c, t));
                let r = Termination::Print { text, stream, code };
                assert(r matches Termination::Print { text, .. } && text@ == t);
                r
            },
            Exit::Clap(e) => Termination::Parser(e),
        }
    }
}

} // verus!
