//! What the command-line tool does with its arguments: the lines it writes
//! to either stream and the code it exits with.

use crate::error::{message_text, DecodeError};
use crate::jwt::{decode_jwt, token_outcome, Outcome};
use crate::model::result_view;
use vstd::prelude::*;

verus! {

/// The exit code of a successful run.
pub const EXIT_SUCCESS: u8 = 0;

/// The exit code of a run whose token could not be decoded.
pub const EXIT_FAILURE: u8 = 1;

/// The exit code of a run with the wrong number of arguments.
pub const EXIT_USAGE: u8 = 2;

/// Everything a run shows to the outside.
#[derive(Debug, PartialEq, Eq)]
pub struct Report {
    /// The lines for the standard output stream.
    pub output: Vec<String>,
    /// The lines for the error stream.
    pub errors: Vec<String>,
    /// The code to exit with.
    pub exit_code: u8,
}

/// A report as a mathematical value.
pub struct ReportView {
    pub output: Seq<Seq<char>>,
    pub errors: Seq<Seq<char>>,
    pub exit_code: u8,
}

impl DeepView for Report {
    type V = ReportView;

    open spec fn deep_view(&self) -> ReportView {
        ReportView {
            output: self.output.deep_view(),
            errors: self.errors.deep_view(),
            exit_code: self.exit_code,
        }
    }
}

/// The line that tells how to call the tool.
pub open spec fn usage_line() -> Seq<char> {
    "Usage: jwtter <token>"@
}

/// The line that reports a failure with the given message.
pub open spec fn failure_line(message: Seq<char>) -> Seq<char> {
    "error: "@ + message
}

/// The report of a run that was not given exactly one token: the usage line
/// on the error stream.
pub open spec fn usage_report() -> ReportView {
    ReportView { output: Seq::empty(), errors: seq![usage_line()], exit_code: EXIT_USAGE }
}

/// The report of a run on a token with the given outcome: on success the
/// lines on the output stream, on failure one line with the failure's
/// message on the error stream.
pub open spec fn outcome_report(outcome: Outcome) -> ReportView {
    match outcome {
        Ok(lines) => ReportView { output: lines, errors: Seq::empty(), exit_code: EXIT_SUCCESS },
        Err(failure) => ReportView {
            output: Seq::empty(),
            errors: seq![failure_line(message_text(failure))],
            exit_code: EXIT_FAILURE,
        },
    }
}

/// What a run on the given arguments shows. The first argument is the
/// program's name; exactly one more, the token, must follow.
pub open spec fn run_report(args: Seq<Seq<char>>) -> ReportView {
    if args.len() == 2 {
        outcome_report(token_outcome(args[1]))
    } else {
        usage_report()
    }
}

/// The line that tells how to call the tool.
pub fn usage() -> (line: String)
    ensures
        line@ == usage_line(),
{
    "Usage: jwtter <token>".to_owned()
}

/// Turns the result of a decoding into what the run shows.
pub fn report_result(result: Result<Vec<String>, DecodeError>) -> (report: Report)
    ensures
        report.deep_view() == outcome_report(result_view(result)),
{
    match result {
        Ok(lines) => {
            let errors: Vec<String> = Vec::new();
            assert(errors.deep_view() =~= Seq::<Seq<char>>::empty());
            Report { output: lines, errors, exit_code: EXIT_SUCCESS }
        },
        Err(error) => {
            let output: Vec<String> = Vec::new();
            let mut errors: Vec<String> = Vec::new();
            errors.push("error: ".to_owned().concat(error.message().as_str()));
            assert(output.deep_view() =~= Seq::<Seq<char>>::empty());
            assert(errors.deep_view() =~= seq![failure_line(message_text(error.deep_view()))]);
            Report { output, errors, exit_code: EXIT_FAILURE }
        },
    }
}

/// Runs the tool on the process arguments, the program's name first.
///
/// With exactly one argument after the name, that argument is decoded as a
/// token; with any other number, the run only tells how to call the tool.
pub fn run(args: &Vec<String>) -> (report: Report)
    ensures
        report.deep_view() == run_report(args.deep_view()),
{
    if args.len() != 2 {
        let output: Vec<String> = Vec::new();
        let mut errors: Vec<String> = Vec::new();
        errors.push(usage());
        assert(output.deep_view() =~= Seq::<Seq<char>>::empty());
        assert(errors.deep_view() =~= seq![usage_line()]);
        return Report { output, errors, exit_code: EXIT_USAGE };
    }
    assert(args.deep_view()[1] == args[1]@);
    report_result(decode_jwt(args[1].as_str()))
}

/// A run with no token or with more than one exits with the usage code and
/// shows only the usage line.
pub proof fn lemma_wrong_argument_count(args: Seq<Seq<char>>)
    requires
        args.len() != 2,
    ensures
        run_report(args) == usage_report(),
        run_report(args).exit_code == 2,
{
}

/// A run on one token exits with zero exactly if the token decodes, and
/// with one otherwise; it never exits with the usage code.
pub proof fn lemma_exit_code_tells_outcome(args: Seq<Seq<char>>)
    requires
        args.len() == 2,
    ensures
        token_outcome(args[1]) is Ok <==> run_report(args).exit_code == 0,
        token_outcome(args[1]) is Err <==> run_report(args).exit_code == 1,
{
}

} // verus!
