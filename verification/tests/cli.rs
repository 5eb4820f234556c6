use jwtter::cli::{report_result, run, usage, Report, EXIT_FAILURE, EXIT_SUCCESS, EXIT_USAGE};
use jwtter::error::DecodeError;

fn args(values: &[&str]) -> Vec<String> {
    values.iter().map(|value| value.to_string()).collect()
}

fn usage_report() -> Report {
    Report {
        output: Vec::new(),
        errors: vec!["Usage: jwtter <token>".to_string()],
        exit_code: 2,
    }
}

#[test]
fn exit_codes_are_zero_one_and_two() {
    assert_eq!(EXIT_SUCCESS, 0);
    assert_eq!(EXIT_FAILURE, 1);
    assert_eq!(EXIT_USAGE, 2);
}

#[test]
fn usage_line_names_the_tool() {
    assert_eq!(usage(), "Usage: jwtter <token>");
}

#[test]
fn run_without_a_token_shows_the_usage() {
    assert_eq!(run(&args(&["jwtter"])), usage_report());
}

#[test]
fn run_with_two_or_more_tokens_shows_the_usage() {
    assert_eq!(run(&args(&["jwtter", "a.e30.c", "a.e30.c"])), usage_report());
    assert_eq!(run(&args(&["jwtter", "a", "b", "c"])), usage_report());
}

#[test]
fn run_without_any_argument_shows_the_usage() {
    assert_eq!(run(&Vec::new()), usage_report());
}

#[test]
fn run_with_a_good_token_prints_the_claims() {
    let report = run(&args(&["jwtter", "h.eyJiIjoyLCJhIjoxfQ.s"]));
    assert_eq!(
        report,
        Report {
            output: vec!["b: 2".to_string(), "a: 1".to_string()],
            errors: Vec::new(),
            exit_code: 0,
        }
    );
}

#[test]
fn run_with_an_empty_object_prints_nothing() {
    let report = run(&args(&["jwtter", "h.e30.s"]));
    assert_eq!(report, Report { output: Vec::new(), errors: Vec::new(), exit_code: 0 });
}

#[test]
fn run_with_a_bad_token_reports_the_failure() {
    assert_eq!(
        run(&args(&["jwtter", "only.two"])),
        Report {
            output: Vec::new(),
            errors: vec!["error: Payload part is missing".to_string()],
            exit_code: 1,
        }
    );
    assert_eq!(
        run(&args(&["jwtter", "h.WzEsMl0.s"])),
        Report {
            output: Vec::new(),
            errors: vec!["error: Payload is not a JSON object".to_string()],
            exit_code: 1,
        }
    );
    assert_eq!(
        run(&args(&["jwtter", "h.e30=.s"])),
        Report {
            output: Vec::new(),
            errors: vec![
                "error: Payload is not encoded properly in Base64: Invalid padding".to_string()
            ],
            exit_code: 1,
        }
    );
}

#[test]
fn the_program_name_is_not_decoded() {
    // Only the argument after the name is the token.
    let report = run(&args(&["h.eyJhIjoxfQ.s", "x"]));
    assert_eq!(report.exit_code, 1);
    assert_eq!(report.errors, vec!["error: Payload part is missing".to_string()]);
}

#[test]
fn a_result_becomes_a_report() {
    assert_eq!(
        report_result(Ok(vec!["a: 1".to_string()])),
        Report { output: vec!["a: 1".to_string()], errors: Vec::new(), exit_code: 0 }
    );
    assert_eq!(
        report_result(Err(DecodeError::InvalidJson("boom".to_string()))),
        Report {
            output: Vec::new(),
            errors: vec!["error: Payload is not a valid JSON value: boom".to_string()],
            exit_code: 1,
        }
    );
    assert_eq!(
        report_result(Err(DecodeError::InvalidUnicodeEncoding("bad".to_string()))),
        Report {
            output: Vec::new(),
            errors: vec!["error: Payload is not encoded properly in UTF-8: bad".to_string()],
            exit_code: 1,
        }
    );
}
