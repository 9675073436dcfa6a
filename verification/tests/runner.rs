use tool_runner::args::{accuracy_args, ocr_args};
use tool_runner::outcome::{conclude, outcome_to_result, Outcome, RunnerError};
use tool_runner::report::{build_report, OutputLine, StreamKind};
use tool_runner::status::describe_status;

fn stdout_line(text: &str) -> OutputLine {
    OutputLine { stream: StreamKind::Stdout, text: text.to_string() }
}

fn stderr_line(text: &str) -> OutputLine {
    OutputLine { stream: StreamKind::Stderr, text: text.to_string() }
}

#[test]
fn report_of_no_lines_is_empty() {
    let report = build_report(&Vec::new());
    assert_eq!(report, "");
}

#[test]
fn stdout_line_kept_verbatim_with_one_break() {
    let report = build_report(&vec![stdout_line("progress 50%")]);
    assert_eq!(report, "progress 50%\n");
}

#[test]
fn stderr_line_tagged_with_error_marker() {
    let report = build_report(&vec![stderr_line("missing input")]);
    assert_eq!(report, "ERROR: missing input\n");
}

#[test]
fn empty_line_texts_still_get_their_breaks() {
    let report = build_report(&vec![stdout_line(""), stderr_line("")]);
    assert_eq!(report, "\nERROR: \n");
}

#[test]
fn lines_are_kept_in_arrival_order() {
    let report = build_report(&vec![
        stdout_line("one"),
        stderr_line("two"),
        stdout_line("three"),
    ]);
    assert_eq!(report, "one\nERROR: two\nthree\n");
}

#[test]
fn zero_exit_is_success_with_the_full_report() {
    let lines = vec![stdout_line("line1"), stderr_line("line2")];
    match conclude(&lines, 0) {
        Outcome::Success { report } => assert_eq!(report, "line1\nERROR: line2\n"),
        Outcome::Failure { .. } => panic!("exit code 0 must conclude in success"),
    }
}

#[test]
fn exit_code_two_with_no_output_is_failure_with_empty_report() {
    let outcome = conclude(&Vec::new(), 2);
    match outcome {
        Outcome::Success { .. } => panic!("exit code 2 must conclude in failure"),
        Outcome::Failure { report, status } => {
            assert_eq!(report, "");
            assert_eq!(status, "exit code: 2");
        }
    }
}

#[test]
fn failure_carries_the_report_success_would_have_carried() {
    let lines = vec![stdout_line("partial result"), stderr_line("gave up")];
    let on_success = match conclude(&lines, 0) {
        Outcome::Success { report } => report,
        Outcome::Failure { .. } => panic!("exit code 0 must conclude in success"),
    };
    match conclude(&lines, 1) {
        Outcome::Success { .. } => panic!("exit code 1 must conclude in failure"),
        Outcome::Failure { report, status } => {
            assert_eq!(report, on_success);
            assert_eq!(status, "exit code: 1");
        }
    }
}

#[test]
fn repeated_invocations_report_identically() {
    let lines = vec![stdout_line("a"), stderr_line("b"), stdout_line("c")];
    let first = build_report(&lines);
    let second = build_report(&lines);
    assert_eq!(first, second);
}

#[test]
fn status_descriptions_are_exact() {
    assert_eq!(describe_status(0), "exit code: 0");
    assert_eq!(describe_status(2), "exit code: 2");
    assert_eq!(describe_status(10), "exit code: 10");
    assert_eq!(describe_status(255), "exit code: 255");
    assert_eq!(describe_status(123456), "exit code: 123456");
    assert_eq!(describe_status(i32::MAX), "exit code: 2147483647");
    assert_eq!(describe_status(-1), "exit code: -1");
    assert_eq!(describe_status(i32::MIN), "exit code: -2147483648");
}

#[test]
fn success_result_is_the_report_alone() {
    let outcome = conclude(&vec![stdout_line("done")], 0);
    assert_eq!(outcome_to_result(outcome), Ok("done\n".to_string()));
}

#[test]
fn failure_result_holds_status_and_report() {
    let outcome = conclude(&vec![stdout_line("line1")], 1);
    assert_eq!(
        outcome_to_result(outcome),
        Err("Python process exited with error: exit code: 1\nline1\n".to_string())
    );
}

#[test]
fn spawn_failure_message_has_no_report() {
    let error = RunnerError::Spawn { detail: "No such file or directory".to_string() };
    assert_eq!(
        error.message(),
        "Failed to spawn python process: No such file or directory"
    );
}

#[test]
fn wait_failure_message_has_no_report() {
    let error = RunnerError::Wait { detail: "no child process".to_string() };
    assert_eq!(
        error.message(),
        "Failed to wait for python process: no child process"
    );
}

#[test]
fn ocr_args_include_the_flag_only_when_set() {
    let with_flag = ocr_args("scan.pdf".to_string(), "out".to_string(), true);
    assert_eq!(
        with_flag,
        vec!["src/ocr_poc.py", "scan.pdf", "--output_folder", "out", "--no-csv"]
    );
    let without_flag = ocr_args("scan.pdf".to_string(), "out".to_string(), false);
    assert_eq!(
        without_flag,
        vec!["src/ocr_poc.py", "scan.pdf", "--output_folder", "out"]
    );
    assert!(!without_flag.iter().any(|a| a.is_empty()));
}

#[test]
fn accuracy_args_carry_all_three_inputs() {
    let args = accuracy_args(
        "results.csv".to_string(),
        "truth.json".to_string(),
        "0.5".to_string(),
    );
    assert_eq!(
        args,
        vec![
            "scripts/accuracy_reviewer.py",
            "--ocr_csv",
            "results.csv",
            "--ground_truth_json",
            "truth.json",
            "--iou_threshold",
            "0.5",
        ]
    );
}
