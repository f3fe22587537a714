use refactor_assist::session::{Outcome, Phase, Session};

const INSTRUCTION: &str =
    "Replace all variable names that start with \"old_\" to start with \"new_\"";

fn reply_with(content: &str) -> String {
    format!(
        "<REASONING>\nRenaming as asked.\n</REASONING>\n\n<CHANGED_FILE_CONTENTS>\n{}\n</CHANGED_FILE_CONTENTS>",
        content
    )
}

#[test]
fn no_validator_single_round_trip() {
    // One file, no validation command: the first extractable reply is final.
    let mut s = Session::new(INSTRUCTION.to_string(), "old_value = 10".to_string(), 5, false);
    assert_eq!(s.phase, Phase::AwaitCompletion);

    let msgs = s.prompt();
    assert_eq!(msgs.len(), 4);
    assert!(msgs[3].content.contains(INSTRUCTION));
    assert!(msgs[3].content.contains("old_value = 10"));

    let reply = reply_with("new_value = 10");
    s.on_completion(Some(&reply));
    assert_eq!(s.phase, Phase::AwaitWrite);
    assert_eq!(s.pending, "new_value = 10");

    s.on_write_result(true);
    assert_eq!(s.phase, Phase::Done(Outcome::Succeeded));
    assert_eq!(s.current, "new_value = 10");
    assert_eq!(s.completions, 1);
    assert_eq!(s.attempt, 1);
}

#[test]
fn always_failing_validator_restores_original() {
    // Validation command always fails, two retries: after the second failed
    // validation the original content comes back, and two completion
    // round-trips have happened.
    let original = "old_value = 10";
    let mut s = Session::new(INSTRUCTION.to_string(), original.to_string(), 2, true);

    let first = reply_with("new_value = 10");
    s.on_completion(Some(&first));
    assert_eq!(s.phase, Phase::AwaitWrite);
    s.on_write_result(true);
    assert_eq!(s.phase, Phase::AwaitValidation);
    s.on_validation(false);
    assert_eq!(s.phase, Phase::AwaitReadBack);
    // The failed candidate stays on disk and seeds the next prompt.
    s.on_read_back(Some("new_value = 10".to_string()));
    assert_eq!(s.phase, Phase::AwaitCompletion);
    assert_eq!(s.attempt, 2);
    let msgs = s.prompt();
    assert!(msgs[3].content.contains("new_value = 10"));

    let second = reply_with("new_value = 10;");
    s.on_completion(Some(&second));
    s.on_write_result(true);
    s.on_validation(false);
    assert_eq!(s.phase, Phase::AwaitRestore);
    s.on_restore_result(true);
    assert_eq!(s.phase, Phase::Done(Outcome::ExhaustedRestored));
    assert_eq!(s.current, original);
    assert_eq!(s.completions, 2);
}

#[test]
fn validator_pass_on_second_attempt_stops_there() {
    // The validator accepts attempt 2 of 3: the file keeps attempt 2's
    // content and no third attempt starts.
    let mut s = Session::new("instr".to_string(), "base".to_string(), 3, true);

    let first = reply_with("candidate one");
    s.on_completion(Some(&first));
    s.on_write_result(true);
    s.on_validation(false);
    s.on_read_back(Some("candidate one".to_string()));
    assert_eq!(s.attempt, 2);

    let second = reply_with("candidate two");
    s.on_completion(Some(&second));
    s.on_write_result(true);
    s.on_validation(true);
    assert_eq!(s.phase, Phase::Done(Outcome::Succeeded));
    assert_eq!(s.current, "candidate two");
    assert_eq!(s.completions, 2);
    assert_eq!(s.attempt, 2);
}

#[test]
fn extraction_failure_consumes_retry_without_write() {
    let mut s = Session::new("instr".to_string(), "base".to_string(), 3, false);
    s.on_completion(Some("a reply without any markers"));
    // No write phase: nothing reached the file; the attempt is spent.
    assert_eq!(s.phase, Phase::AwaitCompletion);
    assert_eq!(s.attempt, 2);
    assert_eq!(s.completions, 1);
    assert_eq!(s.current, "base");
}

#[test]
fn transport_failure_retries_with_same_content() {
    let mut s = Session::new("instr".to_string(), "base".to_string(), 2, false);
    s.on_completion(None);
    assert_eq!(s.phase, Phase::AwaitCompletion);
    assert_eq!(s.attempt, 2);
    let msgs = s.prompt();
    assert!(msgs[3].content.contains("base"));
}

#[test]
fn exhaustion_without_validator_leaves_file_untouched() {
    // Every reply unusable, no validation command: nothing was ever written,
    // so there is nothing to restore.
    let mut s = Session::new("instr".to_string(), "base".to_string(), 2, false);
    s.on_completion(Some("no markers"));
    s.on_completion(None);
    assert_eq!(s.phase, Phase::Done(Outcome::ExhaustedUnrestored));
    assert_eq!(s.current, "base");
    assert_eq!(s.completions, 2);
}

#[test]
fn exhaustion_by_extraction_failure_with_validator_restores() {
    // With a validation command configured, exhaustion restores even when the
    // last attempt failed before validation.
    let mut s = Session::new("instr".to_string(), "base".to_string(), 2, true);
    let first = reply_with("candidate");
    s.on_completion(Some(&first));
    s.on_write_result(true);
    s.on_validation(false);
    s.on_read_back(Some("candidate".to_string()));
    s.on_completion(Some("gibberish with no markers"));
    assert_eq!(s.phase, Phase::AwaitRestore);
    s.on_restore_result(true);
    assert_eq!(s.phase, Phase::Done(Outcome::ExhaustedRestored));
    assert_eq!(s.current, "base");
}

#[test]
fn single_attempt_budget_restores_at_once() {
    // n-retries = 1 with a validator: the very first failed validation
    // exhausts the budget.
    let mut s = Session::new("instr".to_string(), "base".to_string(), 1, true);
    let reply = reply_with("candidate");
    s.on_completion(Some(&reply));
    s.on_write_result(true);
    s.on_validation(false);
    assert_eq!(s.phase, Phase::AwaitRestore);
    s.on_restore_result(true);
    assert_eq!(s.phase, Phase::Done(Outcome::ExhaustedRestored));
    assert_eq!(s.current, "base");
    assert_eq!(s.completions, 1);
}

#[test]
fn empty_file_and_instruction_are_handled() {
    let mut s = Session::new(String::new(), String::new(), 1, false);
    let msgs = s.prompt();
    assert_eq!(
        msgs[3].content,
        "<INSTRUCTION>\n\n</INSTRUCTION>\n\n<FILECONTENTS>\n\n</FILECONTENTS>"
    );
    s.on_completion(Some("<CHANGED_FILE_CONTENTS></CHANGED_FILE_CONTENTS>"));
    s.on_write_result(true);
    assert_eq!(s.phase, Phase::Done(Outcome::Succeeded));
    assert_eq!(s.current, "");
}

#[test]
fn write_failure_is_fatal() {
    let mut s = Session::new("instr".to_string(), "base".to_string(), 3, true);
    let reply = reply_with("candidate");
    s.on_completion(Some(&reply));
    s.on_write_result(false);
    assert_eq!(s.phase, Phase::Done(Outcome::FatalIo));
}

#[test]
fn read_back_failure_is_fatal() {
    let mut s = Session::new("instr".to_string(), "base".to_string(), 2, true);
    let reply = reply_with("candidate");
    s.on_completion(Some(&reply));
    s.on_write_result(true);
    s.on_validation(false);
    s.on_read_back(None);
    assert_eq!(s.phase, Phase::Done(Outcome::FatalIo));
}
