use refactor_assist::batch::Batch;
use refactor_assist::session::{Outcome, Phase, Session};

fn reply_with(content: &str) -> String {
    format!("<CHANGED_FILE_CONTENTS>\n{}\n</CHANGED_FILE_CONTENTS>", content)
}

#[test]
fn fatal_error_on_one_file_does_not_stop_the_next() {
    // File A dies on a write failure; file B, ordered after it, is still
    // processed and succeeds, unaffected.
    let mut batch = Batch::new(2);

    let mut a = Session::new("instr".to_string(), "content a".to_string(), 3, false);
    let reply_a = reply_with("rewritten a");
    a.on_completion(Some(&reply_a));
    a.on_write_result(false);
    assert_eq!(a.phase, Phase::Done(Outcome::FatalIo));
    batch.record(Outcome::FatalIo);
    assert!(!batch.is_complete());

    let mut b = Session::new("instr".to_string(), "content b".to_string(), 3, false);
    let reply_b = reply_with("rewritten b");
    b.on_completion(Some(&reply_b));
    b.on_write_result(true);
    assert_eq!(b.phase, Phase::Done(Outcome::Succeeded));
    assert_eq!(b.current, "rewritten b");
    batch.record(Outcome::Succeeded);

    assert!(batch.is_complete());
    assert_eq!(batch.outcomes, vec![Outcome::FatalIo, Outcome::Succeeded]);
}

#[test]
fn outcomes_are_recorded_in_file_order() {
    let mut batch = Batch::new(3);
    batch.record(Outcome::Succeeded);
    batch.record(Outcome::ExhaustedRestored);
    assert!(!batch.is_complete());
    batch.record(Outcome::FatalIo);
    assert!(batch.is_complete());
    assert_eq!(
        batch.outcomes,
        vec![Outcome::Succeeded, Outcome::ExhaustedRestored, Outcome::FatalIo]
    );
}
