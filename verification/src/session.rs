//! The per-file transformation protocol: an explicit state machine over up
//! to `n_retries` attempts.
//!
//! One attempt asks the completion service for a reply to the current
//! prompt, extracts the replacement content, writes it to the file, and —
//! when a validation command is configured — runs it. A failed attempt that
//! is not the last advances to the next attempt; on the last attempt, with a
//! validation command configured, the file is restored to its original
//! content. Without a validation command the first written replacement is
//! final. All I/O is the caller's: the caller performs the action the
//! current phase names and reports what happened as an [`Event`] through the
//! `on_*` methods; the [`Session`] decides everything else.

use vstd::prelude::*;
use vstd::string::StringExecFns;

use crate::extract::{extract_changed_contents, extract_spec};
use crate::prompt::{
    build_conversation, example_reply, example_request, request_content, system_prompt, Message,
    Role,
};

verus! {

/// How the processing of one file ended.
#[derive(Clone, Copy, Debug, PartialEq, Eq, Structural)]
pub enum Outcome {
    /// A written replacement was accepted: immediately when no validation
    /// command is configured, or by a passing validation run.
    Succeeded,
    /// Every attempt failed and the file was restored to its original
    /// content.
    ExhaustedRestored,
    /// Every attempt failed before anything was written, and no validation
    /// command was configured; the file was never touched.
    ExhaustedUnrestored,
    /// Reading or writing the file failed; processing stopped where it
    /// stood.
    FatalIo,
}

/// What the caller must do next, or how the file's processing ended.
#[derive(Clone, Copy, Debug, PartialEq, Eq, Structural)]
pub enum Phase {
    /// Send the current prompt to the completion service, then report the
    /// reply with [`Session::on_completion`].
    AwaitCompletion,
    /// Write the pending content to the file, then report with
    /// [`Session::on_write_result`].
    AwaitWrite,
    /// Run the validation command, then report with
    /// [`Session::on_validation`].
    AwaitValidation,
    /// Re-read the file, then report with [`Session::on_read_back`].
    AwaitReadBack,
    /// Write the original content back to the file, then report with
    /// [`Session::on_restore_result`].
    AwaitRestore,
    /// Processing ended with the given outcome.
    Done(Outcome),
}

/// What the outside world reported back for the action a phase named.
pub enum Event {
    /// The completion service's reply text, or `None` on a transport or
    /// response-shape failure.
    Completion(Option<Seq<char>>),
    /// Whether writing the pending content succeeded.
    WriteResult(bool),
    /// Whether the validation command passed.
    Validation(bool),
    /// The file's content as re-read from disk, or `None` if reading failed.
    ReadBack(Option<Seq<char>>),
    /// Whether writing the original content back succeeded.
    RestoreResult(bool),
}

/// The mathematical state of one file's processing.
pub struct SessionModel {
    pub instruction: Seq<char>,
    pub original: Seq<char>,
    pub current: Seq<char>,
    pub pending: Seq<char>,
    pub n_retries: nat,
    pub has_validator: bool,
    pub attempt: nat,
    pub completions: nat,
    pub phase: Phase,
}

/// The state a file's processing starts in: the first attempt, the original
/// content as current content, no completion round-trip made yet.
pub open spec fn init_model(
    instruction: Seq<char>,
    original: Seq<char>,
    n_retries: nat,
    has_validator: bool,
) -> SessionModel {
    SessionModel {
        instruction,
        original,
        current: original,
        pending: Seq::empty(),
        n_retries,
        has_validator,
        attempt: 1,
        completions: 0,
        phase: Phase::AwaitCompletion,
    }
}

/// A failed attempt: the next attempt starts when one is left; otherwise the
/// retry budget is exhausted, and the file is restored exactly when a
/// validation command is configured (without one, nothing was ever written).
pub open spec fn fail_attempt(s: SessionModel) -> SessionModel {
    if s.attempt < s.n_retries {
        SessionModel { attempt: s.attempt + 1, phase: Phase::AwaitCompletion, ..s }
    } else if s.has_validator {
        SessionModel { phase: Phase::AwaitRestore, ..s }
    } else {
        SessionModel { phase: Phase::Done(Outcome::ExhaustedUnrestored), ..s }
    }
}

/// The reply to an attempt's completion request arrived (or failed): a reply
/// with extractable content moves on to the write; a transport failure or a
/// reply without the markers consumes the attempt.
pub open spec fn after_completion(s: SessionModel, reply: Option<Seq<char>>) -> SessionModel {
    let s1 = SessionModel { completions: s.completions + 1, ..s };
    match reply {
        Option::Some(text) => match extract_spec(text) {
            Result::Ok(c) => SessionModel { pending: c, phase: Phase::AwaitWrite, ..s1 },
            Result::Err(_) => fail_attempt(s1),
        },
        Option::None => fail_attempt(s1),
    }
}

/// The write of the pending content finished: on success it is the current
/// content, accepted at once when no validation command is configured; a
/// write failure is fatal for the file.
pub open spec fn after_write(s: SessionModel, ok: bool) -> SessionModel {
    if !ok {
        SessionModel { phase: Phase::Done(Outcome::FatalIo), ..s }
    } else if s.has_validator {
        SessionModel { current: s.pending, phase: Phase::AwaitValidation, ..s }
    } else {
        SessionModel { current: s.pending, phase: Phase::Done(Outcome::Succeeded), ..s }
    }
}

/// The validation command finished: a pass accepts the written content; a
/// failure consumes the attempt, re-reading the file before the next attempt
/// so the failed candidate seeds the next prompt.
pub open spec fn after_validation(s: SessionModel, passed: bool) -> SessionModel {
    if passed {
        SessionModel { phase: Phase::Done(Outcome::Succeeded), ..s }
    } else if s.attempt < s.n_retries {
        SessionModel { phase: Phase::AwaitReadBack, ..s }
    } else {
        SessionModel { phase: Phase::AwaitRestore, ..s }
    }
}

/// The re-read of the file finished: its content becomes the next attempt's
/// current content; a read failure is fatal for the file.
pub open spec fn after_read_back(s: SessionModel, content: Option<Seq<char>>) -> SessionModel {
    match content {
        Option::Some(c) => SessionModel {
            current: c,
            attempt: s.attempt + 1,
            phase: Phase::AwaitCompletion,
            ..s
        },
        Option::None => SessionModel { phase: Phase::Done(Outcome::FatalIo), ..s },
    }
}

/// The write of the original content back finished: on success the file is
/// restored and the exhaustion is reported; a write failure is fatal.
pub open spec fn after_restore(s: SessionModel, ok: bool) -> SessionModel {
    if ok {
        SessionModel { current: s.original, phase: Phase::Done(Outcome::ExhaustedRestored), ..s }
    } else {
        SessionModel { phase: Phase::Done(Outcome::FatalIo), ..s }
    }
}

/// One transition of the state machine. A terminal state absorbs every
/// event, and an event that does not answer the pending phase changes
/// nothing.
pub open spec fn step_model(s: SessionModel, e: Event) -> SessionModel {
    match (s.phase, e) {
        (Phase::AwaitCompletion, Event::Completion(reply)) => after_completion(s, reply),
        (Phase::AwaitWrite, Event::WriteResult(ok)) => after_write(s, ok),
        (Phase::AwaitValidation, Event::Validation(passed)) => after_validation(s, passed),
        (Phase::AwaitReadBack, Event::ReadBack(content)) => after_read_back(s, content),
        (Phase::AwaitRestore, Event::RestoreResult(ok)) => after_restore(s, ok),
        _ => s,
    }
}

/// The state after feeding a whole sequence of events, first event first.
pub open spec fn run_model(s: SessionModel, events: Seq<Event>) -> SessionModel
    decreases events.len(),
{
    if events.len() == 0 {
        s
    } else {
        run_model(step_model(s, events[0]), events.drop_first())
    }
}

/// What the file holds once processing has ended: the accepted replacement,
/// the restored (or never touched) original, or — after a fatal I/O error —
/// nothing this machine can name.
pub open spec fn final_content(s: SessionModel) -> Option<Seq<char>> {
    match s.phase {
        Phase::Done(Outcome::Succeeded) => Option::Some(s.current),
        Phase::Done(Outcome::ExhaustedRestored) => Option::Some(s.original),
        Phase::Done(Outcome::ExhaustedUnrestored) => Option::Some(s.original),
        _ => Option::None,
    }
}

/// Every state the machine can reach satisfies this: the attempt counter
/// stays within the retry budget, the number of completion round-trips is
/// determined by the phase, validation phases arise only with a validation
/// command configured, and exhaustion leaves the original content.
pub open spec fn wf(s: SessionModel) -> bool {
    &&& 1 <= s.n_retries
    &&& 1 <= s.attempt <= s.n_retries
    &&& match s.phase {
        Phase::AwaitCompletion => s.completions == s.attempt - 1,
        Phase::AwaitWrite => s.completions == s.attempt,
        Phase::AwaitValidation => s.completions == s.attempt,
        Phase::AwaitReadBack => s.completions == s.attempt,
        Phase::AwaitRestore => s.attempt == s.n_retries && s.completions == s.n_retries,
        Phase::Done(_) => s.completions <= s.n_retries,
    }
    &&& (s.phase == Phase::AwaitReadBack ==> s.attempt < s.n_retries && s.has_validator)
    &&& (s.phase == Phase::AwaitValidation ==> s.has_validator)
    &&& (s.phase == Phase::AwaitRestore ==> s.has_validator)
    &&& (s.phase == Phase::Done(Outcome::ExhaustedRestored) ==> s.has_validator && s.current
        == s.original && s.attempt == s.n_retries && s.completions == s.n_retries)
    &&& (s.phase == Phase::Done(Outcome::ExhaustedUnrestored) ==> !s.has_validator && s.current
        == s.original && s.completions == s.n_retries)
    &&& (!s.has_validator && s.phase != Phase::Done(Outcome::Succeeded) ==> s.current
        == s.original)
}

/// The starting state is well-formed.
pub proof fn lemma_init_wf(
    instruction: Seq<char>,
    original: Seq<char>,
    n_retries: nat,
    has_validator: bool,
)
    requires
        1 <= n_retries,
    ensures
        wf(init_model(instruction, original, n_retries, has_validator)),
{
}

/// Every transition preserves well-formedness and never changes the
/// instruction, the original content, the retry budget, or whether a
/// validation command is configured.
pub proof fn lemma_step_preserves_wf(s: SessionModel, e: Event)
    requires
        wf(s),
    ensures
        wf(step_model(s, e)),
        step_model(s, e).instruction == s.instruction,
        step_model(s, e).original == s.original,
        step_model(s, e).n_retries == s.n_retries,
        step_model(s, e).has_validator == s.has_validator,
{
}

/// Law: the original-content snapshot is captured once, at the start, and no
/// run of events ever mutates it — nor the instruction, the retry budget, or
/// whether a validation command is configured.
pub proof fn lemma_original_never_mutated(s: SessionModel, events: Seq<Event>)
    ensures
        run_model(s, events).original == s.original,
        run_model(s, events).instruction == s.instruction,
        run_model(s, events).n_retries == s.n_retries,
        run_model(s, events).has_validator == s.has_validator,
    decreases events.len(),
{
    if events.len() > 0 {
        lemma_original_never_mutated(step_model(s, events[0]), events.drop_first());
    }
}

/// A terminal state absorbs every further event: once processing has ended,
/// no attempt, write, or validation happens any more.
pub proof fn lemma_done_is_terminal(s: SessionModel, events: Seq<Event>)
    requires
        s.phase is Done,
    ensures
        run_model(s, events) == s,
    decreases events.len(),
{
    if events.len() > 0 {
        lemma_done_is_terminal(s, events.drop_first());
    }
}

/// Law: where no validation command is configured, one completion whose
/// reply carries extractable content ends the file's processing — exactly
/// one completion round-trip has occurred, the file's final content is that
/// round-trip's extracted content, and no further event (no retry, whatever
/// the budget) changes anything.
pub proof fn lemma_no_validator_single_round_trip(
    instruction: Seq<char>,
    original: Seq<char>,
    n_retries: nat,
    reply: Seq<char>,
)
    requires
        1 <= n_retries,
        extract_spec(reply) is Ok,
    ensures
        ({
            let t = run_model(
                init_model(instruction, original, n_retries, false),
                seq![Event::Completion(Option::Some(reply)), Event::WriteResult(true)],
            );
            &&& t.phase == Phase::Done(Outcome::Succeeded)
            &&& t.completions == 1
            &&& t.current == extract_spec(reply)->Ok_0
            &&& final_content(t) == Option::Some(extract_spec(reply)->Ok_0)
            &&& forall|more: Seq<Event>| run_model(t, more) == t
        }),
{
    let s0 = init_model(instruction, original, n_retries, false);
    let es = seq![Event::Completion(Option::Some(reply)), Event::WriteResult(true)];
    let s1 = step_model(s0, es[0]);
    let s2 = step_model(s1, es[1]);
    assert(es.drop_first() =~= seq![Event::WriteResult(true)]);
    assert(es.drop_first().drop_first() =~= Seq::<Event>::empty());
    assert(run_model(s0, es) == run_model(s1, es.drop_first()));
    assert(run_model(s1, es.drop_first()) == run_model(s2, es.drop_first().drop_first()));
    assert forall|more: Seq<Event>| run_model(s2, more) == s2 by {
        lemma_done_is_terminal(s2, more);
    }
}

/// Law: from any reachable state about to make attempt `k`, a reply with
/// extractable content, a successful write, and a passing validation end the
/// file's processing — the final content is attempt `k`'s extracted content,
/// `k` completion round-trips have occurred in all, and no attempt `k + 1`
/// follows.
pub proof fn lemma_validation_pass_ends_attempts(s: SessionModel, reply: Seq<char>)
    requires
        wf(s),
        s.phase == Phase::AwaitCompletion,
        s.has_validator,
        extract_spec(reply) is Ok,
    ensures
        ({
            let t = run_model(
                s,
                seq![
                    Event::Completion(Option::Some(reply)),
                    Event::WriteResult(true),
                    Event::Validation(true),
                ],
            );
            &&& t.phase == Phase::Done(Outcome::Succeeded)
            &&& t.current == extract_spec(reply)->Ok_0
            &&& t.attempt == s.attempt
            &&& t.completions == s.attempt
            &&& final_content(t) == Option::Some(extract_spec(reply)->Ok_0)
            &&& forall|more: Seq<Event>| run_model(t, more) == t
        }),
{
    let es = seq![
        Event::Completion(Option::Some(reply)),
        Event::WriteResult(true),
        Event::Validation(true),
    ];
    let s1 = step_model(s, es[0]);
    let s2 = step_model(s1, es[1]);
    let s3 = step_model(s2, es[2]);
    assert(es.drop_first() =~= seq![Event::WriteResult(true), Event::Validation(true)]);
    assert(es.drop_first().drop_first() =~= seq![Event::Validation(true)]);
    assert(es.drop_first().drop_first().drop_first() =~= Seq::<Event>::empty());
    assert(run_model(s, es) == run_model(s1, es.drop_first()));
    assert(run_model(s1, es.drop_first()) == run_model(s2, es.drop_first().drop_first()));
    assert(run_model(s2, es.drop_first().drop_first()) == run_model(
        s3,
        es.drop_first().drop_first().drop_first(),
    ));
    assert forall|more: Seq<Event>| run_model(s3, more) == s3 by {
        lemma_done_is_terminal(s3, more);
    }
}

/// The event reports no fatal I/O failure.
pub open spec fn no_fatal_event(e: Event) -> bool {
    match e {
        Event::WriteResult(ok) => ok,
        Event::ReadBack(content) => content is Some,
        Event::RestoreResult(ok) => ok,
        _ => true,
    }
}

/// The event is not a passing validation run.
pub open spec fn validation_fails(e: Event) -> bool {
    match e {
        Event::Validation(passed) => !passed,
        _ => true,
    }
}

/// Every event of the run reports failure-free I/O and a failing validator.
pub open spec fn validator_always_fails_run(events: Seq<Event>) -> bool {
    forall|i: int|
        0 <= i < events.len() ==> no_fatal_event(#[trigger] events[i]) && validation_fails(
            events[i],
        )
}

proof fn lemma_failing_validator_run(s: SessionModel, events: Seq<Event>)
    requires
        wf(s),
        s.has_validator,
        !(s.phase is Done),
        validator_always_fails_run(events),
        run_model(s, events).phase is Done,
    ensures
        run_model(s, events).phase == Phase::Done(Outcome::ExhaustedRestored),
        run_model(s, events).original == s.original,
        run_model(s, events).n_retries == s.n_retries,
        wf(run_model(s, events)),
    decreases events.len(),
{
    if events.len() == 0 {
        assert(run_model(s, events) == s);
    } else {
        let e = events[0];
        let s1 = step_model(s, e);
        assert(no_fatal_event(e) && validation_fails(e));
        lemma_step_preserves_wf(s, e);
        assert(validator_always_fails_run(events.drop_first())) by {
            assert forall|i: int|
                0 <= i < events.drop_first().len() implies no_fatal_event(
                #[trigger] events.drop_first()[i],
            ) && validation_fails(events.drop_first()[i]) by {
                assert(events.drop_first()[i] == events[i + 1]);
            }
        }
        if s1.phase is Done {
            assert(s1.phase == Phase::Done(Outcome::ExhaustedRestored));
            lemma_done_is_terminal(s1, events.drop_first());
        } else {
            lemma_failing_validator_run(s1, events.drop_first());
        }
    }
}

/// Law: where a validation command is configured and every validation run
/// fails, any run that ends at all (with failure-free I/O) ends with the
/// retry budget spent — `n_retries` completion round-trips — and with the
/// file restored to its original content, byte for byte.
pub proof fn lemma_failing_validator_restores(
    instruction: Seq<char>,
    original: Seq<char>,
    n_retries: nat,
    events: Seq<Event>,
)
    requires
        1 <= n_retries,
        validator_always_fails_run(events),
        run_model(init_model(instruction, original, n_retries, true), events).phase is Done,
    ensures
        ({
            let t = run_model(init_model(instruction, original, n_retries, true), events);
            &&& t.phase == Phase::Done(Outcome::ExhaustedRestored)
            &&& t.current == original
            &&& t.attempt == n_retries
            &&& t.completions == n_retries
            &&& final_content(t) == Option::Some(original)
        }),
{
    let s0 = init_model(instruction, original, n_retries, true);
    lemma_init_wf(instruction, original, n_retries, true);
    lemma_failing_validator_run(s0, events);
}

/// The executable state machine for one file. The caller reads `phase` for
/// the next action, performs it, and reports the result through the matching
/// `on_*` method.
pub struct Session {
    pub instruction: String,
    pub original: String,
    pub current: String,
    pub pending: String,
    pub n_retries: usize,
    pub has_validator: bool,
    pub attempt: usize,
    pub completions: usize,
    pub phase: Phase,
}

impl View for Session {
    type V = SessionModel;

    open spec fn view(&self) -> SessionModel {
        SessionModel {
            instruction: self.instruction@,
            original: self.original@,
            current: self.current@,
            pending: self.pending@,
            n_retries: self.n_retries as nat,
            has_validator: self.has_validator,
            attempt: self.attempt as nat,
            completions: self.completions as nat,
            phase: self.phase,
        }
    }
}

impl Session {
    /// Starts processing one file: `original` is the snapshot taken before
    /// any write, `n_retries` the attempt budget, `has_validator` whether a
    /// validation command is configured.
    pub fn new(
        instruction: String,
        original: String,
        n_retries: usize,
        has_validator: bool,
    ) -> (s: Session)
        requires
            1 <= n_retries,
        ensures
            s@ == init_model(instruction@, original@, n_retries as nat, has_validator),
            wf(s@),
    {
        let current = original.clone();
        Session {
            instruction,
            original,
            current,
            pending: String::new(),
            n_retries,
            has_validator,
            attempt: 1,
            completions: 0,
            phase: Phase::AwaitCompletion,
        }
    }

    /// The conversation for the pending attempt, built from the instruction
    /// and the current content.
    pub fn prompt(&self) -> (msgs: Vec<Message>)
        ensures
            msgs@.len() == 4,
            msgs@[0]@ == (Role::System, system_prompt()),
            msgs@[1]@ == (Role::User, example_request()),
            msgs@[2]@ == (Role::Assistant, example_reply()),
            msgs@[3]@ == (Role::User, request_content(self@.instruction, self@.current)),
    {
        build_conversation(self.instruction.as_str(), self.current.as_str())
    }

    /// Reports the completion service's reply for the pending attempt;
    /// `None` means the request or the response's shape failed. Extraction
    /// happens here: a reply without the markers fails the attempt just as a
    /// transport failure does, and nothing is written.
    pub fn on_completion(&mut self, reply: Option<&str>)
        requires
            wf(old(self)@),
            old(self)@.phase == Phase::AwaitCompletion,
        ensures
            final(self)@ == step_model(
                old(self)@,
                Event::Completion(
                    match reply {
                        Option::Some(text) => Option::Some(text@),
                        Option::None => Option::None,
                    },
                ),
            ),
            wf(final(self)@),
    {
        proof {
            lemma_step_preserves_wf(
                self@,
                Event::Completion(
                    match reply {
                        Option::Some(text) => Option::Some(text@),
                        Option::None => Option::None,
                    },
                ),
            );
        }
        self.completions = self.completions + 1;
        let extracted: Option<String> = match reply {
            Option::Some(text) => match extract_changed_contents(text) {
                Result::Ok(c) => Option::Some(c),
                Result::Err(_) => Option::None,
            },
            Option::None => Option::None,
        };
        match extracted {
            Option::Some(c) => {
                self.pending = c;
                self.phase = Phase::AwaitWrite;
            },
            Option::None => self.fail_attempt_exec(),
        }
    }

    /// Reports whether writing the pending content to the file succeeded.
    pub fn on_write_result(&mut self, ok: bool)
        requires
            wf(old(self)@),
            old(self)@.phase == Phase::AwaitWrite,
        ensures
            final(self)@ == step_model(old(self)@, Event::WriteResult(ok)),
            wf(final(self)@),
    {
        proof {
            lemma_step_preserves_wf(self@, Event::WriteResult(ok));
        }
        if !ok {
            self.phase = Phase::Done(Outcome::FatalIo);
        } else {
            self.current = self.pending.clone();
            if self.has_validator {
                self.phase = Phase::AwaitValidation;
            } else {
                self.phase = Phase::Done(Outcome::Succeeded);
            }
        }
    }

    /// Reports whether the validation command passed.
    pub fn on_validation(&mut self, passed: bool)
        requires
            wf(old(self)@),
            old(self)@.phase == Phase::AwaitValidation,
        ensures
            final(self)@ == step_model(old(self)@, Event::Validation(passed)),
            wf(final(self)@),
    {
        proof {
            lemma_step_preserves_wf(self@, Event::Validation(passed));
        }
        if passed {
            self.phase = Phase::Done(Outcome::Succeeded);
        } else if self.attempt < self.n_retries {
            self.phase = Phase::AwaitReadBack;
        } else {
            self.phase = Phase::AwaitRestore;
        }
    }

    /// Reports the file's content as re-read after a failed validation;
    /// `None` means the read failed.
    pub fn on_read_back(&mut self, content: Option<String>)
        requires
            wf(old(self)@),
            old(self)@.phase == Phase::AwaitReadBack,
        ensures
            final(self)@ == step_model(
                old(self)@,
                Event::ReadBack(
                    match &content {
                        Option::Some(c) => Option::Some(c@),
                        Option::None => Option::None,
                    },
                ),
            ),
            wf(final(self)@),
    {
        proof {
            lemma_step_preserves_wf(
                self@,
                Event::ReadBack(
                    match &content {
                        Option::Some(c) => Option::Some(c@),
                        Option::None => Option::None,
                    },
                ),
            );
        }
        match content {
            Option::Some(c) => {
                self.current = c;
                self.attempt = self.attempt + 1;
                self.phase = Phase::AwaitCompletion;
            },
            Option::None => self.phase = Phase::Done(Outcome::FatalIo),
        }
    }

    /// Reports whether writing the original content back succeeded.
    pub fn on_restore_result(&mut self, ok: bool)
        requires
            wf(old(self)@),
            old(self)@.phase == Phase::AwaitRestore,
        ensures
            final(self)@ == step_model(old(self)@, Event::RestoreResult(ok)),
            wf(final(self)@),
    {
        proof {
            lemma_step_preserves_wf(self@, Event::RestoreResult(ok));
        }
        if ok {
            self.current = self.original.clone();
            self.phase = Phase::Done(Outcome::ExhaustedRestored);
        } else {
            self.phase = Phase::Done(Outcome::FatalIo);
        }
    }

    /// A failed attempt: advance, restore, or give up, as [`fail_attempt`]
    /// says.
    fn fail_attempt_exec(&mut self)
        requires
            1 <= old(self)@.attempt <= old(self)@.n_retries,
        ensures
            final(self)@ == fail_attempt(old(self)@),
    {
        if self.attempt < self.n_retries {
            self.attempt = self.attempt + 1;
            self.phase = Phase::AwaitCompletion;
        } else if self.has_validator {
            self.phase = Phase::AwaitRestore;
        } else {
            self.phase = Phase::Done(Outcome::ExhaustedUnrestored);
        }
    }
}

} // verus!
