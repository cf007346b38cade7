//! The service's answers to keys, timeouts and composition events.
use std::time::Duration;

use awaza::calls::{next_call, Next};
use awaza::chord::{ChordResponse, KeyAction, SpecialKey, TimerCommand};
use awaza::clock::Span;
use awaza::keys::KeyClassification;
use awaza::preedit::{apply_actions, edits};
use awaza::timers::{timer_op, TimerOp};
use awaza::tip::{
    key_answer, request_outcome, EditCall, EditStep, SessionTarget, TimeoutCall, TipAction,
    TipState,
};

type State = TipState<&'static str, u32, &'static str>;

const BACKSPACE: KeyAction = KeyAction::SpecialKey(SpecialKey::Backspace);

fn span(duration: Duration) -> Span {
    Span { secs: duration.as_secs(), nanos: duration.subsec_nanos() }
}

/// A request of a session in `context` under the client id.
fn at(context: &'static &'static str, tid: u32) -> Option<SessionTarget<&'static &'static str>> {
    Some(SessionTarget { context, tid, flags: 7 })
}

fn open(state: &mut State, composition: u32) {
    assert_eq!(state.composition_opened(Ok::<u32, i32>(composition)), Ok(()));
}

fn fresh() -> State {
    TipState::new(Ok::<&'static str, String>("engine"))
}

/// What the engine's own response type says, as the service takes it.
fn taken(response: timed_fsm::Response<KeyAction, usize>) -> ChordResponse {
    ChordResponse {
        consumed: response.consumed,
        actions: response.actions,
        timers: response
            .timers
            .iter()
            .map(|timer| match timer {
                timed_fsm::TimerCommand::Set { id, duration } => {
                    TimerCommand::Start { id: *id, duration: span(*duration) }
                }
                timed_fsm::TimerCommand::Kill { id } => TimerCommand::Kill { id: *id },
            })
            .collect(),
    }
}

fn shown(actions: &[TipAction]) -> Vec<String> {
    actions
        .iter()
        .map(|action| match action {
            TipAction::Update { text } => format!("update {text}"),
            TipAction::Timer { op: TimerOp::Start { id, period_ms } } => {
                format!("start {id} {period_ms}")
            }
            TipAction::Timer { op: TimerOp::Kill { id } } => format!("kill {id}"),
            TipAction::Confirm => "confirm".to_string(),
        })
        .collect()
}

#[test]
fn characters_are_appended() {
    let text = apply_actions("か", &vec![KeyAction::Char('な'), KeyAction::Char('。')]);
    assert_eq!(text.as_deref(), Some("かな。"));
}

#[test]
fn a_speculative_character_is_replaced() {
    let text = apply_actions("かは", &vec![BACKSPACE, KeyAction::Char('ば')]);
    assert_eq!(text.as_deref(), Some("かば"));
}

#[test]
fn a_backspace_on_nothing_still_counts_as_an_edit() {
    assert_eq!(apply_actions("", &vec![BACKSPACE]).as_deref(), Some(""));
    assert_eq!(apply_actions("\u{20BB7}", &vec![BACKSPACE]).as_deref(), Some(""));
}

#[test]
fn unhandled_outputs_do_not_edit() {
    let other = KeyAction::SpecialKey(SpecialKey::Other);
    assert_eq!(apply_actions("か", &vec![KeyAction::Other, other]), None);
    assert_eq!(apply_actions("か", &vec![]), None);
    let text = apply_actions("か", &vec![KeyAction::Other, KeyAction::Char('き'), other]);
    assert_eq!(text.as_deref(), Some("かき"));
}

#[test]
fn characters_and_backspaces_are_the_edits() {
    assert!(edits(KeyAction::Char('か')));
    assert!(edits(BACKSPACE));
    assert!(!edits(KeyAction::SpecialKey(SpecialKey::Other)));
    assert!(!edits(KeyAction::Other));
}

#[test]
fn two_batches_edit_as_one() {
    let first = vec![KeyAction::Char('a'), BACKSPACE, BACKSPACE];
    let second = vec![KeyAction::Char('b')];
    let between = apply_actions("xy", &first).unwrap();
    let both: Vec<KeyAction> = first.iter().chain(second.iter()).copied().collect();
    assert_eq!(apply_actions(&between, &second), apply_actions("xy", &both));
}

#[test]
fn timer_instructions_become_calls() {
    assert_eq!(
        timer_op(TimerCommand::Start { id: 2, duration: span(Duration::from_secs(u64::MAX)) }),
        TimerOp::Start { id: 2, period_ms: u32::MAX }
    );
    assert_eq!(
        timer_op(TimerCommand::Start { id: 1, duration: Span { secs: 0, nanos: 100_999_999 } }),
        TimerOp::Start { id: 1, period_ms: 100 }
    );
    assert_eq!(timer_op(TimerCommand::Kill { id: 9 }), TimerOp::Kill { id: 9 });
}

#[test]
fn a_new_service_has_nothing_open() {
    let state = fresh();
    assert_eq!(state.preedit(), "");
    assert_eq!(state.composition(), None);
    assert_eq!(state.hwnd(), 0);
    assert_eq!(state.session_target(), None);
    assert_eq!(state.engine(), Some(&"engine"));
}

#[test]
fn a_missing_engine_does_not_stop_the_service() {
    let state: State = TipState::new(Err::<&'static str, &str>("no dictionary"));
    assert_eq!(state.engine(), None);
    assert_eq!(state.preedit(), "");
}

#[test]
fn a_key_brings_its_context() {
    let mut state = fresh();
    state.activated(42);
    assert_eq!(state.on_key_down(Some("doc"), 0x41), Some(0x41));
    let call = state.key_down_call(0x41, 5, Some('a'));
    assert_eq!(call.event.vk_code, 0x41);
    assert_eq!(call.event.timestamp, 5);
    assert_eq!(call.event.key_classification, KeyClassification::Char);
    assert!(!call.context.composing);
    assert_eq!(state.session_target(), at(&"doc", 42));
    assert_eq!(state.on_key_down(Some("other"), 0x1D), Some(0x1D));
    let again = state.key_down_call(0x1D, 6, Some('a'));
    assert_eq!(again.event.key_classification, KeyClassification::LeftThumb);
    assert_eq!(again.event.physical_pos, None);
    assert_eq!(state.session_target(), at(&"other", 42));
    assert_eq!(state.on_key_down(Some("other"), 0x1_0041), Some(0));
}

#[test]
fn a_key_without_context_changes_nothing() {
    let mut state = fresh();
    assert_eq!(state.on_key_down(None, 0x41), None);
    assert_eq!(state.session_target(), None);
    state.on_key_down(Some("doc"), 0x41);
    assert_eq!(state.on_key_down(None, 0x42), None);
    assert_eq!(state.session_target(), at(&"doc", 0));
}

#[test]
fn the_context_of_the_last_key_stays() {
    let mut state = fresh();
    state.on_key_down(Some("doc"), 0x41);
    open(&mut state, 7);
    state.update_requested("か".to_string(), &Err::<(), i32>(-1));
    assert_eq!(state.composition_closed(Err::<(), i32>(-2)), Err(-2));
    state.composition_terminated();
    state.activated(8);
    assert_eq!(state.session_target(), at(&"doc", 8));
}

#[test]
fn keys_are_never_eaten() {
    assert!(!key_answer());
}

#[test]
fn a_timer_before_the_first_key_is_ignored() {
    let mut state = fresh();
    assert_eq!(state.on_timer_fired(1), None);
    state.on_key_down(Some("doc"), 0x41);
    assert_eq!(state.on_timer_fired(1), Some(TimeoutCall { timer_id: 1, composing: false }));
    open(&mut state, 7);
    assert_eq!(state.on_timer_fired(2), Some(TimeoutCall { timer_id: 2, composing: true }));
}

#[test]
fn a_response_updates_then_sets_timers() {
    let state = fresh();
    let response = taken(
        timed_fsm::Response::emit(vec![KeyAction::Char('か'), KeyAction::Char('な')])
            .with_kill_timer(1)
            .with_timer(2, Duration::from_millis(30)),
    );
    let expected = vec!["update かな", "kill 1", "start 2 30"];
    assert_eq!(shown(&state.key_actions(&response)), expected);
    assert_eq!(shown(&state.timeout_actions(&response)), expected);
}

#[test]
fn a_foreign_key_confirms_last() {
    let state = fresh();
    let response = taken(timed_fsm::Response::pass_through().with_kill_timer(1));
    assert_eq!(shown(&state.key_actions(&response)), vec!["kill 1", "confirm"]);
    assert_eq!(shown(&state.timeout_actions(&response)), vec!["kill 1"]);
}

#[test]
fn an_empty_response_asks_for_nothing() {
    let state = fresh();
    let consumed = taken(timed_fsm::Response::consume());
    assert!(state.key_actions(&consumed).is_empty());
    assert!(state.timeout_actions(&consumed).is_empty());
    assert!(consumed.is_empty());
    let waiting = timed_fsm::Response::consume().with_kill_timer(1);
    assert!(!taken(waiting).is_empty());
    assert!(!taken(timed_fsm::Response::emit_one(KeyAction::Other)).is_empty());
    let foreign = taken(timed_fsm::Response::pass_through());
    assert_eq!(shown(&state.key_actions(&foreign)), vec!["confirm"]);
}

#[test]
fn a_killed_timer_does_not_run() {
    let response = taken(
        timed_fsm::Response::consume()
            .with_timer(1, Duration::from_millis(100))
            .with_timer(2, Duration::from_millis(30))
            .with_kill_timer(1),
    );
    let mut running: Vec<(usize, u32)> = Vec::new();
    for action in fresh().key_actions(&response) {
        match action {
            TipAction::Timer { op: TimerOp::Start { id, period_ms } } => {
                running.retain(|timer| timer.0 != id);
                running.push((id, period_ms));
            }
            TipAction::Timer { op: TimerOp::Kill { id } } => running.retain(|t| t.0 != id),
            other => panic!("unexpected {other:?}"),
        }
    }
    assert_eq!(running, vec![(2, 30)]);
}

#[test]
fn the_text_follows_granted_requests_only() {
    let mut state = fresh();
    state.update_requested("か".to_string(), &Ok::<(), i32>(()));
    assert_eq!(state.preedit(), "か");
    state.update_requested("かな".to_string(), &Err::<(), i32>(-1));
    assert_eq!(state.preedit(), "か");
}

#[test]
fn compositions_do_not_pile_up() {
    let mut state = fresh();
    assert!(matches!(state.edit_step("か"), EditStep::Skip));
    state.on_key_down(Some("doc"), 0x4B);
    match state.edit_step("か") {
        EditStep::Open { units } => assert_eq!(units, vec![0x304B]),
        other => panic!("unexpected {other:?}"),
    }
    open(&mut state, 7);
    match state.edit_step("かな") {
        EditStep::Replace { units } => assert_eq!(units, vec![0x304B, 0x306A]),
        other => panic!("unexpected {other:?}"),
    }
    assert_eq!(state.composition(), Some(&7));
}

#[test]
fn confirming_needs_a_composition_and_a_context() {
    let mut state = fresh();
    state.activated(3);
    assert_eq!(state.confirm_target(), None);
    open(&mut state, 7);
    assert_eq!(state.confirm_target(), None);
    state.on_key_down(Some("doc"), 0x0D);
    assert_eq!(state.confirm_target(), at(&"doc", 3));
}

#[test]
fn closing_clears_and_a_failure_keeps() {
    let mut state = fresh();
    state.on_key_down(Some("doc"), 0x0D);
    open(&mut state, 7);
    state.update_requested("か".to_string(), &Ok::<(), i32>(()));
    assert_eq!(state.composition_closed(Err::<(), i32>(-5)), Err(-5));
    assert_eq!(state.composition(), Some(&7));
    assert_eq!(state.preedit(), "か");
    assert_eq!(state.composition_closed(Ok::<(), i32>(())), Ok(()));
    assert_eq!(state.composition(), None);
    assert_eq!(state.preedit(), "");
    assert_eq!(state.confirm_target(), None);
    assert_eq!(state.session_target(), at(&"doc", 0));
}

#[test]
fn an_outside_end_clears() {
    let mut state = fresh();
    open(&mut state, 7);
    state.update_requested("か".to_string(), &Ok::<(), i32>(()));
    state.composition_terminated();
    assert_eq!(state.composition(), None);
    assert_eq!(state.preedit(), "");
    assert_eq!(state.engine(), Some(&"engine"));
}

#[test]
fn the_window_is_kept_only_if_made() {
    let mut state = fresh();
    assert_eq!(state.window_to_destroy(), None);
    state.window_made(Err::<isize, &str>("refused"));
    assert_eq!(state.window_to_destroy(), None);
    state.window_made(Ok::<isize, &str>(0x1234));
    assert_eq!(state.hwnd(), 0x1234);
    assert_eq!(state.window_to_destroy(), Some(0x1234));
}

#[test]
fn a_chord_from_key_to_confirmation() {
    let mut state = fresh();
    state.activated(9);
    assert_eq!(state.on_key_down(Some("doc"), 0x48), Some(0x48));
    let speculative = taken(timed_fsm::Response::emit_one(KeyAction::Char('は')));
    for action in state.key_actions(&speculative) {
        if let TipAction::Update { text } = action {
            assert!(matches!(state.edit_step(&text), EditStep::Open { .. }));
            open(&mut state, 1);
            state.update_requested(text, &Ok::<(), i32>(()));
        }
    }
    assert_eq!(state.preedit(), "は");
    let corrected = taken(timed_fsm::Response::emit(vec![BACKSPACE, KeyAction::Char('み')]));
    for action in state.timeout_actions(&corrected) {
        if let TipAction::Update { text } = action {
            assert!(matches!(state.edit_step(&text), EditStep::Replace { .. }));
            state.update_requested(text, &Ok::<(), i32>(()));
        }
    }
    assert_eq!(state.preedit(), "み");
    assert_eq!(state.on_key_down(Some("doc"), 0x0D), Some(0x0D));
    assert!(state.key_down_call::<char>(0x0D, 20, None).context.composing);
    let foreign = taken(timed_fsm::Response::pass_through());
    assert_eq!(shown(&state.key_actions(&foreign)), vec!["confirm"]);
    assert!(state.confirm_target().is_some());
    assert_eq!(state.composition_closed(Ok::<(), i32>(())), Ok(()));
    assert_eq!(state.preedit(), "");
}

#[test]
fn only_a_refusal_fails_a_request() {
    assert_eq!(request_outcome::<i32>(None), Ok(()));
    assert_eq!(request_outcome(Some(Ok::<i32, i32>(0))), Ok(()));
    assert_eq!(request_outcome(Some(Ok::<i32, i32>(-1))), Ok(()));
    assert_eq!(request_outcome(Some(Err(-5))), Err(-5));
}

#[test]
fn a_text_with_nowhere_to_show_it_is_kept() {
    let mut state = fresh();
    assert_eq!(state.session_target(), None);
    state.update_requested("か".to_string(), &request_outcome::<i32>(None));
    assert_eq!(state.preedit(), "か");
    state.update_requested("かな".to_string(), &request_outcome(Some(Err(-5))));
    assert_eq!(state.preedit(), "か");
}

#[test]
fn a_failed_opening_keeps_no_composition() {
    let mut state = fresh();
    state.on_key_down(Some("doc"), 0x4B);
    assert_eq!(state.composition_opened(Err::<u32, i32>(-6)), Err(-6));
    assert_eq!(state.composition(), None);
    assert!(matches!(state.edit_step("か"), EditStep::Open { .. }));
    open(&mut state, 4);
    assert_eq!(state.composition(), Some(&4));
}

fn named(call: &EditCall) -> String {
    match call {
        EditCall::SetText { units } => format!("set {units:?}"),
        EditCall::InsertText { units } => format!("insert {units:?}"),
        other => format!("{other:?}"),
    }
}

/// The calls that an edit session makes when the one at `failing` fails.
fn session_with(state: &mut State, text: &str, failing: usize) -> (Vec<String>, Result<(), i32>) {
    let calls = state.edit_step(text).calls();
    let mut made = Vec::new();
    let mut last = Ok(());
    loop {
        match next_call(calls.len(), made.len(), last) {
            Next::Call { place } => {
                let outcome = if place == failing { Err(-20) } else { Ok(9) };
                last = match &calls[place] {
                    EditCall::StartComposition => state.composition_opened(outcome),
                    _ => outcome.map(|_| ()),
                };
                made.push(named(&calls[place]));
            }
            Next::Ended { result } => return (made, result),
        }
    }
}

#[test]
fn an_opening_session_ends_with_its_first_failure() {
    let all = vec!["FindInserter", "FindOpener", "insert [12363]", "StartComposition"];
    for failing in 0..4 {
        let mut state = fresh();
        state.on_key_down(Some("doc"), 0x4B);
        let (made, result) = session_with(&mut state, "か", failing);
        assert_eq!(made, all[..failing + 1]);
        assert_eq!(result, Err(-20));
        assert_eq!(state.composition(), None);
    }
    let mut state = fresh();
    state.on_key_down(Some("doc"), 0x4B);
    let (made, result) = session_with(&mut state, "か", usize::MAX);
    assert_eq!(made, all);
    assert_eq!(result, Ok(()));
    assert_eq!(state.composition(), Some(&9));
}

#[test]
fn a_replacing_session_keeps_its_composition() {
    let mut state = fresh();
    assert_eq!(session_with(&mut state, "か", 0), (vec![], Ok(())));
    state.on_key_down(Some("doc"), 0x4B);
    open(&mut state, 2);
    let (made, result) = session_with(&mut state, "き", 0);
    assert_eq!((made, result), (vec!["FindRange".to_string()], Err(-20)));
    let (made, result) = session_with(&mut state, "き", usize::MAX);
    assert_eq!(made, vec!["FindRange", "set [12365]"]);
    assert_eq!(result, Ok(()));
    assert_eq!(state.composition(), Some(&2));
}
