//! Laws of the service: what it keeps, what it asks and what it does.
use vstd::prelude::*;

use crate::chord::{ChordResponse, KeyAction, TimerCommand};
use crate::keys::{input_context, key_code, key_down_event, InputContext, RawKeyEvent};
use crate::laws::time::{carries_out, is_period, lemma_timers_obey, running_then, subject};
use crate::preedit::apply_actions;
use crate::timers::TimerOp;
use crate::tip::{
    key_actions, key_answer, models, request_outcome, timeout_actions, timers_for, update_for,
    KeyDownCall, SessionTarget, TimeoutCall, TipAction, TipActionModel, TipEvent, TipModel,
    TipState,
};

verus! {

/// A new service has a conversion engine exactly when one could be built, that one,
/// and nothing else yet.
pub proof fn lemma_new_service_is_empty<C, M, E, F>(
    engine: Result<E, F>,
    state: TipState<C, M, E>,
)
    requires
        call_ensures(TipState::<C, M, E>::new::<F>, (engine,), state),
    ensures
        state@.engine is Some <==> engine is Ok,
        engine is Ok ==> state@.engine->0 == engine->Ok_0,
        state@.context is None && state@.composition is None && state@.preedit.len() == 0,
        state@.tid == 0 && state@.hwnd == 0,
{
}

/// What the service shows of its state is its state.
pub proof fn lemma_state_is_shown<C, M, E>(
    state: &TipState<C, M, E>,
    hwnd: isize,
    composition: Option<&M>,
    preedit: &str,
    engine: Option<&E>,
)
    requires
        call_ensures(TipState::<C, M, E>::hwnd, (state,), hwnd),
        call_ensures(TipState::<C, M, E>::composition, (state,), composition),
        call_ensures(TipState::<C, M, E>::preedit, (state,), preedit),
        call_ensures(TipState::<C, M, E>::engine, (state,), engine),
    ensures
        hwnd == state@.hwnd,
        composition is Some <==> state@.composition is Some,
        composition is Some ==> *composition->0 == state@.composition->0,
        preedit@ == state@.preedit,
        engine is Some <==> state@.engine is Some,
        engine is Some ==> *engine->0 == state@.engine->0,
{
}

/// An activation changes the client id, to the new one whatever it was, and nothing
/// else.
pub proof fn lemma_activation_sets_the_client_id<C, M, E>(state: &mut TipState<C, M, E>, tid: u32)
    requires
        call_ensures(TipState::<C, M, E>::activated, (state, tid), ()),
    ensures
        final(state)@.tid == tid,
        final(state)@.hwnd == old(state)@.hwnd,
        final(state)@.context == old(state)@.context,
        final(state)@.composition == old(state)@.composition,
        final(state)@.preedit == old(state)@.preedit,
        final(state)@.engine == old(state)@.engine,
{
}

/// A window that was made is the one from now on, whatever was there; one that could
/// not be made changes nothing. Nothing but the window changes.
pub proof fn lemma_window_is_the_last_made<C, M, E, F>(
    state: &mut TipState<C, M, E>,
    made: Result<isize, F>,
)
    requires
        call_ensures(TipState::<C, M, E>::window_made::<F>, (state, made), ()),
    ensures
        made is Ok ==> final(state)@.hwnd == made->Ok_0,
        made is Err ==> final(state)@.hwnd == old(state)@.hwnd,
        final(state)@.tid == old(state)@.tid,
        final(state)@.context == old(state)@.context,
        final(state)@.composition == old(state)@.composition,
        final(state)@.preedit == old(state)@.preedit,
        final(state)@.engine == old(state)@.engine,
{
}

/// A deactivation that ended well destroys the window that there is, and one that did
/// not destroys none.
pub proof fn lemma_window_goes_with_the_service<C, M, E, F>(
    state: &TipState<C, M, E>,
    ended: &Result<(), F>,
    any: Option<isize>,
    destroyed: Option<isize>,
)
    requires
        call_ensures(TipState::<C, M, E>::window_to_destroy, (state,), any),
        call_ensures(
            TipState::<C, M, E>::window_after_deactivation::<F>,
            (state, ended),
            destroyed,
        ),
    ensures
        any is Some <==> state@.hwnd != 0,
        any is Some ==> any->0 == state@.hwnd,
        destroyed is Some <==> *ended is Ok && state@.hwnd != 0,
        destroyed is Some ==> destroyed->0 == state@.hwnd,
{
}

/// A key in a context brings that context, whatever was there, and is handed on as the
/// key that the message holds. A key without a context is not handed on and changes
/// nothing. Nothing but the context changes.
pub proof fn lemma_key_brings_its_context<C, M, E>(
    state: &mut TipState<C, M, E>,
    context: Option<C>,
    wparam: usize,
    vk: Option<u16>,
    code: u16,
)
    requires
        call_ensures(TipState::<C, M, E>::on_key_down, (state, context, wparam), vk),
        call_ensures(key_code, (wparam,), code),
    ensures
        context is Some ==> final(state)@.context == context && vk == Some(code),
        context is None ==> final(state)@.context == old(state)@.context && vk is None,
        final(state)@.tid == old(state)@.tid,
        final(state)@.hwnd == old(state)@.hwnd,
        final(state)@.composition == old(state)@.composition,
        final(state)@.preedit == old(state)@.preedit,
        final(state)@.engine == old(state)@.engine,
{
}

/// The engine is asked about the key as it was pressed, and told of a composition
/// exactly when one is open.
pub proof fn lemma_engine_is_asked_about_the_key<C, M, E, P>(
    state: &TipState<C, M, E>,
    vk: u16,
    timestamp: u64,
    position: Option<P>,
    call: KeyDownCall<P>,
    event: RawKeyEvent<P>,
    around: InputContext,
)
    requires
        call_ensures(
            TipState::<C, M, E>::key_down_call::<P>,
            (state, vk, timestamp, position),
            call,
        ),
        call_ensures(key_down_event::<P>, (vk, timestamp, position), event),
        call_ensures(input_context, (state@.composition is Some,), around),
    ensures
        call.event == event,
        call.context == around,
        call.event.vk_code == vk,
        call.event.timestamp == timestamp,
        call.context.composing <==> state@.composition is Some,
{
}

/// A timer that fires is handed to the engine under its own id, with word of a
/// composition exactly when one is open, and is ignored exactly when no key has brought
/// a context yet.
pub proof fn lemma_timer_is_handed_on<C, M, E>(
    state: &TipState<C, M, E>,
    timer_id: usize,
    call: Option<TimeoutCall>,
)
    requires
        call_ensures(TipState::<C, M, E>::on_timer_fired, (state, timer_id), call),
    ensures
        call is Some <==> state@.context is Some,
        call is Some ==> call->0.timer_id == timer_id,
        call is Some ==> (call->0.composing <==> state@.composition is Some),
{
}

/// Sessions are requested of the context that there is, under the client id that there
/// is, to run at once and to read and write.
pub proof fn lemma_sessions_are_requested_here<C, M, E>(
    state: &TipState<C, M, E>,
    target: Option<SessionTarget<&C>>,
    confirm: Option<SessionTarget<&C>>,
)
    requires
        call_ensures(TipState::<C, M, E>::session_target, (state,), target),
        call_ensures(TipState::<C, M, E>::confirm_target, (state,), confirm),
    ensures
        target is Some <==> state@.context is Some,
        target is Some ==> *target->0.context == state@.context->0 && target->0.tid == state@.tid
            && target->0.flags == 7,
        confirm is Some <==> state@.context is Some && state@.composition is Some,
        confirm is Some ==> *confirm->0.context == state@.context->0 && confirm->0.tid == state@.tid
            && confirm->0.flags == 7,
{
}

/// The text under composition becomes the text of a granted request, whole and
/// whatever it was, and stays at a refused one. Nothing but the text changes.
pub proof fn lemma_granted_text_is_kept<C, M, E, F>(
    state: &mut TipState<C, M, E>,
    text: String,
    outcome: &Result<(), F>,
)
    requires
        call_ensures(TipState::<C, M, E>::update_requested::<F>, (state, text, outcome), ()),
    ensures
        *outcome is Ok ==> final(state)@.preedit == text@,
        *outcome is Err ==> final(state)@.preedit == old(state)@.preedit,
        final(state)@.tid == old(state)@.tid,
        final(state)@.hwnd == old(state)@.hwnd,
        final(state)@.context == old(state)@.context,
        final(state)@.composition == old(state)@.composition,
        final(state)@.engine == old(state)@.engine,
{
}

/// A composition that was opened is the one from now on; a failed opening changes
/// nothing and is handed on. Nothing but the composition changes.
pub proof fn lemma_opened_composition_is_kept<C, M, E, F>(
    state: &mut TipState<C, M, E>,
    outcome: Result<M, F>,
    ended: Result<(), F>,
)
    requires
        call_ensures(TipState::<C, M, E>::composition_opened::<F>, (state, outcome), ended),
    ensures
        outcome is Ok ==> final(state)@.composition == Some(outcome->Ok_0) && ended is Ok,
        outcome is Err ==> final(state)@.composition == old(state)@.composition,
        outcome is Err ==> ended is Err && ended->Err_0 == outcome->Err_0,
        final(state)@.tid == old(state)@.tid,
        final(state)@.hwnd == old(state)@.hwnd,
        final(state)@.context == old(state)@.context,
        final(state)@.preedit == old(state)@.preedit,
        final(state)@.engine == old(state)@.engine,
{
}

/// Closing the composition takes it and its text away; a failed closing keeps both and
/// is handed on. Nothing else changes.
pub proof fn lemma_closed_composition_is_gone<C, M, E, F>(
    state: &mut TipState<C, M, E>,
    outcome: Result<(), F>,
    ended: Result<(), F>,
)
    requires
        call_ensures(TipState::<C, M, E>::composition_closed::<F>, (state, outcome), ended),
    ensures
        outcome is Ok ==> ended is Ok && final(state)@.composition is None
            && final(state)@.preedit.len() == 0,
        outcome is Err ==> ended is Err && ended->Err_0 == outcome->Err_0,
        outcome is Err ==> final(state)@.composition == old(state)@.composition
            && final(state)@.preedit == old(state)@.preedit,
        final(state)@.tid == old(state)@.tid,
        final(state)@.hwnd == old(state)@.hwnd,
        final(state)@.context == old(state)@.context,
        final(state)@.engine == old(state)@.engine,
{
}

/// The end of the composition from outside takes it and its text away, and nothing
/// else.
pub proof fn lemma_terminated_composition_is_gone<C, M, E>(state: &mut TipState<C, M, E>)
    requires
        call_ensures(TipState::<C, M, E>::composition_terminated, (state,), ()),
    ensures
        final(state)@.composition is None && final(state)@.preedit.len() == 0,
        final(state)@.tid == old(state)@.tid,
        final(state)@.hwnd == old(state)@.hwnd,
        final(state)@.context == old(state)@.context,
        final(state)@.engine == old(state)@.engine,
{
}

/// Each event changes what it is about and nothing else.
pub proof fn lemma_events_change_their_own<C, M, E>(
    state: TipModel<C, M, E>,
    event: TipEvent<C, M>,
)
    ensures
        !(event is Activated) ==> state.step(event).tid == state.tid,
        !(event is WindowMade) ==> state.step(event).hwnd == state.hwnd,
        !(event is KeyDown) ==> state.step(event).context == state.context,
        !(event is CompositionStarted || event is CompositionClosed
            || event is CompositionTerminated) ==> state.step(event).composition
            == state.composition,
        !(event is UpdateRequested || event is CompositionClosed
            || event is CompositionTerminated) ==> state.step(event).preedit == state.preedit,
        state.step(event).engine == state.engine,
{
}

/// After an activation sessions are requested under its client id, whatever the
/// service was before and whatever happens to it, until the next activation.
pub proof fn lemma_client_id_is_the_last_activations<C, M, E>(
    state: TipModel<C, M, E>,
    tid: u32,
    events: Seq<TipEvent<C, M>>,
)
    requires
        forall|i: int| 0 <= i < events.len() ==> !(#[trigger] events[i] is Activated),
    ensures
        ({
            let after = state.step(TipEvent::Activated { tid }).run(events);
            &&& after.tid == tid
            &&& after.session_target() is Some <==> after.context is Some
            &&& after.session_target() is Some ==> after.session_target()->0.tid == tid
            &&& after.confirm_target() is Some ==> after.confirm_target()->0.tid == tid
        }),
    decreases events.len(),
{
    if events.len() > 0 {
        let shorter = events.drop_last();
        assert forall|i: int| 0 <= i < shorter.len() implies !(
        #[trigger] shorter[i] is Activated) by {
            assert(shorter[i] == events[i]);
        }
        lemma_client_id_is_the_last_activations(state, tid, shorter);
        assert(!(events[events.len() - 1] is Activated));
    }
}

/// Timers run on the window that was made last, whatever happens, until another one is
/// made.
pub proof fn lemma_window_stays<C, M, E>(
    state: TipModel<C, M, E>,
    hwnd: isize,
    events: Seq<TipEvent<C, M>>,
)
    requires
        forall|i: int|
            0 <= i < events.len() ==> !(#[trigger] events[i] is WindowMade
                && events[i]->WindowMade_hwnd is Some),
    ensures
        state.step(TipEvent::WindowMade { hwnd: Some(hwnd) }).run(events).hwnd == hwnd,
    decreases events.len(),
{
    if events.len() > 0 {
        let shorter = events.drop_last();
        assert forall|i: int| 0 <= i < shorter.len() implies !(
        #[trigger] shorter[i] is WindowMade && shorter[i]->WindowMade_hwnd is Some) by {
            assert(shorter[i] == events[i]);
        }
        lemma_window_stays(state, hwnd, shorter);
        let last = events[events.len() - 1];
        assert(!(last is WindowMade && last->WindowMade_hwnd is Some));
    }
}

/// Whether things to do start the timers as told: one for one and in order, from the
/// place `from` on.
pub open spec fn timers_done(
    actions: Seq<TipAction>,
    from: int,
    commands: Seq<TimerCommand>,
) -> bool {
    forall|i: int|
        0 <= i < commands.len() ==> is_timer_done(actions[from + i], #[trigger] commands[i])
}

/// Whether a thing to do carries out a timer instruction.
pub open spec fn is_timer_done(action: TipAction, command: TimerCommand) -> bool {
    action is Timer && carries_out(action->op, command)
}

proof fn lemma_timer_models(response: ChordResponse, i: int)
    requires
        0 <= i < response.timers@.len(),
    ensures
        timers_for(response)[i] is Timer,
        carries_out(timers_for(response)[i]->op, response.timers@[i]),
{
    let ops = crate::timers::ops_of(response.timers@);
    assert(ops[i] == crate::timers::op_of(response.timers@[i]));
    assert(timers_for(response)[i] == TipActionModel::Timer { op: ops[i] });
}

proof fn lemma_models_are_faithful(actions: Seq<TipAction>, i: int)
    requires
        0 <= i < actions.len(),
    ensures
        models(actions).len() == actions.len(),
        models(actions)[i] is Update <==> actions[i] is Update,
        models(actions)[i] is Timer <==> actions[i] is Timer,
        models(actions)[i] is Confirm <==> actions[i] is Confirm,
        actions[i] is Update ==> models(actions)[i]->text == actions[i]->text@,
        actions[i] is Timer ==> models(actions)[i]->op == actions[i]->op,
{
    assert(models(actions)[i] == actions[i]@);
}

/// A timeout is answered with the new text first, if some output makes one, and that
/// text is what the outputs make of the text under composition. Then every timer
/// instruction is carried out, one for one and in order. Nothing else is done.
pub proof fn lemma_timeout_is_carried_out<C, M, E>(
    state: &TipState<C, M, E>,
    preedit: &str,
    response: &ChordResponse,
    applied: Option<String>,
    actions: Vec<TipAction>,
)
    requires
        preedit@ == state@.preedit,
        call_ensures(apply_actions, (preedit, &response.actions), applied),
        call_ensures(TipState::<C, M, E>::timeout_actions, (state, response), actions),
    ensures
        ({
            let updates: int = if applied is Some {
                1
            } else {
                0
            };
            &&& actions@.len() == updates + response.timers@.len()
            &&& applied is Some ==> actions@[0] is Update && actions@[0]->text@ == applied->0@
            &&& timers_done(actions@, updates, response.timers@)
        }),
{
    let all = models(actions@);
    assert(all == timeout_actions(preedit@, *response));
    let update = update_for(preedit@, *response);
    let updates = update.len() as int;
    assert(updates == if applied is Some { 1int } else { 0int });
    assert(all.len() == actions@.len());
    if applied is Some {
        assert(all[0] == update[0]);
        lemma_models_are_faithful(actions@, 0);
    }
    assert forall|i: int| 0 <= i < response.timers@.len() implies is_timer_done(
        actions@[updates + i],
        #[trigger] response.timers@[i],
    ) by {
        lemma_timer_models(*response, i);
        assert(all[updates + i] == timers_for(*response)[i]);
        lemma_models_are_faithful(actions@, updates + i);
    }
}

/// A key is answered as a timeout would be, and then, exactly when it is not the
/// engine's, the composition is closed, as the last thing.
pub proof fn lemma_key_is_carried_out<C, M, E>(
    state: &TipState<C, M, E>,
    preedit: &str,
    response: &ChordResponse,
    applied: Option<String>,
    actions: Vec<TipAction>,
)
    requires
        preedit@ == state@.preedit,
        call_ensures(apply_actions, (preedit, &response.actions), applied),
        call_ensures(TipState::<C, M, E>::key_actions, (state, response), actions),
    ensures
        ({
            let updates: int = if applied is Some {
                1
            } else {
                0
            };
            let confirms: int = if response.consumed {
                0
            } else {
                1
            };
            &&& actions@.len() == updates + response.timers@.len() + confirms
            &&& applied is Some ==> actions@[0] is Update && actions@[0]->text@ == applied->0@
            &&& timers_done(actions@, updates, response.timers@)
            &&& !response.consumed ==> actions@.last() is Confirm
        }),
{
    let all = models(actions@);
    assert(all == key_actions(preedit@, *response));
    let update = update_for(preedit@, *response);
    let updates = update.len() as int;
    assert(updates == if applied is Some { 1int } else { 0int });
    assert(all.len() == actions@.len());
    if applied is Some {
        assert(all[0] == update[0]);
        lemma_models_are_faithful(actions@, 0);
    }
    assert forall|i: int| 0 <= i < response.timers@.len() implies is_timer_done(
        actions@[updates + i],
        #[trigger] response.timers@[i],
    ) by {
        lemma_timer_models(*response, i);
        assert(all[updates + i] == timers_for(*response)[i]);
        lemma_models_are_faithful(actions@, updates + i);
    }
    if !response.consumed {
        lemma_models_are_faithful(actions@, actions@.len() - 1);
        assert(all[all.len() - 1] == TipActionModel::Confirm);
    }
}

/// The calls on the hidden window among things to do, in order.
pub open spec fn timer_calls(actions: Seq<TipAction>) -> Seq<TimerOp>
    decreases actions.len(),
{
    if actions.len() == 0 {
        Seq::empty()
    } else {
        let before = timer_calls(actions.drop_last());
        match actions.last() {
            TipAction::Timer { op } => before.push(op),
            _ => before,
        }
    }
}

proof fn lemma_timer_calls(
    actions: Seq<TipAction>,
    from: int,
    commands: Seq<TimerCommand>,
)
    requires
        0 <= from,
        actions.len() >= from + commands.len(),
        timers_done(actions, from, commands),
        forall|i: int|
            0 <= i < from || from + commands.len() <= i < actions.len() ==> !(
            #[trigger] actions[i] is Timer),
    ensures
        timer_calls(actions).len() == commands.len(),
        forall|i: int|
            0 <= i < commands.len() ==> carries_out(
                #[trigger] timer_calls(actions)[i],
                commands[i],
            ),
    decreases actions.len(),
{
    if actions.len() > 0 {
        let shorter = actions.drop_last();
        if actions.len() > from + commands.len() {
            assert(!(actions[actions.len() - 1] is Timer));
            assert forall|i: int| 0 <= i < commands.len() implies is_timer_done(
                shorter[from + i],
                #[trigger] commands[i],
            ) by {
                assert(shorter[from + i] == actions[from + i]);
            }
            assert forall|i: int|
                0 <= i < from || from + commands.len() <= i < shorter.len() implies !(
            #[trigger] shorter[i] is Timer) by {
                assert(shorter[i] == actions[i]);
            }
            lemma_timer_calls(shorter, from, commands);
        } else if commands.len() > 0 {
            let fewer = commands.drop_last();
            let last = commands.len() - 1;
            assert(is_timer_done(actions[from + last], commands[last]));
            assert forall|i: int| 0 <= i < fewer.len() implies is_timer_done(
                shorter[from + i],
                #[trigger] fewer[i],
            ) by {
                assert(shorter[from + i] == actions[from + i]);
                assert(fewer[i] == commands[i]);
            }
            assert forall|i: int|
                0 <= i < from || from + fewer.len() <= i < shorter.len() implies !(
            #[trigger] shorter[i] is Timer) by {
                assert(shorter[i] == actions[i]);
            }
            lemma_timer_calls(shorter, from, fewer);
            let calls = timer_calls(actions);
            assert forall|i: int| 0 <= i < commands.len() implies carries_out(
                #[trigger] calls[i],
                commands[i],
            ) by {
                if i < last {
                    assert(calls[i] == timer_calls(shorter)[i]);
                    assert(fewer[i] == commands[i]);
                }
            }
        } else {
            assert(!(actions[actions.len() - 1] is Timer));
            assert forall|i: int|
                0 <= i < from - 1 || from - 1 + commands.len() <= i < shorter.len() implies !(
            #[trigger] shorter[i] is Timer) by {
                assert(shorter[i] == actions[i]);
            }
            lemma_timer_calls(shorter, from - 1, commands);
        }
    }
}

/// After what a key or a timeout asks for is done, every timer is as the last
/// instruction about it says: running with its period, or stopped. The others are as
/// they were.
pub proof fn lemma_timers_end_as_told<C, M, E>(
    state: &TipState<C, M, E>,
    preedit: &str,
    response: &ChordResponse,
    applied: Option<String>,
    on_key: Vec<TipAction>,
    on_timeout: Vec<TipAction>,
    running: Map<usize, u32>,
    id: usize,
)
    requires
        preedit@ == state@.preedit,
        call_ensures(apply_actions, (preedit, &response.actions), applied),
        call_ensures(TipState::<C, M, E>::key_actions, (state, response), on_key),
        call_ensures(TipState::<C, M, E>::timeout_actions, (state, response), on_timeout),
    ensures
        timer_calls(on_key@).len() == response.timers@.len(),
        timer_calls(on_timeout@).len() == response.timers@.len(),
        forall|at: int|
            0 <= at < response.timers@.len() && subject(response.timers@[at]) == id && (forall|
                i: int,
            |
                at < i < response.timers@.len() ==> subject(#[trigger] response.timers@[i]) != id)
                ==> {
                let after_key = running_then(running, timer_calls(on_key@));
                let after_timeout = running_then(running, timer_calls(on_timeout@));
                match #[trigger] response.timers@[at] {
                    TimerCommand::Start { duration, .. } => {
                        &&& after_key.dom().contains(id) && is_period(after_key[id], duration)
                        &&& after_timeout.dom().contains(id) && is_period(
                            after_timeout[id],
                            duration,
                        )
                    },
                    TimerCommand::Kill { .. } => !after_key.dom().contains(id)
                        && !after_timeout.dom().contains(id),
                }
            },
        (forall|i: int|
            0 <= i < response.timers@.len() ==> subject(#[trigger] response.timers@[i]) != id)
            ==> {
            let after_key = running_then(running, timer_calls(on_key@));
            &&& after_key.dom().contains(id) == running.dom().contains(id)
            &&& running.dom().contains(id) ==> after_key[id] == running[id]
        },
{
    lemma_timeout_is_carried_out(state, preedit, response, applied, on_timeout);
    lemma_key_is_carried_out(state, preedit, response, applied, on_key);
    let updates: int = if applied is Some {
        1
    } else {
        0
    };
    lemma_timer_calls(on_key@, updates, response.timers@);
    lemma_timer_calls(on_timeout@, updates, response.timers@);
    lemma_timers_obey(running, response.timers@, timer_calls(on_key@), id);
    lemma_timers_obey(running, response.timers@, timer_calls(on_timeout@), id);
}

/// A request fails exactly when the host refuses it, and with the refusal.
pub proof fn lemma_only_refusals_fail<F>(
    request: Option<Result<i32, F>>,
    outcome: Result<(), F>,
)
    requires
        call_ensures(request_outcome::<F>, (request,), outcome),
    ensures
        outcome is Err <==> request is Some && request->0 is Err,
        outcome is Err ==> outcome->Err_0 == request->0->Err_0,
{
}

/// Keys are never eaten.
pub proof fn lemma_keys_reach_the_application(eaten: bool)
    requires
        call_ensures(key_answer, (), eaten),
    ensures
        !eaten,
{
}

/// An answer is taken for empty exactly when it has no output and no timer
/// instruction.
pub proof fn lemma_empty_answers_hold_nothing(response: &ChordResponse, empty: bool)
    requires
        call_ensures(ChordResponse::is_empty, (response,), empty),
    ensures
        empty <==> (forall|action: KeyAction| !response.actions@.contains(action)) && (forall|
            command: TimerCommand,
        | !response.timers@.contains(command)),
{
    if response.actions@.len() > 0 {
        assert(response.actions@.contains(response.actions@[0]));
    }
    if response.timers@.len() > 0 {
        assert(response.timers@.contains(response.timers@[0]));
    }
}

} // verus!
