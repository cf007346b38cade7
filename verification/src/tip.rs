//! The state of the text service, and what it does with each event.
//!
//! The service's handles are opaque here: `C` is a document context, `M` a
//! composition in it, `E` the conversion engine. A composition is opened, edited
//! and closed by the host inside edit sessions; the service decides, and is told
//! how each session ended.
use vstd::prelude::*;

use crate::calls::{all_succeed, is_first_failure, lemma_first_failure_ends, run_calls};
use crate::chord::ChordResponse;
use crate::keys::{input_context, key_code, key_down_event, InputContext, RawKeyEvent};
use crate::preedit::apply_actions;
use crate::timers::{timer_op, TimerOp};
use crate::utf16::encode;

verus! {

/// How edit sessions are requested: to run at once (1), reading and writing (6).
pub const EDIT_SESSION_FLAGS: u32 = 7;

/// Where and how an edit session is requested.
#[derive(Debug, PartialEq, Eq)]
pub struct SessionTarget<C> {
    /// The context to request it of.
    pub context: C,
    /// The client id to request it under.
    pub tid: u32,
    /// How it is to run.
    pub flags: u32,
}

/// The service's state.
pub struct TipState<C, M, E> {
    tid: u32,
    hwnd: isize,
    context: Option<C>,
    composition: Option<M>,
    preedit: String,
    engine: Option<E>,
}

/// The service's state, with its text as characters.
#[verifier::ext_equal]
pub struct TipModel<C, M, E> {
    /// The client id that the host gave.
    pub tid: u32,
    /// The hidden window that timers run on; zero for none.
    pub hwnd: isize,
    /// The context of the last key.
    pub context: Option<C>,
    /// The open composition.
    pub composition: Option<M>,
    /// The text under composition.
    pub preedit: Seq<char>,
    /// The conversion engine, if its dictionaries are there.
    pub engine: Option<E>,
}

impl<C, M, E> View for TipState<C, M, E> {
    type V = TipModel<C, M, E>;

    closed spec fn view(&self) -> TipModel<C, M, E> {
        TipModel {
            tid: self.tid,
            hwnd: self.hwnd,
            context: self.context,
            composition: self.composition,
            preedit: self.preedit@,
            engine: self.engine,
        }
    }
}

/// An event that changes the service's state.
pub enum TipEvent<C, M> {
    /// The host activated the service under a client id.
    Activated { tid: u32 },
    /// The hidden window was asked for; `None` when it could not be made.
    WindowMade { hwnd: Option<isize> },
    /// A key went down, in a context if the host gave one.
    KeyDown { context: Option<C> },
    /// The edit session that shows a text was requested.
    UpdateRequested { text: Seq<char>, granted: bool },
    /// A composition was opened.
    CompositionStarted { composition: M },
    /// The open composition, if any, was closed by the service.
    CompositionClosed { closed: bool },
    /// The composition was closed from outside.
    CompositionTerminated,
}

impl<C, M, E> TipModel<C, M, E> {
    /// A service that no host has activated.
    pub open spec fn initial(engine: Option<E>) -> Self {
        TipModel {
            tid: 0,
            hwnd: 0,
            context: None,
            composition: None,
            preedit: Seq::empty(),
            engine,
        }
    }

    /// The state without composition and text.
    pub open spec fn cleared(self) -> Self {
        TipModel { composition: None, preedit: Seq::empty(), ..self }
    }

    /// The state after an event.
    pub open spec fn step(self, event: TipEvent<C, M>) -> Self {
        match event {
            TipEvent::Activated { tid } => TipModel { tid, ..self },
            TipEvent::WindowMade { hwnd } => match hwnd {
                Some(hwnd) => TipModel { hwnd, ..self },
                None => self,
            },
            TipEvent::KeyDown { context } => match context {
                Some(_) => TipModel { context, ..self },
                None => self,
            },
            TipEvent::UpdateRequested { text, granted } => if granted {
                TipModel { preedit: text, ..self }
            } else {
                self
            },
            TipEvent::CompositionStarted { composition } => TipModel {
                composition: Some(composition),
                ..self
            },
            TipEvent::CompositionClosed { closed } => if closed {
                self.cleared()
            } else {
                self
            },
            TipEvent::CompositionTerminated => self.cleared(),
        }
    }

    /// The state after events in order.
    pub open spec fn run(self, events: Seq<TipEvent<C, M>>) -> Self
        decreases events.len(),
    {
        if events.len() == 0 {
            self
        } else {
            self.run(events.drop_last()).step(events.last())
        }
    }

    /// Where an edit session is requested.
    pub open spec fn session_target(self) -> Option<SessionTarget<C>> {
        match self.context {
            Some(context) => Some(
                SessionTarget { context, tid: self.tid, flags: EDIT_SESSION_FLAGS },
            ),
            None => None,
        }
    }

    /// Where the session that closes the composition is requested: nowhere
    /// without an open composition.
    pub open spec fn confirm_target(self) -> Option<SessionTarget<C>> {
        if self.composition is Some {
            self.session_target()
        } else {
            None
        }
    }

    /// The window that a deactivation destroys: none where unadvising the key sink
    /// failed.
    pub open spec fn window_after_deactivation(self, unadvised: bool) -> Option<isize> {
        if unadvised && self.hwnd != 0 {
            Some(self.hwnd)
        } else {
            None
        }
    }

    /// What the edit session does to show a text.
    pub open spec fn edit_for(self, text: Seq<char>) -> EditStepModel {
        if self.context is None {
            EditStepModel::Skip
        } else if self.composition is Some {
            EditStepModel::Replace { units: crate::utf16::units(text) }
        } else {
            EditStepModel::Open { units: crate::utf16::units(text) }
        }
    }

    /// How the edit session that shows a text goes: the state it leaves, how many
    /// calls it makes and how it ends. `outcomes` holds how each call ends if it is
    /// made, `opened` is the composition that the host hands out if it opens one.
    pub open spec fn after_session<F>(
        self,
        text: Seq<char>,
        outcomes: Seq<Result<(), F>>,
        opened: M,
    ) -> (Self, nat, Result<(), F>) {
        let calls = calls_of(self.edit_for(text));
        let (made, result) = run_calls(calls.len() as usize, outcomes);
        let started = calls.len() > 0 && calls.last() is StartComposition && result is Ok;
        (
            if started {
                self.step(TipEvent::CompositionStarted { composition: opened })
            } else {
                self
            },
            made,
            result,
        )
    }
}

/// What an edit session does to show a text.
#[derive(Debug)]
pub enum EditStep {
    /// Nothing: there is no context.
    Skip,
    /// Replaces the text of the open composition.
    Replace { units: Vec<u16> },
    /// Inserts the text at the selection and opens a composition over it.
    Open { units: Vec<u16> },
}

/// What an edit session does, with its text as code units.
#[verifier::ext_equal]
pub enum EditStepModel {
    Skip,
    Replace { units: Seq<u16> },
    Open { units: Seq<u16> },
}

impl View for EditStep {
    type V = EditStepModel;

    open spec fn view(&self) -> EditStepModel {
        match self {
            EditStep::Skip => EditStepModel::Skip,
            EditStep::Replace { units } => EditStepModel::Replace { units: units@ },
            EditStep::Open { units } => EditStepModel::Open { units: units@ },
        }
    }
}

/// One call of an edit session.
#[derive(Debug)]
pub enum EditCall {
    /// Asks the open composition for the range it covers.
    FindRange,
    /// Replaces the text of that range.
    SetText { units: Vec<u16> },
    /// Asks the context for what inserts text in it.
    FindInserter,
    /// Asks the context for what opens compositions in it.
    FindOpener,
    /// Inserts the text at the selection.
    InsertText { units: Vec<u16> },
    /// Opens a composition over the inserted text.
    StartComposition,
}

/// One call of an edit session, with its text as code units.
#[verifier::ext_equal]
pub enum EditCallModel {
    FindRange,
    SetText { units: Seq<u16> },
    FindInserter,
    FindOpener,
    InsertText { units: Seq<u16> },
    StartComposition,
}

impl View for EditCall {
    type V = EditCallModel;

    open spec fn view(&self) -> EditCallModel {
        match self {
            EditCall::FindRange => EditCallModel::FindRange,
            EditCall::SetText { units } => EditCallModel::SetText { units: units@ },
            EditCall::FindInserter => EditCallModel::FindInserter,
            EditCall::FindOpener => EditCallModel::FindOpener,
            EditCall::InsertText { units } => EditCallModel::InsertText { units: units@ },
            EditCall::StartComposition => EditCallModel::StartComposition,
        }
    }
}

/// The models of an edit session's calls, in order.
pub open spec fn call_models(calls: Seq<EditCall>) -> Seq<EditCallModel> {
    calls.map_values(|call: EditCall| call@)
}

/// The calls of an edit session, in order. The first one that fails ends them.
pub open spec fn calls_of(edit: EditStepModel) -> Seq<EditCallModel> {
    match edit {
        EditStepModel::Skip => Seq::empty(),
        EditStepModel::Replace { units } => seq![
            EditCallModel::FindRange,
            EditCallModel::SetText { units },
        ],
        EditStepModel::Open { units } => seq![
            EditCallModel::FindInserter,
            EditCallModel::FindOpener,
            EditCallModel::InsertText { units },
            EditCallModel::StartComposition,
        ],
    }
}

impl EditStep {
    /// The calls that carry the step out, in order.
    pub fn calls(self) -> (calls: Vec<EditCall>)
        ensures
            call_models(calls@) == calls_of(self@),
    {
        let mut calls: Vec<EditCall> = Vec::new();
        match self {
            EditStep::Skip => {},
            EditStep::Replace { units } => {
                calls.push(EditCall::FindRange);
                calls.push(EditCall::SetText { units });
            },
            EditStep::Open { units } => {
                calls.push(EditCall::FindInserter);
                calls.push(EditCall::FindOpener);
                calls.push(EditCall::InsertText { units });
                calls.push(EditCall::StartComposition);
            },
        }
        assert(call_models(calls@) =~= calls_of(self@));
        calls
    }
}

/// How requesting an edit session ended, where `request` is what the host answered,
/// with the session's own status, and `None` where there was nowhere to request it.
pub open spec fn outcome_of<F>(request: Option<Result<i32, F>>) -> Result<(), F> {
    match request {
        Some(Err(error)) => Err(error),
        _ => Ok(()),
    }
}

/// How requesting an edit session ended: it fails exactly when the host refuses it.
/// Having nowhere to request it counts as success, and the session's own status does
/// not matter.
pub fn request_outcome<F>(request: Option<Result<i32, F>>) -> (outcome: Result<(), F>)
    ensures
        outcome == outcome_of(request),
{
    match request {
        Some(Err(error)) => Err(error),
        _ => Ok(()),
    }
}

/// What the host is answered to a key, whatever the key is and whatever came of it:
/// keys are never eaten.
pub fn key_answer() -> (eaten: bool)
    ensures
        !eaten,
{
    false
}

/// One thing to do in answer to a key or a timeout.
#[derive(Debug)]
pub enum TipAction {
    /// Requests the edit session that shows this text.
    Update { text: String },
    /// Starts or stops a timer.
    Timer { op: TimerOp },
    /// Closes the composition, if one is open.
    Confirm,
}

/// One thing to do, with its text as characters.
#[verifier::ext_equal]
pub enum TipActionModel {
    Update { text: Seq<char> },
    Timer { op: TimerOp },
    Confirm,
}

impl View for TipAction {
    type V = TipActionModel;

    open spec fn view(&self) -> TipActionModel {
        match self {
            TipAction::Update { text } => TipActionModel::Update { text: text@ },
            TipAction::Timer { op } => TipActionModel::Timer { op: *op },
            TipAction::Confirm => TipActionModel::Confirm,
        }
    }
}

/// The models of things to do, in order.
pub open spec fn models(actions: Seq<TipAction>) -> Seq<TipActionModel> {
    actions.map_values(|action: TipAction| action@)
}

/// What a response does to the text under composition.
pub open spec fn update_for(preedit: Seq<char>, response: ChordResponse) -> Seq<TipActionModel> {
    if crate::preedit::any_edit(response.actions@) {
        seq![
            TipActionModel::Update {
                text: crate::preedit::edited_by(preedit, response.actions@),
            },
        ]
    } else {
        Seq::empty()
    }
}

/// What a response does to the timers.
pub open spec fn timers_for(response: ChordResponse) -> Seq<TipActionModel> {
    crate::timers::ops_of(response.timers@).map_values(
        |op: TimerOp| TipActionModel::Timer { op },
    )
}

/// What to do with the response to a timeout.
pub open spec fn timeout_actions(preedit: Seq<char>, response: ChordResponse) -> Seq<
    TipActionModel,
> {
    update_for(preedit, response) + timers_for(response)
}

/// What to do with the response to a key: a key that is not the engine's closes
/// the composition, after all else.
pub open spec fn key_actions(preedit: Seq<char>, response: ChordResponse) -> Seq<TipActionModel> {
    if response.consumed {
        timeout_actions(preedit, response)
    } else {
        timeout_actions(preedit, response).push(TipActionModel::Confirm)
    }
}

/// What the engine is asked when a key goes down.
#[derive(Debug)]
pub struct KeyDownCall<P> {
    pub event: RawKeyEvent<P>,
    pub context: InputContext,
}

/// What the engine is asked when a timer fires.
#[derive(Clone, Copy, Debug, PartialEq, Eq, Structural)]
pub struct TimeoutCall {
    pub timer_id: usize,
    pub composing: bool,
}

impl<C, M, E> TipState<C, M, E> {
    /// A service that no host has activated. An engine that could not be built
    /// is left out: the service starts without it.
    pub fn new<F>(engine: Result<E, F>) -> (state: Self)
        ensures
            state@ == TipModel::<C, M, E>::initial(
                match engine {
                    Ok(built) => Some(built),
                    Err(_) => None,
                },
            ),
    {
        let engine = match engine {
            Ok(built) => Some(built),
            Err(_) => None,
        };
        TipState {
            tid: 0,
            hwnd: 0,
            context: None,
            composition: None,
            preedit: String::new(),
            engine,
        }
    }

    /// The hidden window that timers run on; zero for none.
    pub fn hwnd(&self) -> (hwnd: isize)
        ensures
            hwnd == self@.hwnd,
    {
        self.hwnd
    }

    /// The open composition.
    pub fn composition(&self) -> (composition: Option<&M>)
        ensures
            composition == (match self@.composition {
                Some(open) => Some(&open),
                None => None,
            }),
    {
        self.composition.as_ref()
    }

    /// The text under composition.
    pub fn preedit(&self) -> (text: &str)
        ensures
            text@ == self@.preedit,
    {
        self.preedit.as_str()
    }

    /// The conversion engine.
    pub fn engine(&self) -> (engine: Option<&E>)
        ensures
            engine == (match self@.engine {
                Some(built) => Some(&built),
                None => None,
            }),
    {
        self.engine.as_ref()
    }

    /// Takes the client id of an activation.
    pub fn activated(&mut self, tid: u32)
        ensures
            final(self)@ == old(self)@.step(TipEvent::Activated { tid }),
    {
        self.tid = tid;
    }

    /// Takes the hidden window, if it could be made.
    pub fn window_made<F>(&mut self, made: Result<isize, F>)
        ensures
            final(self)@ == old(self)@.step(
                TipEvent::WindowMade {
                    hwnd: match made {
                        Ok(hwnd) => Some(hwnd),
                        Err(_) => None,
                    },
                },
            ),
    {
        match made {
            Ok(hwnd) => {
                self.hwnd = hwnd;
            },
            Err(_) => {},
        }
    }

    /// The window to destroy when the host deactivates the service.
    pub fn window_to_destroy(&self) -> (hwnd: Option<isize>)
        ensures
            hwnd == (if self@.hwnd != 0 {
                Some(self@.hwnd)
            } else {
                None
            }),
    {
        if self.hwnd != 0 {
            Some(self.hwnd)
        } else {
            None
        }
    }

    /// The window to destroy at the end of a deactivation, where `ended` is how
    /// unadvising the key sink ended. A failure leaves the window for the next
    /// deactivation.
    pub fn window_after_deactivation<F>(&self, ended: &Result<(), F>) -> (hwnd: Option<isize>)
        ensures
            hwnd == self@.window_after_deactivation(ended is Ok),
    {
        if ended.is_ok() {
            self.window_to_destroy()
        } else {
            None
        }
    }

    /// Takes a key that goes down: `wparam` is the message's parameter. The context
    /// is kept for timers, which fire outside any key event. Hands out the virtual
    /// key that the engine is to be asked about; without a context nothing happens.
    pub fn on_key_down(&mut self, context: Option<C>, wparam: usize) -> (vk: Option<u16>)
        ensures
            final(self)@ == old(self)@.step(TipEvent::KeyDown { context }),
            vk == (if context is Some {
                Some(crate::keys::vk_of(wparam))
            } else {
                None
            }),
    {
        match context {
            Some(given) => {
                self.context = Some(given);
                Some(key_code(wparam))
            },
            None => None,
        }
    }

    /// What the engine is asked about a key that goes down now: `position` is where
    /// the layout has it.
    pub fn key_down_call<P>(&self, vk: u16, timestamp: u64, position: Option<P>) -> (call:
        KeyDownCall<P>)
        ensures
            call == (KeyDownCall {
                event: crate::keys::down_event(vk, timestamp, position),
                context: crate::keys::surroundings(self@.composition is Some),
            }),
    {
        KeyDownCall {
            event: key_down_event(vk, timestamp, position),
            context: input_context(self.composition.is_some()),
        }
    }

    /// Takes a timer that fires. It is ignored before the first key, when no
    /// context is known.
    pub fn on_timer_fired(&self, timer_id: usize) -> (call: Option<TimeoutCall>)
        ensures
            call == (if self@.context is Some {
                Some(TimeoutCall { timer_id, composing: self@.composition is Some })
            } else {
                None
            }),
    {
        if self.context.is_some() {
            Some(TimeoutCall { timer_id, composing: self.composition.is_some() })
        } else {
            None
        }
    }

    /// What to do with the engine's response to a timeout, in order.
    pub fn timeout_actions(&self, response: &ChordResponse) -> (actions: Vec<TipAction>)
        ensures
            models(actions@) == timeout_actions(self@.preedit, *response),
    {
        let mut actions: Vec<TipAction> = Vec::new();
        match apply_actions(self.preedit.as_str(), &response.actions) {
            Some(text) => {
                actions.push(TipAction::Update { text });
            },
            None => {},
        }
        let ghost update = models(actions@);
        assert(update =~= update_for(self@.preedit, *response));
        let mut i: usize = 0;
        while i < response.timers.len()
            invariant
                i <= response.timers@.len(),
                models(actions@) == update + timers_for(*response).take(i as int),
            decreases response.timers.len() - i,
        {
            let ghost before = actions@;
            let op: TimerOp = timer_op(response.timers[i]);
            actions.push(TipAction::Timer { op });
            i = i + 1;
            proof {
                assert(models(actions@) =~= models(before).push(TipActionModel::Timer { op }));
                assert(timers_for(*response).take(i as int) =~= timers_for(*response).take(
                    i - 1,
                ).push(TipActionModel::Timer { op }));
                assert(models(actions@) =~= update + timers_for(*response).take(i as int));
            }
        }
        assert(timers_for(*response).take(i as int) =~= timers_for(*response));
        actions
    }

    /// What to do with the engine's response to a key, in order.
    pub fn key_actions(&self, response: &ChordResponse) -> (actions: Vec<TipAction>)
        ensures
            models(actions@) == key_actions(self@.preedit, *response),
    {
        let mut actions: Vec<TipAction> = self.timeout_actions(response);
        if !response.consumed {
            let ghost before = actions@;
            actions.push(TipAction::Confirm);
            assert(models(actions@) =~= models(before).push(TipActionModel::Confirm));
        }
        actions
    }

    /// Where to request the edit session that shows a text. Without a context
    /// nothing is requested.
    pub fn session_target(&self) -> (target: Option<SessionTarget<&C>>)
        ensures
            target == (match self@.session_target() {
                Some(to) => Some(
                    SessionTarget { context: &to.context, tid: to.tid, flags: to.flags },
                ),
                None => None,
            }),
    {
        match &self.context {
            Some(context) => Some(
                SessionTarget { context, tid: self.tid, flags: EDIT_SESSION_FLAGS },
            ),
            None => None,
        }
    }

    /// Takes how the request to show `text` ended: the text under composition
    /// follows only a granted request.
    pub fn update_requested<F>(&mut self, text: String, outcome: &Result<(), F>)
        ensures
            final(self)@ == old(self)@.step(
                TipEvent::UpdateRequested { text: text@, granted: outcome is Ok },
            ),
    {
        if outcome.is_ok() {
            self.preedit = text;
        }
    }

    /// What the edit session does to show `text`.
    pub fn edit_step(&self, text: &str) -> (edit: EditStep)
        ensures
            edit@ == self@.edit_for(text@),
    {
        match &self.context {
            None => EditStep::Skip,
            Some(_) => {
                let units: Vec<u16> = encode(text);
                match &self.composition {
                    Some(_) => EditStep::Replace { units },
                    None => EditStep::Open { units },
                }
            },
        }
    }

    /// Takes how opening a composition ended: on success the composition is kept, on
    /// failure the state stays and the failure is handed on.
    pub fn composition_opened<F>(&mut self, outcome: Result<M, F>) -> (ended: Result<(), F>)
        ensures
            final(self)@ == (match outcome {
                Ok(composition) => old(self)@.step(TipEvent::CompositionStarted { composition }),
                Err(_) => old(self)@,
            }),
            ended == (match outcome {
                Ok(_) => Ok(()),
                Err(error) => Err(error),
            }),
    {
        match outcome {
            Ok(composition) => {
                self.composition = Some(composition);
                Ok(())
            },
            Err(error) => Err(error),
        }
    }

    /// Where to request the session that closes the composition.
    pub fn confirm_target(&self) -> (target: Option<SessionTarget<&C>>)
        ensures
            target == (match self@.confirm_target() {
                Some(to) => Some(
                    SessionTarget { context: &to.context, tid: to.tid, flags: to.flags },
                ),
                None => None,
            }),
    {
        match &self.composition {
            Some(_) => self.session_target(),
            None => None,
        }
    }

    /// Takes how closing the composition ended: on success composition and text
    /// are gone, on failure both stay and the failure is handed on.
    pub fn composition_closed<F>(&mut self, outcome: Result<(), F>) -> (ended: Result<(), F>)
        ensures
            final(self)@ == old(self)@.step(TipEvent::CompositionClosed { closed: outcome is Ok }),
            ended == outcome,
    {
        if outcome.is_ok() {
            self.composition = None;
            self.preedit = String::new();
        }
        outcome
    }

    /// Takes the end of the composition from outside.
    pub fn composition_terminated(&mut self)
        ensures
            final(self)@ == old(self)@.step(TipEvent::CompositionTerminated),
    {
        self.composition = None;
        self.preedit = String::new();
    }
}

/// Once a key has brought a context there always is one, so every later timer is
/// handed to the engine.
pub proof fn lemma_context_stays<C, M, E>(
    state: TipModel<C, M, E>,
    events: Seq<TipEvent<C, M>>,
)
    requires
        state.context is Some,
    ensures
        state.run(events).context is Some,
    decreases events.len(),
{
    if events.len() > 0 {
        lemma_context_stays(state, events.drop_last());
    }
}

/// The context that a key brings is the one for all that follows, until another key
/// brings one: nothing else changes it, however sessions and compositions end.
pub proof fn lemma_context_is_the_last_keys<C, M, E>(
    state: TipModel<C, M, E>,
    context: C,
    events: Seq<TipEvent<C, M>>,
)
    requires
        forall|i: int| 0 <= i < events.len() ==> !(#[trigger] events[i] is KeyDown),
    ensures
        state.step(TipEvent::KeyDown { context: Some(context) }).run(events).context == Some(
            context,
        ),
    decreases events.len(),
{
    if events.len() > 0 {
        let shorter = events.drop_last();
        assert forall|i: int| 0 <= i < shorter.len() implies !(#[trigger] shorter[i] is KeyDown) by {
            assert(shorter[i] == events[i]);
        }
        lemma_context_is_the_last_keys(state, context, shorter);
        assert(!(events[events.len() - 1] is KeyDown));
    }
}

/// The engine that the service started with stays, and one that was missing stays
/// missing.
pub proof fn lemma_engine_stays<C, M, E>(
    state: TipModel<C, M, E>,
    events: Seq<TipEvent<C, M>>,
)
    ensures
        state.run(events).engine == state.engine,
    decreases events.len(),
{
    if events.len() > 0 {
        lemma_engine_stays(state, events.drop_last());
    }
}

/// Compositions do not pile up: while one is open, showing a text replaces its
/// text and opens no other.
pub proof fn lemma_one_composition<C, M, E>(
    state: TipModel<C, M, E>,
    composition: M,
    text: Seq<char>,
)
    ensures
        state.step(TipEvent::CompositionStarted { composition }).edit_for(text) !is Open,
        state.edit_for(text) is Open ==> state.composition is None,
{
}

/// After the composition is closed or terminated there is no composition and no
/// text, whatever was there before; nothing is left to confirm.
pub proof fn lemma_closing_clears<C, M, E>(state: TipModel<C, M, E>)
    ensures
        state.step(TipEvent::CompositionClosed { closed: true }) == state.step(
            TipEvent::CompositionTerminated,
        ),
        state.cleared().composition is None,
        state.cleared().preedit.len() == 0,
        state.cleared().confirm_target() is None,
        state.cleared().cleared() == state.cleared(),
{
}

/// A key without a context, a window that could not be made, and a refused or
/// failed edit session leave the state as it was.
pub proof fn lemma_failures_change_nothing<C, M, E>(state: TipModel<C, M, E>, text: Seq<char>)
    ensures
        state.step(TipEvent::KeyDown { context: None }) == state,
        state.step(TipEvent::WindowMade { hwnd: None }) == state,
        state.step(TipEvent::UpdateRequested { text, granted: false }) == state,
        state.step(TipEvent::CompositionClosed { closed: false }) == state,
{
}

/// A key in a context finds the open composition: closing it is requested there,
/// under the client id of the activation.
pub proof fn lemma_key_reaches_composition<C, M, E>(state: TipModel<C, M, E>, context: C)
    requires
        state.composition is Some,
    ensures
        state.step(TipEvent::KeyDown { context: Some(context) }).confirm_target() == Some(
            SessionTarget { context, tid: state.tid, flags: EDIT_SESSION_FLAGS },
        ),
{
}

/// Without a new start no composition comes back after it is gone.
pub proof fn lemma_stays_closed<C, M, E>(
    state: TipModel<C, M, E>,
    events: Seq<TipEvent<C, M>>,
)
    requires
        state.composition is None,
        forall|i: int| 0 <= i < events.len() ==> !(#[trigger] events[i] is CompositionStarted),
    ensures
        state.run(events).composition is None,
        state.run(events).confirm_target() is None,
    decreases events.len(),
{
    if events.len() > 0 {
        let shorter = events.drop_last();
        assert forall|i: int| 0 <= i < shorter.len() implies !(
        #[trigger] shorter[i] is CompositionStarted) by {
            assert(shorter[i] == events[i]);
        }
        lemma_stays_closed(state, shorter);
        assert(!(events[events.len() - 1] is CompositionStarted));
    }
}

/// What the host shows is what the service holds: the code units that an edit
/// session writes for a text read back as that text, which a granted request
/// makes the text under composition.
pub proof fn lemma_shown_text_is_preedit<C, M, E>(state: TipModel<C, M, E>, text: Seq<char>)
    requires
        state.context is Some,
    ensures
        match state.edit_for(text) {
            EditStepModel::Skip => false,
            EditStepModel::Replace { units } => crate::utf16::text_of(units) == state.step(
                TipEvent::UpdateRequested { text, granted: true },
            ).preedit,
            EditStepModel::Open { units } => crate::utf16::text_of(units) == state.step(
                TipEvent::UpdateRequested { text, granted: true },
            ).preedit,
        },
{
    crate::utf16::lemma_text_of_units(text);
}

/// The edit session that opens a composition ends well exactly when every call does,
/// and then the service holds the new composition. Otherwise it ends as the first
/// call that fails, no later call is made and no composition is held; where what
/// inserts text or opens compositions is not to be had, no text is inserted.
pub proof fn lemma_opening_session<C, M, E, F>(
    state: TipModel<C, M, E>,
    text: Seq<char>,
    outcomes: Seq<Result<(), F>>,
    opened: M,
)
    requires
        state.context is Some,
        state.composition is None,
        outcomes.len() == calls_of(state.edit_for(text)).len(),
    ensures
        ({
            let calls = calls_of(state.edit_for(text));
            let (after, made, result) = state.after_session(text, outcomes, opened);
            &&& result is Ok <==> all_succeed(outcomes)
            &&& result is Ok ==> made == calls.len() && after == state.step(
                TipEvent::CompositionStarted { composition: opened },
            )
            &&& result is Err ==> after == state
            &&& forall|at: int|
                is_first_failure(outcomes, at) ==> made == at + 1 && result
                    == #[trigger] outcomes[at]
            &&& outcomes[0] is Err || outcomes[1] is Err ==> made <= 2
            &&& forall|i: int|
                0 <= i < calls.len() && (#[trigger] calls[i] is InsertText) ==> i == 2
                    && calls[i] == EditCallModel::InsertText { units: crate::utf16::units(text) }
        }),
{
    let calls = calls_of(state.edit_for(text));
    lemma_first_failure_ends(calls.len() as usize, outcomes);
    if outcomes[0] is Err {
        assert(is_first_failure(outcomes, 0));
    } else if outcomes[1] is Err {
        assert(is_first_failure(outcomes, 1));
    }
}

/// The edit session that replaces the text of a composition leaves the state alone,
/// however it ends: it ends well exactly when both calls do, and without the range no
/// text is set. Without a context the session makes no call and ends well.
pub proof fn lemma_replacing_session<C, M, E, F>(
    state: TipModel<C, M, E>,
    text: Seq<char>,
    outcomes: Seq<Result<(), F>>,
    opened: M,
)
    requires
        state.context is None || state.composition is Some,
        outcomes.len() == calls_of(state.edit_for(text)).len(),
    ensures
        ({
            let (after, made, result) = state.after_session(text, outcomes, opened);
            &&& after == state
            &&& result is Ok <==> all_succeed(outcomes)
            &&& state.context is None ==> made == 0 && result is Ok
            &&& forall|at: int|
                is_first_failure(outcomes, at) ==> made == at + 1 && result
                    == #[trigger] outcomes[at]
        }),
{
    lemma_first_failure_ends(calls_of(state.edit_for(text)).len() as usize, outcomes);
}

/// The text under composition follows the request alone: it stays only where the host
/// refuses the request. It becomes the new text where the host grants the request,
/// whatever the session's own status, and where there was nowhere to request it.
pub proof fn lemma_text_follows_request<C, M, E, F>(
    state: TipModel<C, M, E>,
    text: Seq<char>,
    request: Option<Result<i32, F>>,
)
    ensures
        ({
            let granted = outcome_of(request) is Ok;
            let after = state.step(TipEvent::UpdateRequested { text, granted });
            &&& granted <==> !(request is Some && request->0 is Err)
            &&& granted ==> after == TipModel { preedit: text, ..state }
            &&& !granted ==> after == state
        }),
{
}

/// A key closes the composition exactly when it is not the engine's, and then as
/// the last thing it does; a timeout never closes it.
pub proof fn lemma_foreign_key_confirms(preedit: Seq<char>, response: ChordResponse)
    ensures
        key_actions(preedit, response).contains(TipActionModel::Confirm) <==> !response.consumed,
        !response.consumed ==> key_actions(preedit, response).last() == TipActionModel::Confirm,
        !timeout_actions(preedit, response).contains(TipActionModel::Confirm),
{
    let actions = timeout_actions(preedit, response);
    assert forall|i: int| 0 <= i < actions.len() implies actions[i] != TipActionModel::Confirm by {
        let update = update_for(preedit, response);
        if i < update.len() {
            assert(actions[i] == update[i]);
        } else {
            assert(actions[i] == timers_for(response)[i - update.len()]);
        }
    }
    if !response.consumed {
        let all = key_actions(preedit, response);
        assert(all[all.len() - 1] == TipActionModel::Confirm);
    }
}

/// A response without outputs and without timer instructions asks for nothing but
/// the confirmation that a foreign key brings.
pub proof fn lemma_empty_response(preedit: Seq<char>, response: ChordResponse)
    requires
        response.asks_nothing(),
    ensures
        timeout_actions(preedit, response).len() == 0,
        response.consumed ==> key_actions(preedit, response).len() == 0,
{
}

/// Every timer instruction of a response is carried out, in order, whether the
/// response came from a key or from a timeout.
pub proof fn lemma_all_timers_carried_out(preedit: Seq<char>, response: ChordResponse)
    ensures
        ({
            let skipped = update_for(preedit, response).len() as int;
            let count = response.timers@.len() as int;
            &&& timeout_actions(preedit, response).subrange(skipped, skipped + count)
                == timers_for(response)
            &&& key_actions(preedit, response).subrange(skipped, skipped + count) == timers_for(
                response,
            )
        }),
{
    let skipped = update_for(preedit, response).len() as int;
    let count = response.timers@.len() as int;
    assert(timeout_actions(preedit, response).subrange(skipped, skipped + count) =~= timers_for(
        response,
    ));
    assert(key_actions(preedit, response).subrange(skipped, skipped + count) =~= timers_for(
        response,
    ));
}

} // verus!
