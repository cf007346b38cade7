//! The service and the document together: what the user sees of a composition
//! follows what the service holds, whether the host grants requests or refuses them
//! and whether closing a composition succeeds or fails, as long as a session that
//! the host grants shows the text. The service does not look at how such a session
//! ended.
use vstd::prelude::*;

use crate::chord::ChordResponse;
use crate::preedit::{any_edit, edited_by};
use crate::tip::{
    calls_of, key_actions, timeout_actions, timers_for, update_for, EditCallModel, EditStepModel,
    TipActionModel, TipEvent, TipModel,
};
use crate::utf16::{lemma_text_of_units, text_of};

verus! {

/// The service's state, and the code units that the document shows in the open
/// composition.
#[verifier::ext_equal]
pub struct Scene<C, M, E> {
    pub state: TipModel<C, M, E>,
    pub shown: Option<Seq<u16>>,
}

/// A document while an edit session makes its calls, each of which succeeds.
#[verifier::ext_equal]
pub struct Document {
    /// The code units that the document shows in the open composition.
    pub shown: Option<Seq<u16>>,
    /// Whether the range of the composition was asked for.
    pub ranged: bool,
    /// Whether what inserts text was asked for.
    pub inserter: bool,
    /// Whether what opens compositions was asked for.
    pub opener: bool,
    /// The text that was inserted without a composition over it.
    pub inserted: Option<Seq<u16>>,
}

impl Document {
    /// A document at the start of an edit session.
    pub open spec fn showing(shown: Option<Seq<u16>>) -> Self {
        Document { shown, ranged: false, inserter: false, opener: false, inserted: None }
    }

    /// The document after one call. A call without what it works on does nothing.
    pub open spec fn after_call(self, call: EditCallModel) -> Self {
        match call {
            EditCallModel::FindRange => Document { ranged: self.shown is Some, ..self },
            EditCallModel::SetText { units } => if self.ranged {
                Document { shown: Some(units), ..self }
            } else {
                self
            },
            EditCallModel::FindInserter => Document { inserter: true, ..self },
            EditCallModel::FindOpener => Document { opener: true, ..self },
            EditCallModel::InsertText { units } => if self.inserter {
                Document { inserted: Some(units), ..self }
            } else {
                self
            },
            EditCallModel::StartComposition => if self.opener && self.inserted is Some {
                Document { shown: self.inserted, inserted: None, ..self }
            } else {
                self
            },
        }
    }

    /// The document after calls in order.
    pub open spec fn after_calls(self, calls: Seq<EditCallModel>) -> Self
        decreases calls.len(),
    {
        if calls.len() == 0 {
            self
        } else {
            self.after_calls(calls.drop_last()).after_call(calls.last())
        }
    }
}

/// What the host does with the requests of one exchange.
pub struct HostAnswer<M> {
    /// Whether it grants the session that shows a text, which then shows it.
    pub granted: bool,
    /// The composition that it hands out if the session opens one.
    pub opened: M,
    /// Whether it grants the session that closes the composition, and closing it
    /// succeeds.
    pub closed: bool,
}

/// What happens to the service.
pub enum Exchange<C, M> {
    /// A key goes down in a context, and the engine answers.
    Key { context: C, response: ChordResponse, host: HostAnswer<M> },
    /// A timer fires, and the engine answers.
    Timeout { response: ChordResponse, host: HostAnswer<M> },
    /// The composition is closed from outside.
    Terminated,
}

impl<C, M, E> Scene<C, M, E> {
    /// The document shows a composition exactly when the service holds one, it
    /// shows the text under composition, and without a composition there is no
    /// such text.
    pub open spec fn consistent(self) -> bool {
        &&& self.shown is Some <==> self.state.composition is Some
        &&& self.shown is Some ==> text_of(self.shown->0) == self.state.preedit
        &&& self.shown is None ==> self.state.preedit.len() == 0
    }

    /// After one thing that the service decided. A refused request and a failed
    /// closing leave the document as it was.
    pub open spec fn perform(self, action: TipActionModel, host: HostAnswer<M>) -> Self {
        match action {
            TipActionModel::Update { text } => {
                let requested = TipEvent::UpdateRequested { text, granted: host.granted };
                if !host.granted {
                    Scene { state: self.state.step(requested), ..self }
                } else {
                    let calls = calls_of(self.state.edit_for(text));
                    let started = calls.contains(EditCallModel::StartComposition);
                    Scene {
                        state: if started {
                            self.state.step(
                                TipEvent::CompositionStarted { composition: host.opened },
                            ).step(requested)
                        } else {
                            self.state.step(requested)
                        },
                        shown: Document::showing(self.shown).after_calls(calls).shown,
                    }
                }
            },
            TipActionModel::Timer { .. } => self,
            TipActionModel::Confirm => if self.state.confirm_target() is Some {
                Scene {
                    state: self.state.step(TipEvent::CompositionClosed { closed: host.closed }),
                    shown: if host.closed {
                        None
                    } else {
                        self.shown
                    },
                }
            } else {
                self
            },
        }
    }

    /// After what the service decided, in order.
    pub open spec fn perform_all(self, actions: Seq<TipActionModel>, host: HostAnswer<M>) -> Self
        decreases actions.len(),
    {
        if actions.len() == 0 {
            self
        } else {
            self.perform_all(actions.drop_last(), host).perform(actions.last(), host)
        }
    }

    /// After one exchange.
    pub open spec fn after(self, exchange: Exchange<C, M>) -> Self {
        match exchange {
            Exchange::Key { context, response, host } => Scene {
                state: self.state.step(TipEvent::KeyDown { context: Some(context) }),
                ..self
            }.perform_all(key_actions(self.state.preedit, response), host),
            Exchange::Timeout { response, host } => if self.state.context is Some {
                self.perform_all(timeout_actions(self.state.preedit, response), host)
            } else {
                self
            },
            Exchange::Terminated => Scene {
                state: self.state.step(TipEvent::CompositionTerminated),
                shown: None,
            },
        }
    }

    /// After exchanges in order.
    pub open spec fn after_all(self, exchanges: Seq<Exchange<C, M>>) -> Self
        decreases exchanges.len(),
    {
        if exchanges.len() == 0 {
            self
        } else {
            self.after_all(exchanges.drop_last()).after(exchanges.last())
        }
    }
}

proof fn lemma_perform_all_joins<C, M, E>(
    scene: Scene<C, M, E>,
    first: Seq<TipActionModel>,
    second: Seq<TipActionModel>,
    host: HostAnswer<M>,
)
    ensures
        scene.perform_all(first + second, host) == scene.perform_all(first, host).perform_all(
            second,
            host,
        ),
    decreases second.len(),
{
    if second.len() == 0 {
        assert(first + second =~= first);
    } else {
        lemma_perform_all_joins(scene, first, second.drop_last(), host);
        assert((first + second).drop_last() =~= first + second.drop_last());
    }
}

proof fn lemma_timers_show_nothing<C, M, E>(
    scene: Scene<C, M, E>,
    actions: Seq<TipActionModel>,
    host: HostAnswer<M>,
)
    requires
        forall|i: int| 0 <= i < actions.len() ==> #[trigger] actions[i] is Timer,
    ensures
        scene.perform_all(actions, host) == scene,
    decreases actions.len(),
{
    if actions.len() > 0 {
        let shorter = actions.drop_last();
        assert forall|i: int| 0 <= i < shorter.len() implies #[trigger] shorter[i] is Timer by {
            assert(shorter[i] == actions[i]);
        }
        lemma_timers_show_nothing(scene, shorter, host);
        assert(actions[actions.len() - 1] is Timer);
    }
}

/// The calls of an edit session, carried out, leave the document with the whole text in
/// its one composition and no text beside it: the open one where there is one, a new
/// one where there is none. Without a context they leave the document alone.
pub proof fn lemma_session_shows_text<C, M, E>(
    state: TipModel<C, M, E>,
    shown: Option<Seq<u16>>,
    text: Seq<char>,
)
    requires
        shown is Some <==> state.composition is Some,
    ensures
        ({
            let calls = calls_of(state.edit_for(text));
            let after = Document::showing(shown).after_calls(calls);
            &&& after.inserted is None
            &&& state.context is Some ==> after.shown is Some && text_of(after.shown->0) == text
            &&& state.context is None ==> after.shown == shown
            &&& calls.contains(EditCallModel::StartComposition) <==> state.context is Some
                && state.composition is None
        }),
{
    let edit = state.edit_for(text);
    let calls = calls_of(edit);
    let start = Document::showing(shown);
    lemma_text_of_units(text);
    reveal_with_fuel(Document::after_calls, 5);
    match edit {
        EditStepModel::Skip => {},
        EditStepModel::Replace { units } => {
            assert(calls.drop_last().drop_last() =~= Seq::<EditCallModel>::empty());
            assert(start.after_calls(calls).shown == Some(units));
        },
        EditStepModel::Open { units } => {
            assert(calls.drop_last().drop_last().drop_last().drop_last() =~= Seq::<
                EditCallModel,
            >::empty());
            assert(calls[3] == EditCallModel::StartComposition);
            assert(start.after_calls(calls).shown == Some(units));
        },
    }
}

/// What a response does, up to a confirmation.
pub open spec fn shown_response<C, M, E>(
    scene: Scene<C, M, E>,
    response: ChordResponse,
    host: HostAnswer<M>,
) -> Scene<C, M, E> {
    if any_edit(response.actions@) {
        scene.perform(
            TipActionModel::Update { text: edited_by(scene.state.preedit, response.actions@) },
            host,
        )
    } else {
        scene
    }
}

proof fn lemma_timeout_actions<C, M, E>(
    scene: Scene<C, M, E>,
    response: ChordResponse,
    host: HostAnswer<M>,
)
    ensures
        scene.perform_all(timeout_actions(scene.state.preedit, response), host)
            == shown_response(scene, response, host),
{
    let update = update_for(scene.state.preedit, response);
    lemma_perform_all_joins(scene, update, timers_for(response), host);
    lemma_timers_show_nothing(
        scene.perform_all(update, host),
        timers_for(response),
        host,
    );
    assert(scene.perform_all(update, host) == shown_response(scene, response, host)) by {
        reveal_with_fuel(Scene::perform_all, 2);
        if any_edit(response.actions@) {
            assert(update.drop_last() =~= Seq::<TipActionModel>::empty());
        }
    }
}

proof fn lemma_key_actions<C, M, E>(
    scene: Scene<C, M, E>,
    response: ChordResponse,
    host: HostAnswer<M>,
)
    ensures
        scene.perform_all(key_actions(scene.state.preedit, response), host) == (
        if response.consumed {
            shown_response(scene, response, host)
        } else {
            shown_response(scene, response, host).perform(TipActionModel::Confirm, host)
        }),
{
    lemma_timeout_actions(scene, response, host);
    if !response.consumed {
        let actions = timeout_actions(scene.state.preedit, response);
        assert(actions.push(TipActionModel::Confirm).drop_last() =~= actions);
    }
}

proof fn lemma_response_keeps_consistent<C, M, E>(
    scene: Scene<C, M, E>,
    response: ChordResponse,
    host: HostAnswer<M>,
)
    requires
        scene.consistent(),
        scene.state.context is Some,
    ensures
        shown_response(scene, response, host).consistent(),
        shown_response(scene, response, host).state.context == scene.state.context,
        host.granted ==> shown_response(scene, response, host).state.preedit == edited_by(
            scene.state.preedit,
            response.actions@,
        ),
        !host.granted ==> shown_response(scene, response, host) == scene,
{
    crate::preedit::lemma_unhandled_outputs_do_nothing(scene.state.preedit, response.actions@);
    lemma_session_shows_text(
        scene.state,
        scene.shown,
        edited_by(scene.state.preedit, response.actions@),
    );
}

/// What the document shows is what the service holds, after any exchanges and
/// whatever the host grants: a composition is visible exactly when the service has
/// one, and it reads as the text under composition.
pub proof fn lemma_document_follows_service<C, M, E>(
    scene: Scene<C, M, E>,
    exchanges: Seq<Exchange<C, M>>,
)
    requires
        scene.consistent(),
    ensures
        scene.after_all(exchanges).consistent(),
    decreases exchanges.len(),
{
    if exchanges.len() > 0 {
        let before = scene.after_all(exchanges.drop_last());
        lemma_document_follows_service(scene, exchanges.drop_last());
        match exchanges.last() {
            Exchange::Key { context, response, host } => {
                lemma_key_exchange(before, context, response, host);
            },
            Exchange::Timeout { response, host } => {
                lemma_timeout_exchange(before, response, host);
            },
            Exchange::Terminated => {},
        }
    }
}

/// A key edits the text by the engine's outputs, unless the host refuses to show it.
/// If the key is the engine's, the composition stays and reads as that text. If it is
/// not, no composition and no text are left once closing succeeds, so that no key can
/// leave the user stuck in one; where closing is refused or fails, both stay.
pub proof fn lemma_key_exchange<C, M, E>(
    scene: Scene<C, M, E>,
    context: C,
    response: ChordResponse,
    host: HostAnswer<M>,
)
    requires
        scene.consistent(),
    ensures
        ({
            let end = scene.after(Exchange::Key { context, response, host });
            let edited = edited_by(scene.state.preedit, response.actions@);
            let stays = response.consumed || !host.closed;
            &&& end.consistent()
            &&& end.state.context == Some(context)
            &&& stays && host.granted ==> end.state.preedit == edited
            &&& stays && host.granted && any_edit(response.actions@) ==> end.shown is Some
            &&& stays && !host.granted ==> end.shown == scene.shown && end.state.preedit
                == scene.state.preedit && end.state.composition == scene.state.composition
            &&& !stays ==> end.state.composition is None && end.shown is None
                && end.state.preedit.len() == 0
        }),
{
    let given = Scene {
        state: scene.state.step(TipEvent::KeyDown { context: Some(context) }),
        ..scene
    };
    lemma_key_actions(given, response, host);
    lemma_response_keeps_consistent(given, response, host);
}

/// A timeout edits the text by the engine's outputs and leaves the composition
/// open; before the first key, and where the host refuses to show the text, it changes
/// nothing.
pub proof fn lemma_timeout_exchange<C, M, E>(
    scene: Scene<C, M, E>,
    response: ChordResponse,
    host: HostAnswer<M>,
)
    requires
        scene.consistent(),
    ensures
        ({
            let end = scene.after(Exchange::Timeout { response, host });
            &&& end.consistent()
            &&& scene.state.context is None || !host.granted ==> end == scene
            &&& scene.state.context is Some && host.granted ==> end.state.preedit == edited_by(
                scene.state.preedit,
                response.actions@,
            )
            &&& scene.state.composition is Some ==> end.state.composition
                == scene.state.composition
        }),
{
    if scene.state.context is Some {
        lemma_timeout_actions(scene, response, host);
        lemma_response_keeps_consistent(scene, response, host);
    }
}

/// A new service and a document without composition fit together.
pub proof fn lemma_new_service_is_consistent<C, M, E>(engine: Option<E>)
    ensures
        (Scene::<C, M, E> { state: TipModel::initial(engine), shown: None }).consistent(),
{
}

} // verus!
