//! Laws of edit sessions: what the document gets to see of the text.
use vstd::prelude::*;

use crate::scene::{lemma_session_shows_text, Document};
use crate::tip::{call_models, calls_of, EditCall, EditCallModel, EditStep, TipState};
use crate::utf16::{encode, lemma_text_of_units, text_of};

verus! {

proof fn lemma_calls_are_faithful(calls: Seq<EditCall>, i: int)
    requires
        0 <= i < calls.len(),
    ensures
        call_models(calls).len() == calls.len(),
        call_models(calls)[i] is FindRange <==> calls[i] is FindRange,
        call_models(calls)[i] is SetText <==> calls[i] is SetText,
        call_models(calls)[i] is FindInserter <==> calls[i] is FindInserter,
        call_models(calls)[i] is FindOpener <==> calls[i] is FindOpener,
        call_models(calls)[i] is InsertText <==> calls[i] is InsertText,
        call_models(calls)[i] is StartComposition <==> calls[i] is StartComposition,
        calls[i] is SetText ==> call_models(calls)[i]->SetText_units == calls[i]->SetText_units@,
        calls[i] is InsertText ==> call_models(calls)[i]->InsertText_units
            == calls[i]->InsertText_units@,
{
    assert(call_models(calls)[i] == calls[i]@);
}

/// Showing a text takes the whole text into the document: the step holds the code
/// units of all of it. It replaces the text of the open composition where there is one,
/// opens a composition where there is none, and without a context does nothing.
pub proof fn lemma_step_holds_the_whole_text<C, M, E>(
    state: &TipState<C, M, E>,
    text: &str,
    encoded: Vec<u16>,
    edit: EditStep,
)
    requires
        call_ensures(encode, (text,), encoded),
        call_ensures(TipState::<C, M, E>::edit_step, (state, text), edit),
    ensures
        edit is Skip <==> state@.context is None,
        edit is Replace <==> state@.context is Some && state@.composition is Some,
        edit is Open <==> state@.context is Some && state@.composition is None,
        edit is Replace ==> edit->Replace_units@ == encoded@ && text_of(edit->Replace_units@)
            == text@,
        edit is Open ==> edit->Open_units@ == encoded@ && text_of(edit->Open_units@) == text@,
{
    assert(edit@ == state@.edit_for(text@));
    lemma_text_of_units(text@);
}

/// Replacing a text is finding the range of the composition and setting its text, once
/// and to all that the step holds. No text is inserted beside it, and no composition is
/// opened.
pub proof fn lemma_replacing_sets_the_whole_text(edit: EditStep, calls: Vec<EditCall>)
    requires
        call_ensures(EditStep::calls, (edit,), calls),
        edit is Replace,
    ensures
        calls@.len() == 2,
        calls@[0] is FindRange,
        calls@[1] is SetText && calls@[1]->SetText_units@ == edit->Replace_units@,
{
    let all = call_models(calls@);
    assert(all == calls_of(edit@));
    assert(all.len() == 2);
    lemma_calls_are_faithful(calls@, 0);
    lemma_calls_are_faithful(calls@, 1);
}

/// Opening a composition is finding what inserts text and what opens compositions,
/// inserting all that the step holds, once, and opening a composition over it, once.
/// No text is set.
pub proof fn lemma_opening_inserts_the_whole_text(edit: EditStep, calls: Vec<EditCall>)
    requires
        call_ensures(EditStep::calls, (edit,), calls),
        edit is Open,
    ensures
        calls@.len() == 4,
        calls@[0] is FindInserter,
        calls@[1] is FindOpener,
        calls@[2] is InsertText && calls@[2]->InsertText_units@ == edit->Open_units@,
        calls@[3] is StartComposition,
{
    let all = call_models(calls@);
    assert(all == calls_of(edit@));
    assert(all.len() == 4);
    lemma_calls_are_faithful(calls@, 0);
    lemma_calls_are_faithful(calls@, 1);
    lemma_calls_are_faithful(calls@, 2);
    lemma_calls_are_faithful(calls@, 3);
}

/// Doing nothing takes no call.
pub proof fn lemma_skipping_calls_nothing(edit: EditStep, calls: Vec<EditCall>)
    requires
        call_ensures(EditStep::calls, (edit,), calls),
        edit is Skip,
    ensures
        calls@.len() == 0,
{
    assert(call_models(calls@) == calls_of(edit@));
    assert(call_models(calls@).len() == 0);
}

/// For every state with a context and every text, the calls that show the text write
/// code units once, and these read as the whole text.
pub proof fn lemma_calls_write_the_whole_text<C, M, E>(
    state: &TipState<C, M, E>,
    text: &str,
    encoded: Vec<u16>,
    edit: EditStep,
    calls: Vec<EditCall>,
)
    requires
        state@.context is Some,
        call_ensures(encode, (text,), encoded),
        call_ensures(TipState::<C, M, E>::edit_step, (state, text), edit),
        call_ensures(EditStep::calls, (edit,), calls),
    ensures
        state@.composition is Some ==> {
            &&& exists|i: int| 0 <= i < calls@.len() && #[trigger] calls@[i] is SetText
            &&& forall|i: int| 0 <= i < calls@.len() ==> !(#[trigger] calls@[i] is InsertText)
            &&& forall|i: int|
                0 <= i < calls@.len() && (#[trigger] calls@[i] is SetText) ==> i == 1 && text_of(
                    calls@[i]->SetText_units@,
                ) == text@
        },
        state@.composition is None ==> {
            &&& exists|i: int| 0 <= i < calls@.len() && #[trigger] calls@[i] is InsertText
            &&& forall|i: int| 0 <= i < calls@.len() ==> !(#[trigger] calls@[i] is SetText)
            &&& forall|i: int|
                0 <= i < calls@.len() && (#[trigger] calls@[i] is InsertText) ==> i == 2
                    && text_of(calls@[i]->InsertText_units@) == text@
        },
{
    lemma_step_holds_the_whole_text(state, text, encoded, edit);
    if state@.composition is Some {
        lemma_replacing_sets_the_whole_text(edit, calls);
        assert(calls@[1] is SetText);
    } else {
        lemma_opening_inserts_the_whole_text(edit, calls);
        assert(calls@[2] is InsertText);
    }
}

/// For every state with a context and every text, a document in which the calls are
/// carried out reads as that text, in one composition.
pub proof fn lemma_document_reads_as_the_text<C, M, E>(
    state: &TipState<C, M, E>,
    shown: Option<Seq<u16>>,
    text: &str,
    edit: EditStep,
    calls: Vec<EditCall>,
)
    requires
        state@.context is Some,
        shown is Some <==> state@.composition is Some,
        call_ensures(TipState::<C, M, E>::edit_step, (state, text), edit),
        call_ensures(EditStep::calls, (edit,), calls),
    ensures
        ({
            let after = Document::showing(shown).after_calls(call_models(calls@));
            &&& after.shown is Some && text_of(after.shown->0) == text@
            &&& after.inserted is None
            &&& call_models(calls@).contains(EditCallModel::StartComposition) <==> shown is None
        }),
{
    assert(edit@ == state@.edit_for(text@));
    assert(call_models(calls@) == calls_of(edit@));
    lemma_session_shows_text(state@, shown, text@);
}

} // verus!
