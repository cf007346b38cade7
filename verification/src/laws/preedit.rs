//! Laws of the text under composition: what the engine's outputs make of it.
use vstd::prelude::*;

use crate::chord::{KeyAction, SpecialKey};
use crate::preedit::{
    any_edit, apply_actions, edited_by, edits, edits_text, lemma_batches_join,
    lemma_unhandled_outputs_do_nothing,
};

verus! {

/// Whether an output is a character or the backspace that takes one back.
pub open spec fn is_edit(action: KeyAction) -> bool {
    match action {
        KeyAction::Char(_) => true,
        KeyAction::SpecialKey(key) => key is Backspace,
        KeyAction::Other => false,
    }
}

/// The text that is there after outputs were applied to `before`.
pub open spec fn text_then(before: Seq<char>, applied: Option<String>) -> Seq<char> {
    match applied {
        Some(text) => text@,
        None => before,
    }
}

/// Characters and backspaces edit the text, and no other output does.
pub proof fn lemma_only_characters_and_backspaces_edit(action: KeyAction, found: bool)
    requires
        call_ensures(edits, (action,), found),
    ensures
        found <==> is_edit(action),
{
}

/// There is a new text exactly when one of the outputs is an edit.
pub proof fn lemma_new_text_iff_edit(
    preedit: &str,
    actions: &Vec<KeyAction>,
    applied: Option<String>,
)
    requires
        call_ensures(apply_actions, (preedit, actions), applied),
    ensures
        applied is Some <==> exists|i: int|
            0 <= i < actions@.len() && is_edit(#[trigger] actions@[i]),
{
    assert(call_ensures(apply_actions, (preedit, actions), applied));
    if any_edit(actions@) {
        let i = choose|i: int| 0 <= i < actions@.len() && edits_text(#[trigger] actions@[i]);
        assert(is_edit(actions@[i]));
    }
    if exists|i: int| 0 <= i < actions@.len() && is_edit(#[trigger] actions@[i]) {
        let i = choose|i: int| 0 <= i < actions@.len() && is_edit(#[trigger] actions@[i]);
        assert(edits_text(actions@[i]));
    }
}

proof fn lemma_then(preedit: &str, actions: &Vec<KeyAction>, applied: Option<String>)
    requires
        call_ensures(apply_actions, (preedit, actions), applied),
    ensures
        text_then(preedit@, applied) == edited_by(preedit@, actions@),
{
    lemma_unhandled_outputs_do_nothing(preedit@, actions@);
}

proof fn lemma_appended(text: Seq<char>, c: char)
    ensures
        edited_by(text, seq![KeyAction::Char(c)]) == text.push(c),
{
    reveal_with_fuel(edited_by, 2);
    assert(seq![KeyAction::Char(c)].drop_last() =~= Seq::<KeyAction>::empty());
}

/// One output makes of the text what it stands for: a character is appended, a
/// backspace takes the last character away if there is one, and any other output
/// leaves the text as it is.
pub proof fn lemma_one_output(preedit: &str, actions: &Vec<KeyAction>, applied: Option<String>)
    requires
        call_ensures(apply_actions, (preedit, actions), applied),
        actions@.len() == 1,
    ensures
        match actions@[0] {
            KeyAction::Char(c) => {
                let text = text_then(preedit@, applied);
                &&& text.len() == preedit@.len() + 1
                &&& text.take(preedit@.len() as int) == preedit@
                &&& text.last() == c
            },
            KeyAction::SpecialKey(SpecialKey::Backspace) => if preedit@.len() > 0 {
                text_then(preedit@, applied) == preedit@.take(preedit@.len() - 1)
            } else {
                applied is Some && applied->0@.len() == 0
            },
            _ => applied is None,
        },
{
    lemma_then(preedit, actions, applied);
    lemma_new_text_iff_edit(preedit, actions, applied);
    let text = text_then(preedit@, applied);
    match actions@[0] {
        KeyAction::Char(c) => {
            assert(actions@ =~= seq![KeyAction::Char(c)]);
            lemma_appended(preedit@, c);
            assert(text.take(preedit@.len() as int) =~= preedit@);
        },
        KeyAction::SpecialKey(SpecialKey::Backspace) => {
            reveal_with_fuel(edited_by, 2);
            assert(actions@.drop_last() =~= Seq::<KeyAction>::empty());
            assert(is_edit(actions@[0]));
            if preedit@.len() > 0 {
                assert(preedit@.drop_last() =~= preedit@.take(preedit@.len() - 1));
            }
        },
        _ => {},
    }
}

/// Without outputs the text stays.
pub proof fn lemma_no_output(preedit: &str, actions: &Vec<KeyAction>, applied: Option<String>)
    requires
        call_ensures(apply_actions, (preedit, actions), applied),
        actions@.len() == 0,
    ensures
        applied is None,
{
    lemma_new_text_iff_edit(preedit, actions, applied);
}

/// Outputs in two batches, the second applied to what the first made of the text, make
/// of it what they make in one batch.
pub proof fn lemma_outputs_in_batches(
    preedit: &str,
    first: &Vec<KeyAction>,
    between: &str,
    second: &Vec<KeyAction>,
    both: &Vec<KeyAction>,
    after_first: Option<String>,
    after_second: Option<String>,
    after_both: Option<String>,
)
    requires
        call_ensures(apply_actions, (preedit, first), after_first),
        between@ == text_then(preedit@, after_first),
        call_ensures(apply_actions, (between, second), after_second),
        both@ == first@ + second@,
        call_ensures(apply_actions, (preedit, both), after_both),
    ensures
        text_then(preedit@, after_both) == text_then(between@, after_second),
        after_both is Some <==> after_first is Some || after_second is Some,
{
    lemma_then(preedit, first, after_first);
    lemma_then(between, second, after_second);
    lemma_then(preedit, both, after_both);
    lemma_batches_join(preedit@, first@, second@);
    lemma_new_text_iff_edit(preedit, first, after_first);
    lemma_new_text_iff_edit(between, second, after_second);
    lemma_new_text_iff_edit(preedit, both, after_both);
    if after_first is Some {
        let i = choose|i: int| 0 <= i < first@.len() && is_edit(#[trigger] first@[i]);
        assert(both@[i] == first@[i]);
    }
    if after_second is Some {
        let i = choose|i: int| 0 <= i < second@.len() && is_edit(#[trigger] second@[i]);
        assert(both@[first@.len() + i] == second@[i]);
    }
    if after_both is Some {
        let i = choose|i: int| 0 <= i < both@.len() && is_edit(#[trigger] both@[i]);
        if i < first@.len() {
            assert(both@[i] == first@[i]);
        } else {
            assert(both@[i] == second@[i - first@.len()]);
        }
    }
}

} // verus!
