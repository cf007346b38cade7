//! The text under composition, and how the engine's outputs edit it.
use vstd::prelude::*;

use crate::chord::{KeyAction, SpecialKey};

verus! {

/// Whether an output edits the composition.
pub open spec fn edits_text(action: KeyAction) -> bool {
    action is Char || action == KeyAction::SpecialKey(SpecialKey::Backspace)
}

/// The text after one output: a character is appended, a backspace takes the last
/// character away, anything else leaves the text.
pub open spec fn edited(text: Seq<char>, action: KeyAction) -> Seq<char> {
    match action {
        KeyAction::Char(c) => text.push(c),
        KeyAction::SpecialKey(SpecialKey::Backspace) => if text.len() > 0 {
            text.drop_last()
        } else {
            text
        },
        _ => text,
    }
}

/// The text after outputs in order.
pub open spec fn edited_by(text: Seq<char>, actions: Seq<KeyAction>) -> Seq<char>
    decreases actions.len(),
{
    if actions.len() == 0 {
        text
    } else {
        edited(edited_by(text, actions.drop_last()), actions.last())
    }
}

/// Whether any of the outputs edits the composition.
pub open spec fn any_edit(actions: Seq<KeyAction>) -> bool {
    exists|i: int| 0 <= i < actions.len() && edits_text(#[trigger] actions[i])
}

/// Whether an output edits the composition.
pub fn edits(action: KeyAction) -> (edits: bool)
    ensures
        edits == edits_text(action),
{
    match action {
        KeyAction::Char(_) => true,
        KeyAction::SpecialKey(SpecialKey::Backspace) => true,
        _ => false,
    }
}

/// The text under composition after the engine's outputs, or `None` when none of
/// them edits it.
pub fn apply_actions(preedit: &str, actions: &Vec<KeyAction>) -> (text: Option<String>)
    ensures
        text is Some <==> any_edit(actions@),
        text is Some ==> text->0@ == edited_by(preedit@, actions@),
{
    let mut text: String = preedit.to_owned();
    let mut changed = false;
    let mut i: usize = 0;
    while i < actions.len()
        invariant
            i <= actions@.len(),
            text@ == edited_by(preedit@, actions@.take(i as int)),
            changed <==> any_edit(actions@.take(i as int)),
        decreases actions.len() - i,
    {
        let ghost seen = actions@.take(i as int);
        let action: KeyAction = actions[i];
        match action {
            KeyAction::Char(c) => {
                text.push(c);
            },
            KeyAction::SpecialKey(SpecialKey::Backspace) => {
                let _ = text.pop();
            },
            _ => {},
        }
        changed = changed || edits(action);
        i = i + 1;
        proof {
            let longer = actions@.take(i as int);
            assert(longer.drop_last() =~= seen);
            assert(longer.last() == action);
            assert forall|k: int| 0 <= k < seen.len() implies #[trigger] longer[k] == seen[k] by {}
            assert(any_edit(seen) ==> any_edit(longer)) by {
                if any_edit(seen) {
                    let k = choose|k: int| 0 <= k < seen.len() && edits_text(#[trigger] seen[k]);
                    assert(edits_text(longer[k]));
                }
            }
            assert(edits_text(action) ==> any_edit(longer)) by {
                if edits_text(action) {
                    assert(edits_text(longer[i - 1]));
                }
            }
        }
    }
    assert(actions@.take(actions@.len() as int) =~= actions@);
    if changed {
        Some(text)
    } else {
        None
    }
}

/// Outputs in two batches edit the text as they would in one.
pub proof fn lemma_batches_join(text: Seq<char>, first: Seq<KeyAction>, second: Seq<KeyAction>)
    ensures
        edited_by(text, first + second) == edited_by(edited_by(text, first), second),
    decreases second.len(),
{
    if second.len() == 0 {
        assert(first + second =~= first);
    } else {
        lemma_batches_join(text, first, second.drop_last());
        assert((first + second).drop_last() =~= first + second.drop_last());
    }
}

/// A backspace that opens a batch takes back exactly the character shown last:
/// the rest of the batch continues as if that character had never been shown.
pub proof fn lemma_backspace_retracts(text: Seq<char>, shown: char, rest: Seq<KeyAction>)
    ensures
        edited_by(text.push(shown), seq![KeyAction::SpecialKey(SpecialKey::Backspace)] + rest)
            == edited_by(text, rest),
{
    let back = seq![KeyAction::SpecialKey(SpecialKey::Backspace)];
    lemma_batches_join(text.push(shown), back, rest);
    assert(edited_by(text.push(shown), back) == text) by {
        reveal_with_fuel(edited_by, 2);
        assert(text.push(shown).drop_last() =~= text);
    }
}

/// Taking back a speculative character and emitting another one leaves the text
/// as if only the other one had been emitted.
pub proof fn lemma_retract_and_replace(text: Seq<char>, shown: char, replacement: char)
    ensures
        edited_by(
            edited_by(text, seq![KeyAction::Char(shown)]),
            seq![KeyAction::SpecialKey(SpecialKey::Backspace), KeyAction::Char(replacement)],
        ) == edited_by(text, seq![KeyAction::Char(replacement)]),
{
    let rest = seq![KeyAction::Char(replacement)];
    assert(edited_by(text, seq![KeyAction::Char(shown)]) == text.push(shown)) by {
        reveal_with_fuel(edited_by, 2);
    }
    lemma_backspace_retracts(text, shown, rest);
    assert(seq![KeyAction::SpecialKey(SpecialKey::Backspace)] + rest =~= seq![
        KeyAction::SpecialKey(SpecialKey::Backspace),
        KeyAction::Char(replacement),
    ]);
}

/// Outputs that the composition does not handle leave the text alone, wherever
/// they stand among the others.
pub proof fn lemma_unhandled_outputs_do_nothing(text: Seq<char>, actions: Seq<KeyAction>)
    ensures
        edited_by(text, actions) == edited_by(text, actions.filter(|a: KeyAction| edits_text(a))),
        !any_edit(actions) ==> edited_by(text, actions) == text,
    decreases actions.len(),
{
    reveal(Seq::filter);
    if actions.len() > 0 {
        let shorter = actions.drop_last();
        let handled = |a: KeyAction| edits_text(a);
        lemma_unhandled_outputs_do_nothing(text, shorter);
        if edits_text(actions.last()) {
            assert(shorter.filter(handled).push(actions.last()).drop_last() =~= shorter.filter(
                handled,
            ));
            assert(edits_text(actions[actions.len() - 1]));
        } else if !any_edit(actions) {
            assert(!any_edit(shorter)) by {
                assert forall|i: int| 0 <= i < shorter.len() implies !edits_text(
                    #[trigger] shorter[i],
                ) by {
                    assert(shorter[i] == actions[i]);
                }
            }
        }
    }
}

/// The outputs that emit characters in order.
pub open spec fn emitted(typed: Seq<char>) -> Seq<KeyAction>
    decreases typed.len(),
{
    if typed.len() == 0 {
        Seq::empty()
    } else {
        emitted(typed.drop_last()).push(KeyAction::Char(typed.last()))
    }
}

proof fn lemma_code_point(c: char)
    ensures
        0 <= c as int <= 0xD7FF || 0xE000 <= c as int <= 0x10FFFF,
{
}

/// Characters alone are appended in order.
pub proof fn lemma_characters_append(text: Seq<char>, typed: Seq<char>)
    ensures
        edited_by(text, emitted(typed)) == text + typed,
    decreases typed.len(),
{
    if typed.len() == 0 {
        assert(text + typed =~= text);
    } else {
        lemma_characters_append(text, typed.drop_last());
        lemma_code_point(typed.last());
        assert(emitted(typed).drop_last() =~= emitted(typed.drop_last()));
        assert((text + typed.drop_last()).push(typed.last()) =~= text + typed);
    }
}

} // verus!
