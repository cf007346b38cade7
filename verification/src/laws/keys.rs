//! Laws of keys: which of them are whose, and what the engine hears of them.
use vstd::prelude::*;

use crate::chord::{chord_settings, ChordSettings};
use crate::keys::{
    classify_vk, input_context, key_code, key_down_event, ImeRelevance, InputContext,
    InputModeState, KeyClassification, KeyEventType, ModifierKey, ModifierState, RawKeyEvent,
    ThumbState,
};

verus! {

/// A message's parameter that is a virtual key is read as that key, and one that is
/// not is read as no key at all, never as some other key.
pub proof fn lemma_parameter_is_the_key(wparam: usize, vk: u16)
    requires
        call_ensures(key_code, (wparam,), vk),
    ensures
        wparam < 0x1_0000 ==> vk == wparam,
        wparam >= 0x1_0000 ==> vk == 0,
{
}

/// The two thumb keys are thumbs, wherever the layout may have them. Every other key
/// that the layout has is a character key with exactly its position, and every other
/// key that it does not have is left to the application.
pub proof fn lemma_layout_decides<P>(
    vk: u16,
    position: Option<P>,
    class: (KeyClassification, Option<P>),
)
    requires
        call_ensures(classify_vk::<P>, (vk, position), class),
    ensures
        class.0 == KeyClassification::LeftThumb <==> vk == 0x1D,
        class.0 == KeyClassification::RightThumb <==> vk == 0x1C,
        vk == 0x1D || vk == 0x1C ==> class.1 is None,
        vk != 0x1D && vk != 0x1C ==> class.1 == position,
        vk != 0x1D && vk != 0x1C && position is Some ==> class.0 == KeyClassification::Char,
        vk != 0x1D && vk != 0x1C && position is None ==> class.0 == KeyClassification::Passthrough,
{
}

/// Apart from the thumbs only the position counts: two keys at the same position are
/// the same to the engine.
pub proof fn lemma_position_alone_counts<P>(
    one: u16,
    other: u16,
    position: Option<P>,
    one_class: (KeyClassification, Option<P>),
    other_class: (KeyClassification, Option<P>),
)
    requires
        call_ensures(classify_vk::<P>, (one, position), one_class),
        call_ensures(classify_vk::<P>, (other, position), other_class),
        one != 0x1D && one != 0x1C,
        other != 0x1D && other != 0x1C,
    ensures
        one_class == other_class,
{
}

/// The engine is set up with the keys that count as thumbs.
pub proof fn lemma_engine_knows_the_thumbs<P>(
    settings: ChordSettings,
    vk: u16,
    position: Option<P>,
    class: (KeyClassification, Option<P>),
)
    requires
        call_ensures(chord_settings, (), settings),
        call_ensures(classify_vk::<P>, (vk, position), class),
    ensures
        class.0 == KeyClassification::LeftThumb <==> vk == settings.left_thumb_vk,
        class.0 == KeyClassification::RightThumb <==> vk == settings.right_thumb_vk,
        settings.left_thumb_vk != settings.right_thumb_vk,
        settings.threshold_ms == 100,
        settings.speculative_delay_ms == 30,
{
}

/// The engine hears of a key exactly what is known of it: the virtual key and the time
/// stamp as they are, what the key is to the engine and where it lies.
pub proof fn lemma_event_tells_the_key<P>(
    vk: u16,
    timestamp: u64,
    position: Option<P>,
    class: (KeyClassification, Option<P>),
    event: RawKeyEvent<P>,
)
    requires
        call_ensures(classify_vk::<P>, (vk, position), class),
        call_ensures(key_down_event::<P>, (vk, timestamp, position), event),
    ensures
        event.vk_code == vk,
        event.timestamp == timestamp,
        event.key_classification == class.0,
        event.physical_pos == class.1,
        event.event_type == KeyEventType::KeyDown,
{
}

/// What an event tells besides the key is the same for every key: it comes from the
/// keyboard itself, and no modifier is down.
pub proof fn lemma_event_tells_nothing_else<P>(
    vk: u16,
    timestamp: u64,
    position: Option<P>,
    event: RawKeyEvent<P>,
)
    requires
        call_ensures(key_down_event::<P>, (vk, timestamp, position), event),
    ensures
        event.scan_code == 0,
        event.extra_info == 0,
        !event.injected,
        event.ime_relevance == ImeRelevance::Presumed,
        event.modifier_key == ModifierKey::Absent,
        lifted(event.modifier_snapshot),
{
}

/// No modifier key is down.
pub open spec fn lifted(state: ModifierState) -> bool {
    !state.ctrl && !state.alt && !state.shift && !state.win
}

/// Of two keys the later never has the smaller time stamp, and the engine hears the
/// time between them as it was.
pub proof fn lemma_events_keep_time<P>(
    earlier_vk: u16,
    later_vk: u16,
    earlier: u64,
    later: u64,
    earlier_position: Option<P>,
    later_position: Option<P>,
    first: RawKeyEvent<P>,
    second: RawKeyEvent<P>,
)
    requires
        earlier <= later,
        call_ensures(key_down_event::<P>, (earlier_vk, earlier, earlier_position), first),
        call_ensures(key_down_event::<P>, (later_vk, later, later_position), second),
    ensures
        first.timestamp <= second.timestamp,
        second.timestamp - first.timestamp == later - earlier,
{
}

/// The engine hears that a composition is open exactly when it is, and otherwise the
/// same at every key: kana are typed into a Japanese input method that is on, with no
/// modifier down and no thumb held.
pub proof fn lemma_surroundings_tell_the_composition(composing: bool, context: InputContext)
    requires
        call_ensures(input_context, (composing,), context),
    ensures
        context.composing == composing,
        context.ime_on && context.is_japanese_ime,
        context.input_mode == InputModeState::ObservedKana,
        lifted(context.modifiers),
        context.left_thumb_down == ThumbState::Released,
        context.right_thumb_down == ThumbState::Released,
{
}

} // verus!
