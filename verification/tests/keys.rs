//! Key classification and key events.
use awaza::chord::{chord_settings, VK_CONVERT, VK_NONCONVERT};
use awaza::keys::{
    classify_vk, input_context, key_code, key_down_event, ImeRelevance, InputModeState,
    KeyClassification, KeyEventType, ModifierKey, ModifierState, ThumbState, TipKeyClassification,
};

const NO_MODIFIERS: ModifierState =
    ModifierState { ctrl: false, alt: false, shift: false, win: false };

#[test]
fn thumbs_are_thumbs_wherever_the_layout_has_them() {
    assert_eq!(classify_vk(0x1D, Some((1u8, 2u8))), (KeyClassification::LeftThumb, None));
    assert_eq!(classify_vk(0x1C, Some((1u8, 2u8))), (KeyClassification::RightThumb, None));
    assert_eq!(classify_vk::<u8>(0x1D, None), (KeyClassification::LeftThumb, None));
}

#[test]
fn positions_make_character_keys() {
    assert_eq!(classify_vk(0x41, Some((2u8, 0u8))), (KeyClassification::Char, Some((2, 0))));
    assert_eq!(classify_vk::<(u8, u8)>(0x08, None), (KeyClassification::Passthrough, None));
}

#[test]
fn settings_name_the_thumb_keys() {
    let settings = chord_settings();
    assert_eq!(settings.left_thumb_vk, VK_NONCONVERT);
    assert_eq!(settings.right_thumb_vk, VK_CONVERT);
    assert_eq!(settings.threshold_ms, 100);
    assert_eq!(settings.speculative_delay_ms, 30);
    let left: (KeyClassification, Option<u8>) = classify_vk(settings.left_thumb_vk, Some(1));
    assert_eq!(left.0, KeyClassification::LeftThumb);
}

#[test]
fn numbers_beyond_virtual_keys_read_as_zero() {
    assert_eq!(key_code(0x41), 0x41);
    assert_eq!(key_code(0xFFFF), 0xFFFF);
    assert_eq!(key_code(0x1_0000), 0);
    assert_eq!(key_code(0x1_001D), 0);
}

#[test]
fn a_key_down_event_is_plain() {
    let event = key_down_event(0x4B, 77, Some('k'));
    assert_eq!(event.vk_code, 0x4B);
    assert_eq!(event.scan_code, 0);
    assert_eq!(event.event_type, KeyEventType::KeyDown);
    assert_eq!(event.extra_info, 0);
    assert_eq!(event.timestamp, 77);
    assert_eq!(event.key_classification, KeyClassification::Char);
    assert_eq!(event.physical_pos, Some('k'));
    assert_eq!(event.ime_relevance, ImeRelevance::Presumed);
    assert_eq!(event.modifier_key, ModifierKey::Absent);
    assert_eq!(event.modifier_snapshot, NO_MODIFIERS);
    assert!(!event.injected);
}

#[test]
fn the_engine_is_told_of_the_composition() {
    let open = input_context(true);
    assert!(open.ime_on && open.is_japanese_ime && open.composing);
    assert_eq!(open.input_mode, InputModeState::ObservedKana);
    assert_eq!(open.modifiers, NO_MODIFIERS);
    assert_eq!(open.left_thumb_down, ThumbState::Released);
    assert_eq!(open.right_thumb_down, ThumbState::Released);
    assert!(!input_context(false).composing);
}

#[test]
fn classifications_carry_their_position() {
    let key = TipKeyClassification::Char((3u8, 4u8));
    let copy = key;
    assert_eq!(key, copy);
    assert_ne!(key, TipKeyClassification::Char((3, 5)));
    assert_ne!(key, TipKeyClassification::Passthrough);
    assert_ne!(TipKeyClassification::<u8>::LeftThumb, TipKeyClassification::RightThumb);
    assert_eq!(TipKeyClassification::<u8>::ImeControl, TipKeyClassification::ImeControl);
}
