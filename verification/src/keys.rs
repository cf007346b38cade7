//! Virtual keys: what each is to the engine, and the events made of them.
use vstd::prelude::*;

use crate::chord::{default_settings, VK_CONVERT, VK_NONCONVERT};

verus! {

/// What a key is to the engine.
#[derive(Clone, Copy, Debug, PartialEq, Eq, Structural)]
pub enum KeyClassification {
    LeftThumb,
    RightThumb,
    /// A key with a position on the layout.
    Char,
    /// A key that the engine leaves to the application.
    Passthrough,
}

/// What a physical key is to the text service, with the position `P` of a
/// character key.
#[derive(Clone, Copy, Debug, PartialEq, Eq)]
pub enum TipKeyClassification<P> {
    LeftThumb,
    RightThumb,
    Char(P),
    ImeControl,
    Passthrough,
}

/// The state of the modifier keys.
#[derive(Clone, Copy, Debug, PartialEq, Eq, Structural)]
pub struct ModifierState {
    pub ctrl: bool,
    pub alt: bool,
    pub shift: bool,
    pub win: bool,
}

/// No modifier key is down.
pub open spec fn no_modifiers() -> ModifierState {
    ModifierState { ctrl: false, alt: false, shift: false, win: false }
}

/// Whether a key goes down or up.
#[derive(Clone, Copy, Debug, PartialEq, Eq, Structural)]
pub enum KeyEventType {
    KeyDown,
    KeyUp,
}

/// How much a key matters to an input method.
#[derive(Clone, Copy, Debug, PartialEq, Eq, Structural)]
pub enum ImeRelevance {
    /// As the engine presumes of any key.
    Presumed,
}

/// Which modifier key an event is of.
#[derive(Clone, Copy, Debug, PartialEq, Eq, Structural)]
pub enum ModifierKey {
    /// Of none.
    Absent,
}

/// What is known of the input mode.
#[derive(Clone, Copy, Debug, PartialEq, Eq, Structural)]
pub enum InputModeState {
    /// The service is seen to take kana.
    ObservedKana,
}

/// What is known of a thumb key besides its events.
#[derive(Clone, Copy, Debug, PartialEq, Eq, Structural)]
pub enum ThumbState {
    /// It is not held down.
    Released,
}

/// A key event as the engine takes it; `P` is a position on the layout.
#[derive(Debug)]
pub struct RawKeyEvent<P> {
    pub vk_code: u16,
    pub scan_code: u32,
    pub event_type: KeyEventType,
    pub extra_info: usize,
    pub timestamp: u64,
    pub key_classification: KeyClassification,
    pub physical_pos: Option<P>,
    pub ime_relevance: ImeRelevance,
    pub modifier_key: ModifierKey,
    pub modifier_snapshot: ModifierState,
    pub injected: bool,
}

/// What the engine is told of the surroundings of a key.
#[derive(Clone, Copy, Debug, PartialEq, Eq, Structural)]
pub struct InputContext {
    pub ime_on: bool,
    pub input_mode: InputModeState,
    pub is_japanese_ime: bool,
    pub composing: bool,
    pub modifiers: ModifierState,
    pub left_thumb_down: ThumbState,
    pub right_thumb_down: ThumbState,
}

/// The virtual key in a key message's parameter; a number that is no virtual key
/// reads as zero.
pub open spec fn vk_of(wparam: usize) -> u16 {
    if wparam <= u16::MAX {
        wparam as u16
    } else {
        0
    }
}

/// What a virtual key is to the engine, given whether it has a position.
pub open spec fn class_of(vk: u16, has_position: bool) -> KeyClassification {
    if vk == VK_NONCONVERT {
        KeyClassification::LeftThumb
    } else if vk == VK_CONVERT {
        KeyClassification::RightThumb
    } else if has_position {
        KeyClassification::Char
    } else {
        KeyClassification::Passthrough
    }
}

/// The position that goes with a virtual key: none for a thumb key.
pub open spec fn position_of<P>(vk: u16, position: Option<P>) -> Option<P> {
    if vk == VK_NONCONVERT || vk == VK_CONVERT {
        None
    } else {
        position
    }
}

/// The event of a key that goes down.
pub open spec fn down_event<P>(vk: u16, timestamp: u64, position: Option<P>) -> RawKeyEvent<P> {
    RawKeyEvent {
        vk_code: vk,
        scan_code: 0,
        event_type: KeyEventType::KeyDown,
        extra_info: 0,
        timestamp,
        key_classification: class_of(vk, position is Some),
        physical_pos: position_of(vk, position),
        ime_relevance: ImeRelevance::Presumed,
        modifier_key: ModifierKey::Absent,
        modifier_snapshot: no_modifiers(),
        injected: false,
    }
}

/// The surroundings of a key, given whether a composition is open.
pub open spec fn surroundings(composing: bool) -> InputContext {
    InputContext {
        ime_on: true,
        input_mode: InputModeState::ObservedKana,
        is_japanese_ime: true,
        composing,
        modifiers: no_modifiers(),
        left_thumb_down: ThumbState::Released,
        right_thumb_down: ThumbState::Released,
    }
}

/// The virtual key in a key message's parameter.
pub fn key_code(wparam: usize) -> (vk: u16)
    ensures
        vk == vk_of(wparam),
{
    if wparam <= u16::MAX as usize {
        wparam as u16
    } else {
        0
    }
}

/// What a virtual key is to the engine, and its position if it is a character
/// key. `position` is where the layout has the key.
pub fn classify_vk<P>(vk: u16, position: Option<P>) -> (class: (KeyClassification, Option<P>))
    ensures
        class.0 == class_of(vk, position is Some),
        class.1 == position_of(vk, position),
{
    if vk == VK_NONCONVERT {
        (KeyClassification::LeftThumb, None)
    } else if vk == VK_CONVERT {
        (KeyClassification::RightThumb, None)
    } else {
        match position {
            Some(pos) => (KeyClassification::Char, Some(pos)),
            None => (KeyClassification::Passthrough, None),
        }
    }
}

/// The event of a key that goes down now.
pub fn key_down_event<P>(vk: u16, timestamp: u64, position: Option<P>) -> (event: RawKeyEvent<P>)
    ensures
        event == down_event(vk, timestamp, position),
{
    let (key_classification, physical_pos) = classify_vk(vk, position);
    RawKeyEvent {
        vk_code: vk,
        scan_code: 0,
        event_type: KeyEventType::KeyDown,
        extra_info: 0,
        timestamp,
        key_classification,
        physical_pos,
        ime_relevance: ImeRelevance::Presumed,
        modifier_key: ModifierKey::Absent,
        modifier_snapshot: ModifierState { ctrl: false, alt: false, shift: false, win: false },
        injected: false,
    }
}

/// The surroundings of a key, given whether a composition is open.
pub fn input_context(composing: bool) -> (context: InputContext)
    ensures
        context == surroundings(composing),
{
    InputContext {
        ime_on: true,
        input_mode: InputModeState::ObservedKana,
        is_japanese_ime: true,
        composing,
        modifiers: ModifierState { ctrl: false, alt: false, shift: false, win: false },
        left_thumb_down: ThumbState::Released,
        right_thumb_down: ThumbState::Released,
    }
}

/// A key is handed on with a position exactly when it is a character key.
pub proof fn lemma_position_iff_character<P>(vk: u16, position: Option<P>)
    ensures
        position_of(vk, position) is Some <==> class_of(vk, position is Some)
            == KeyClassification::Char,
{
}

/// The keys that count as thumbs are the ones that the engine is set up with, and
/// no layout position makes them character keys.
pub proof fn lemma_thumb_keys_agree(vk: u16, has_position: bool)
    ensures
        class_of(vk, has_position) == KeyClassification::LeftThumb <==> vk
            == default_settings().left_thumb_vk,
        class_of(vk, has_position) == KeyClassification::RightThumb <==> vk
            == default_settings().right_thumb_vk,
{
}

} // verus!
