//! What the simultaneous-keystroke engine is set up with, and what it answers.
use vstd::prelude::*;

use crate::clock::Span;

verus! {

/// Virtual key of the left thumb (the non-convert key).
pub const VK_NONCONVERT: u16 = 0x1D;

/// Virtual key of the right thumb (the convert key).
pub const VK_CONVERT: u16 = 0x1C;

/// How long a key waits for a simultaneous partner, in milliseconds.
pub const THRESHOLD_MS: u32 = 100;

/// How long a key waits before it is shown ahead of the decision, in milliseconds.
pub const SPECULATIVE_DELAY_MS: u32 = 30;

/// The numbers that the engine is set up with.
#[derive(Clone, Copy, Debug, PartialEq, Eq, Structural)]
pub struct ChordSettings {
    pub left_thumb_vk: u16,
    pub right_thumb_vk: u16,
    pub threshold_ms: u32,
    pub speculative_delay_ms: u32,
}

/// The settings of a new text service.
pub open spec fn default_settings() -> ChordSettings {
    ChordSettings {
        left_thumb_vk: VK_NONCONVERT,
        right_thumb_vk: VK_CONVERT,
        threshold_ms: THRESHOLD_MS,
        speculative_delay_ms: SPECULATIVE_DELAY_MS,
    }
}

/// The settings of a new text service.
pub fn chord_settings() -> (settings: ChordSettings)
    ensures
        settings == default_settings(),
{
    ChordSettings {
        left_thumb_vk: VK_NONCONVERT,
        right_thumb_vk: VK_CONVERT,
        threshold_ms: THRESHOLD_MS,
        speculative_delay_ms: SPECULATIVE_DELAY_MS,
    }
}

/// A key without a character that the engine may emit.
#[derive(Clone, Copy, Debug, PartialEq, Eq, Structural)]
pub enum SpecialKey {
    /// Takes back the character that was shown ahead of the decision.
    Backspace,
    /// Any other special key.
    Other,
}

/// One output of the engine.
#[derive(Clone, Copy, Debug, PartialEq, Eq, Structural)]
pub enum KeyAction {
    /// A decided or speculative kana.
    Char(char),
    /// A special key.
    SpecialKey(SpecialKey),
    /// An output that the composition does not handle.
    Other,
}

/// One timer instruction of the engine.
#[derive(Clone, Copy, Debug, PartialEq, Eq, Structural)]
pub enum TimerCommand {
    /// Starts the timer, or restarts it with the new duration.
    Start { id: usize, duration: Span },
    /// Stops the timer.
    Kill { id: usize },
}

/// The engine's answer to a key or a timeout.
#[derive(Debug)]
pub struct ChordResponse {
    /// Whether the key belongs to the engine.
    pub consumed: bool,
    /// Outputs, in order.
    pub actions: Vec<KeyAction>,
    /// Timer instructions, in order.
    pub timers: Vec<TimerCommand>,
}

impl ChordResponse {
    /// Whether the answer has neither outputs nor timer instructions.
    pub open spec fn asks_nothing(self) -> bool {
        self.actions@.len() == 0 && self.timers@.len() == 0
    }

    /// Whether the answer has neither outputs nor timer instructions.
    pub fn is_empty(&self) -> (empty: bool)
        ensures
            empty == self.asks_nothing(),
    {
        self.actions.len() == 0 && self.timers.len() == 0
    }
}

} // verus!
