//! The decision logic of a Japanese input method: what a text service does with
//! each key, timer and composition event, and what it registers on the system.

pub mod calls;
pub mod chord;
pub mod clock;
pub mod footprint;
pub mod guid;
pub mod keys;
pub mod laws;
pub mod log;
pub mod preedit;
pub mod registration;
pub mod scene;
pub mod server;
mod std_text;
pub mod timers;
pub mod tip;
pub mod utf16;
