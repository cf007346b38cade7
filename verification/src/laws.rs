//! What the library's operations are for, said of what goes into a call and what
//! comes out of it.

pub mod document;
pub mod keys;
pub mod preedit;
pub mod registration;
pub mod server;
pub mod service;
pub mod text;
pub mod time;
