//! A synthetic input engine: programmatic generation of mouse and keyboard
//! events behind one platform-independent command vocabulary, with
//! bookkeeping of held keys, a configurable inter-event delay, and
//! translation of text into key-event sequences.

pub mod adapter;
pub mod backend;
pub mod engine;
pub mod errors;
pub mod stub;
pub mod timing;
pub mod tracker;
pub mod translate;
pub mod vocabulary;
