//! Study helpers for language learners: a subtitle index with time-based
//! navigation, a structured translation pipeline around a chat-completion
//! service, and an ordered vocabulary ledger.

pub mod json;
pub mod navigation;
pub mod subtitles;
pub mod translation;
pub mod vocabulary;
