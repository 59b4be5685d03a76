//! Rolling compaction of a chat conversation's history: deciding when a
//! history has grown too large, where to cut it, how to abridge the part that
//! is cut off, and how to put a summary in its place.

pub mod abridge;
pub mod actions;
pub mod anthropic;
pub mod cache;
pub mod compact;
pub mod config;
pub mod json;
pub mod nodes;
pub mod openai;
pub mod protocol;
pub mod ratio;
pub mod size;
pub mod split;
pub mod string_set;
pub mod summarizer;
pub mod text;
pub mod trigger;
pub mod truncate;
