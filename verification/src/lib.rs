//! A multi-provider chat framework: message model, wire formats and the
//! routing / retry decisions, with their contracts proved by Verus.

pub mod clock;
pub mod json;
pub mod router;
pub mod error;
pub mod metadata;
pub mod decimal;
pub mod tools;
pub mod urls;
pub mod messages;
pub mod wire;
pub mod chars;
pub mod gemini;
pub mod chat;
pub mod openai;
pub mod equality;
pub mod transport;
pub mod openrouter;
pub mod options;
