//! A verified translating gateway core: converts chat-completion requests
//! between an OpenAI-style wire schema and the schemas of two assistant
//! backends, emulates streaming delivery by chunking a complete response,
//! and maps failures onto a fixed error taxonomy.
//!
//! The network, the clock, the process environment and the random identifier
//! source live outside this library; every decision taken on the data they
//! carry is specified and proved here.

pub mod cli;
pub mod error;
pub mod gateway;
pub mod json;
pub mod openai;
pub mod provider;
pub mod render;
pub mod streaming;
pub mod text;
