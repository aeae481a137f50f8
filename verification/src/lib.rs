//! A mock chat-completion server core: a deterministic substitute for an
//! LLM-inference HTTP endpoint. The library turns a fixed corpus of
//! pre-tokenized text into either a single completion body or an ordered
//! sequence of server-sent-event frames, through a low-allocation template
//! renderer that produces byte-exact JSON for each frame kind.

pub mod corpus;
pub mod routes;
pub mod stream;
pub mod template;
