//! ghostwriter: the verified core of an MCP server that drafts, rewrites and
//! reviews prose through an OpenAI-compatible writing model.

pub mod client;
pub mod config;
pub mod decode;
pub mod prompts;
pub mod text;
pub mod writer;
