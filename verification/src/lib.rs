//! Tool-calling agent orchestrator for an LLM chat-completions endpoint.
//!
//! The crate models the conversation protocol (messages, tool calls, token
//! usage), decodes non-streaming and streamed responses, routes tool calls to
//! a fixed catalog, summarizes tool results for progress display, tracks a
//! bounded reflection heuristic, and drives the multi-round agent state
//! machine.  All network transport is left to the embedding application; the
//! library computes requests, decodes response text, and decides every step.

pub mod decode;
pub mod dispatch;
pub mod indicators;
pub mod instructions;
pub mod json;
pub mod orchestrator;
pub mod prompts;
pub mod protocol;
pub mod reflection;
pub mod registry;
pub mod request;
pub mod screener;
pub mod sse;
pub mod stockcode;
pub mod summarize;
pub mod text;
pub mod wire;
