//! Commit-message generation around a staged diff: provider requests and
//! replies, the configuration of providers, and the accept / edit /
//! regenerate / quit workflow, all as plain values with proved contracts.

pub mod anthropic;
pub mod client;
pub mod client_laws;
pub mod commit_flow;
pub mod commit_laws;
pub mod config;
pub mod decision;
pub mod gh;
pub mod git;
pub mod json;
pub mod openai;
pub mod pull_request_flow;
pub mod pull_request_laws;
pub mod request;
pub mod text;
pub mod vim;
