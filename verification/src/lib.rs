use vstd::prelude::*;

pub mod text;
pub mod order;
pub mod json;
pub mod stream;
pub mod normalize;
pub mod plan;
pub mod prompt;
pub mod ai_runtime;
pub mod commands;
pub mod kernel;
pub mod mcp;
pub mod run;
pub mod install_agent;
pub mod config;
pub mod agent;
