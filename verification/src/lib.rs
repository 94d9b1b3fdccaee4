//! Front-end harness of the GL scripting language: the decisions behind the
//! interactive loop, one-shot evaluation, file execution and formatting.

pub mod brackets;
pub mod cli;
pub mod dispatch;
pub mod eval;
pub mod flags;
pub mod fmt;
pub mod paint;
pub mod pipeline;
pub mod repl;
pub mod run;
pub mod script;
pub mod session;
pub mod source;
pub mod text;
