//! A voice-command dispatcher: apps described by manifests, matched against a
//! transcribed command and run in a scripting sandbox.

pub mod apps;
pub mod args;
pub mod asr;
pub mod error;
pub mod invocation;
pub mod manifest;
pub mod script;
pub mod text;
