//! Behaviour analysis of a sandboxed program: the captured system-call trace
//! of a target binary is evaluated against declarative detection rules.

pub mod analyzer;
pub mod detection_rule;
pub mod runtime;
pub mod sandbox;
pub mod syscall;
pub mod text;
pub mod trace;
pub mod uptime;
