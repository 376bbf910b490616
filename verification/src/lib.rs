//! Automated installer core for a game modification: an installation
//! orchestrator that drives a fixed step sequence with caller-supplied
//! resumability flags, and a streaming downloader that tracks chunked
//! transfer progress against a declared content length.
//!
//! Both components are state machines over plain values: every network or
//! file-system effect is an action handed to the embedding shell, and every
//! outcome comes back as an event, so the decision logic itself is verified.

pub mod download;
pub mod install;
pub mod util;
