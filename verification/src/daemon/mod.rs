//! Decisions of the D-Bus daemon: the status it reports, how long an STT
//! request waits, and what a stop request answers.

pub mod control;

pub use control::{DaemonStatus, SttWait};
