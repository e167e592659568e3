//! Keystroke-timing capture pipeline: recording state, buffering with flush
//! and auto-save policies, record encoding and signed session files.

pub mod text;
pub mod record;
pub mod seal;
pub mod processor;
pub mod recorder;
pub mod icon;
