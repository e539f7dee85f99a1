//! Panic-notification handlers with verified composition.
//!
//! A fatal error intercepted at the process level is turned into three
//! coordinated outputs: a structured log record, a best-effort blocking
//! dialog, and a call to a post-notification hook (optionally the hook
//! that was installed before this one).  The library provides the
//! failure model, the default title/body formatting, a fluent builder
//! over the three handler slots, the single-slot model of the
//! process-wide hook, and the dispatch logic that runs on each failure.

mod dialog;
pub mod failure;
pub mod handler;
pub mod slot;
pub mod text;
