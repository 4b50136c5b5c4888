//! Verified core of a desktop command bridge.
//!
//! A thin desktop shell exposes four commands to a web front-end: open a
//! native file dialog, open a native save dialog, read a file as text, and
//! write text to a file. The OS dialogs and the filesystem live outside this
//! crate; what is verified here is everything the bridge itself decides:
//!
//! - how each dialog is configured (title, filter allow-list, optional
//!   pre-filled file name), in [`dialog`];
//! - how a dialog outcome becomes a command response, where cancellation is
//!   "no path" and never an error, in [`dialog`];
//! - how a filesystem outcome becomes a command response, with the exact
//!   error strings, in [`commands`];
//! - the semantics the bridge expects of the file store (write then read
//!   round-trips; distinct paths are independent), in [`storage`];
//! - the one-shot handoff that carries a dialog callback's value to the
//!   waiting command task, in [`oneshot`].

pub mod commands;
pub mod dialog;
pub mod oneshot;
pub mod storage;
