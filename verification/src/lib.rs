//! The decisions of a control panel for the Windows Defender antivirus
//! service.
//!
//! The panel works by running scripts in the command interpreter and reading
//! what they print. This library holds everything of that work but the
//! running itself: which script an operation runs next, with which values
//! in it, how its output is read, and what the operation amounts to in the
//! end. It starts no process and reads no clock. An operation is a function
//! from the replies that its host has given so far to its next step (see
//! [`exchange`]), so that every operation is a value that can be stated and
//! proved.
//!
//! - [`text`]: the operations on text that the rest is stated in.
//! - [`scripts`]: the scripts, word for word.
//! - [`report`]: how a script tells whether it succeeded.
//! - [`exchange`]: requests, replies and the steps between them.
//! - [`infra`]: the command interpreter.
//! - [`models`]: the records handed to the caller.
//! - [`services`]: the operations on status, scans, threats and disposable
//!   files.
//! - [`panel`]: the plain commands, which ask once and hand on the answer.

pub mod exchange;
pub mod infra;
pub mod models;
pub mod panel;
pub mod report;
pub mod scripts;
pub mod services;
pub mod text;
