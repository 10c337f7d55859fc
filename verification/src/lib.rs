//! The deciding half of a command-line client for a file-hosting service.
//!
//! A batch of items is classified (local file, URL, neither), sorted into groups,
//! and each group is run under a cap on the operations in flight. The library
//! decides what is sent and in which order operations may start, and words the
//! line that reports each outcome; its caller sends the requests and prints the
//! lines.
//!
//! - [`classify`] tells the three kinds of item apart.
//! - [`batch`] turns the arguments of a command into groups, requests and calls.
//! - [`dispatch`] is the bounded dispatcher, a state machine with its laws.
//! - [`file`], [`litter`] and [`album`] describe the requests; [`request`] holds
//!   their type.
//! - [`hosted`] reduces addresses of hosted files to identifiers.
//! - [`args`] holds the arguments of the commands as plain values.
//! - [`text`] holds the operations on text that the others share.

pub mod album;
pub mod args;
pub mod batch;
pub mod classify;
pub mod dispatch;
pub mod file;
pub mod hosted;
pub mod litter;
pub mod request;
pub mod text;
