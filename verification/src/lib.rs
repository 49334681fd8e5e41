//! Typed client for a remote record-storage service exposed over HTTP/JSON.
//!
//! The crate separates request construction and response classification,
//! which are verified, from the transport that actually carries the bytes,
//! which is abstract: callers supply any implementation of
//! [`httpc::Transport`].

pub mod client;
pub mod collections;
pub mod datetime;
pub mod error;
pub mod httpc;
pub mod json;
pub mod logs;
pub mod records;
pub mod strutil;
