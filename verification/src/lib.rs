//! Asynchronous data loading and state reconciliation for a playlist library.
//!
//! The crate connects slow, fallible remote fetches to UI-bound application
//! state without blocking the interactive thread.  A [`promise::Promise`]
//! tracks the lifecycle of each asynchronous value and drops resolutions that
//! arrive late relative to a newer request; command submission and completion
//! are explicit state transitions over [`state::AppState`]; fetched track
//! collections are ordered deterministically by the merger in [`sort`].

pub mod commands;
pub mod data;
pub mod error;
pub mod library;
pub mod promise;
pub mod sort;
pub mod state;
