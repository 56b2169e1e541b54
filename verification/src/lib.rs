//! Shipit: a verified branch-to-branch shipping pipeline.
//!
//! The library resolves the commits unique to a source branch relative to a
//! target branch over an in-memory commit graph, composes a request
//! description from them, and plans exactly one pull/merge-request creation
//! against a remote hosting platform. All decision logic lives here, with
//! contracts; the surrounding binary performs the repository reads and the
//! HTTP calls and feeds their outcomes back in as plain values.

pub mod cli;
pub mod compose;
pub mod context;
pub mod error;
pub mod numbers;
pub mod pipeline;
pub mod platform;
pub mod repo;
pub mod response;
pub mod settings;
pub mod summarize;
