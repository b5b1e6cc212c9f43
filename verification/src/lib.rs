//! Core of a streaming chat client: a byte-stream-to-lines framer, a
//! newline-delimited JSON record decoder, a single-flight request
//! orchestrator, and an aggregator that folds partial-text fragments into
//! a growing reply inside the session state.

pub mod aggregator;
pub mod decoder;
pub mod orchestrator;
pub mod session;
pub mod stream;
pub mod error;
pub mod framer;
pub mod json;
pub mod record;
