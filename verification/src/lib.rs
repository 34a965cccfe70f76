//! Daily chat-digest pipeline, verified.
//!
//! The library covers the logic of a daily summarization pipeline: computing
//! the target calendar date ("yesterday" in UTC), querying a message store for
//! that day's messages, serializing the batch into the text handed to a
//! summarizer, persisting the resulting digest, and gating delivery on the
//! run's outcome. The outside world (the relational store, the LLM backend,
//! the chat client, the scheduler host) is driven by an unverified shell that
//! feeds each stage's outcome back into the verified state machine.

pub mod clock;
pub mod date;
pub mod message;
pub mod report;
pub mod serialize;
pub mod store;
pub mod trigger;
