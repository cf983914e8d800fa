//! Summaries of issue discussions: trigger detection, token-budget chunking
//! and a map-reduce summarization protocol, driven as a state machine whose
//! outside calls (tracker, chat backend, notification channel) are made by
//! the host.
pub mod pipeline;
pub mod text;
pub mod thread;
pub mod tokens;
pub mod trigger;
