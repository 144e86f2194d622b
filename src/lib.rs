//! A non-blocking error-ingestion core: entries go into a bounded queue that
//! drops the newest entry when full, and a single consumer hands them to a sink.

pub mod entry;
pub mod queue;
pub mod pipeline;
pub mod laws;
