//! A verified transform pipeline for structured documents.
//!
//! A job names one or more source documents (JSON or XML text), a filter
//! program, and a destination.  The pipeline resolves the job's parameters,
//! compiles the filter once, decodes every source into a canonical JSON text,
//! runs the filter (once per document, or once over the whole batch in
//! aggregate mode), encodes the result in the requested output format, and
//! reports one terminal outcome.  File reads and writes are performed by the
//! caller, which drives the pipeline as a state machine of actions and events.

pub mod codec;
pub mod laws;
pub mod params;
pub mod pipeline;
pub mod resolve;
pub mod text;
pub mod worker;
