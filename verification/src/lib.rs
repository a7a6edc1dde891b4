//! A command-dispatch and worker-supervision bridge.
//!
//! A desktop shell exposes a small set of named commands (start/stop
//! recording, list audio devices, transcribe audio, summarize text) and
//! executes them by delegating to a long-lived external worker process.
//! This crate holds the verified core of that bridge: the closed command
//! table and its argument schemas, the supervisor state machine that owns
//! the worker's lifecycle, the outstanding-request set that correlates
//! responses to calls, the wire envelope codec, and the dispatcher that
//! ties them together. The host application performs the actual process
//! spawning and socket I/O and feeds the observed events back into these
//! verified transition functions.

pub mod command;
pub mod errors;
pub mod greeting;
pub mod supervisor;
pub mod codec;
pub mod dispatch;
pub mod locator;
pub mod transport;
