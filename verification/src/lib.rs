//! A greeting offered as a single guest capability: one stateless operation
//! that takes a name and answers with a typed success or a typed failure.
//!
//! Failures are ordinary data. Every function here is total and is proved
//! never to fault, so nothing but a success or a failure can reach a host.

pub mod guest;
pub mod laws;
pub mod output;

pub use guest::{result_view, Guest, SayHello, FAILURE_MESSAGE, GREETING_PREFIX, SENTINEL};
pub use output::{Output, OutputView};
