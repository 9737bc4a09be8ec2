//! A minimal driver for a single HTTP POST exchange.
//!
//! The heart of the crate is [`handler::TestHandler`], a five-phase state
//! machine that turns I/O readiness events into the next action the driver
//! should take, and that delivers exactly one result per exchange. All I/O
//! itself lives outside this crate: the state machine only consumes plain
//! values (bytes written, response status, bytes read) and hands back plain
//! values.

pub mod handler;
pub mod message;
pub mod request;

pub use handler::{Next, Phase, ReadOutcome, Step, TestHandler, WriteOutcome};
pub use request::{HttpRequest, HttpResponse, Method, RequestHead};
