//! A bridge between a blocking request handler and an event-driven HTTP
//! server.
//!
//! The server snapshots each request into an owned value that can change
//! threads ([`adaptor::RequestInfo`]). A worker builds the handler's request
//! from it ([`adaptor::ConduitRequest`]), calls the handler, and settles what
//! comes back into the response to send ([`dispatch`]): the handler's own
//! response where it passes validation ([`response::validate`]), and one
//! fixed failure response in every other case, so that no client can tell a
//! failing handler from a panicking one or from a response that was refused.
//! Which task runs and which waits is the bookkeeping of
//! [`pool::WorkerPool`].
//!
//! The library owns no thread and performs no I/O: it decides, and the code
//! around it acts.

pub mod adaptor;
pub mod dispatch;
pub mod header_map;
pub mod path;
pub mod pool;
pub mod response;
