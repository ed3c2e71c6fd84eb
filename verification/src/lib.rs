//! The consumer side of a streaming-pull subscription, written without I/O.
//!
//! The crate holds the decisions of a streaming-pull subscriber: how a stream
//! is opened and reopened, how a frame of delivered messages becomes lease
//! handles, which leases are handed back to the broker when shutdown races
//! with delivery, and which requests acknowledge or extend a lease. The caller
//! owns the transport, the timers and the tasks: it performs what the state
//! machines ask for and reports what happened.
//!
//! - `subscriber`: the task that opens, reads and reopens the stream, and the
//!   handle on the two tasks of a subscriber.
//! - `keepalive`: the task that pings the outgoing half of the stream.
//! - `dispatch`: one inbound frame, lease by lease.
//! - `message`: messages, frames and the lease handle.
//! - `rpc`: the requests, and the batched helpers that build them.
//! - `config`: what a subscriber is set up with.
//! - `status`: the status codes of the transport.

pub mod config;
pub mod dispatch;
pub mod keepalive;
pub mod message;
pub mod rpc;
pub mod status;
pub mod subscriber;
