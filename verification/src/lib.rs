//! A background task that owns its state alone and answers requests sent to
//! it over a channel, with any number of cloneable handles in front of it.
//!
//! The handles enqueue requests on an unbounded multi-producer channel; the
//! task takes them off one at a time, computes each reply and hands it back
//! over the single-use channel that the request brought along. The channels
//! are those of the `futures` crate.

pub mod background;
pub mod channel;
pub mod error;
pub mod guarantees;
pub mod handle;
pub mod protocol;
pub mod request;

pub use background::{
    all_answers, polled_through, status_of, turn_for, Arrival, SumBackground, TaskStatus, Turn,
};
pub use channel::Polled;
pub use error::SumError;
pub use handle::SumHandle;
pub use protocol::{exchanges, Envelope, Event, Service, System};
pub use request::{compute, sum_of, Exchange, SumFuture, SumRequest};
