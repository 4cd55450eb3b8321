//! A blocking multi-producer, single-consumer channel, and a set of
//! single-threaded cells and containers.

pub mod binary_heap;
pub mod cell;
pub mod channel;
pub mod cow;
pub mod linkedlist;
pub mod model;
pub mod once;
pub mod queue;
pub mod rc;
pub mod reference;
pub mod sync;
pub mod syncunsafecell;
pub mod unsafecell;

pub use channel::{channel, Receiver, Sender};
