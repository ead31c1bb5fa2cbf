//! Worker-local channel transport: a push endpoint and a pull endpoint over one
//! first-in, first-out queue of timestamped messages, and the single-worker
//! communicator that allocates them.
//!
//! The endpoints of a channel do not hold its queue: every call that touches
//! the queue is handed it, so that each contract can say what the call finds
//! in the queue and what it leaves there.
pub mod communicator;
pub mod observer;
pub mod order;
pub mod pullable;
pub mod queue;

pub use communicator::Thread;
pub use observer::Observer;
pub use pullable::Pullable;
pub use queue::{Message, Queue};
