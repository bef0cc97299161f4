//! A pool of reusable objects handed out through an unbounded channel.

mod channel;
pub mod error;
pub mod pool;
pub mod reusable;

pub use error::PoolError;
pub use pool::{attach_outcome, Pool};
pub use reusable::Reusable;
