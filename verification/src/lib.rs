//! A generic connection pool, written as a verified core.
//!
//! The pool keeps a bounded set of open connections, hands them out oldest
//! first, takes them back on release and repairs itself in the background.
//! Everything that decides lives here and is proved; waiting, locking and
//! threads are left to the caller, which feeds the pool the current instant of
//! a steady clock and acts on what the pool answers.

pub mod clock;
pub mod config;
pub mod errors;
pub mod internals;
pub mod laws;
pub mod manager;
pub mod pool;
pub mod task;

pub use clock::{Deadline, SteadyClock};
pub use config::Config;
pub use errors::{GetTimeout, InitializationError};
pub use internals::{
    CheckoutStep, InitStep, Opening, PoolInternals, REPLACE_DELAY, RETRY_DELAY,
};
pub use manager::{ConnectionManager, ErrorHandler, NoopErrorHandler};
pub use pool::{add_connection, Checkout, Pool, PooledConnection, Replenish, Work};
pub use task::{Dispatch, ScheduledTask, ScheduledThreadPool};
