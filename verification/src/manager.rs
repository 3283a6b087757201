//! What the pool asks of its surroundings: a manager that opens and judges
//! connections, and a handler that takes the manager's errors.

use vstd::prelude::*;

verus! {

/// Opens, validates and diagnoses the connections of one backend.
///
/// The pool promises nothing about what these calls return and relies on
/// nothing: it is proved for every manager.
pub trait ConnectionManager: Send + Sync {
    /// The connections this manager deals in.
    type Connection: Send;

    /// The errors this manager reports.
    type Error;

    /// Attempts to open a new connection. May take arbitrarily long.
    fn connect(&self) -> Result<Self::Connection, Self::Error>;

    /// Determines whether the connection still works, say by a round trip to
    /// the backend. May take long.
    fn is_valid(&self, conn: &mut Self::Connection) -> Result<(), Self::Error>;

    /// Quickly determines whether the connection is no longer usable. It is
    /// asked each time a connection comes back, so it must not block. A
    /// manager without such a check answers `false`.
    fn has_broken(&self, conn: &mut Self::Connection) -> bool;
}

/// Takes the errors that a [`ConnectionManager`] reports. It is never called
/// with a success.
pub trait ErrorHandler<E>: Send + Sync {
    /// Handles an error.
    fn handle_error(&self, error: E);
}

/// An [`ErrorHandler`] that discards every error.
#[derive(Clone, Copy, Debug)]
pub struct NoopErrorHandler;

impl<E> ErrorHandler<E> for NoopErrorHandler {
    fn handle_error(&self, error: E) {
    }
}

} // verus!
