//! Error kinds produced by the dispatch and borrow core.

use vstd::prelude::*;

use crate::value::Value;

verus! {

/// An error reported by the safety and dispatch core, or raised by a callback
/// and passed through unchanged.
#[derive(Debug, Clone)]
pub enum Error {
    /// The handle's type tag does not match the requested type, the handle
    /// has no metatable, or the handle does not name a userdata of the engine.
    UserDataTypeMismatch,
    /// Shared access was requested while an exclusive borrow is live.
    UserDataBorrowError,
    /// Exclusive access was requested while any borrow is live.
    UserDataBorrowMutError,
    /// A method was invoked under a name with no binding, and the type does
    /// not override index reads.
    MethodNotFound,
    /// An index-read override produced a member that is not callable.
    NotCallable,
    /// An error raised by a callback; carried verbatim as an engine value.
    RuntimeError(Value),
}

} // verus!
