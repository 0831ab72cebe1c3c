//! Errors of command resolution. Each is recovered locally: printed to the
//! user, the command dropped, the session context left untouched.

use vstd::prelude::*;

verus! {

/// Why a command could not be resolved into a concrete operation.
#[derive(Clone, Copy, Debug, PartialEq, Eq, Structural)]
pub enum ResolveError {
    /// A read needs a resource, and neither the command nor the current
    /// context supplies one.
    NoResourceSelected,
    /// A database was named explicitly but no format came with it.
    MissingFormat,
    /// The server-wide `with_resources` flag was combined with an
    /// explicitly named database.
    ConflictingFlags,
    /// A context-relative delete asks for a deeper scope than the current
    /// context holds.
    InsufficientContext,
}

} // verus!
