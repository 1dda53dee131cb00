//! The errors that the daemon's own rules give rise to. Both are fatal at
//! startup.

use vstd::prelude::*;

verus! {

/// Errors of the bus server.
#[derive(Debug, Clone, Copy, PartialEq, Eq, Structural)]
pub enum DBus {
    /// A bus name that the daemon needs is owned by another process.
    AlreadyRegistered,
}

/// Errors of the display.
#[derive(Debug, Clone, Copy, PartialEq, Eq, Structural)]
pub enum X {
    /// An extension that the daemon needs is missing or too old.
    MissingExtension,
}

} // verus!
